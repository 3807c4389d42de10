//! Laws of the supervisor that span several calls or every state.

use vstd::prelude::*;
use crate::error::LaunchFailure;
use crate::layout::{location_for, worker_dir, worker_exe, BuildMode, BUNDLE_DIR, WORKER_ARTIFACT};
use crate::reaper::{kill_spec, shutdown_spec, sweep_spec, Platform};
use crate::supervisor::{
    initial, next, ActionView, EventView, Phase, StartStage, SupervisorView,
};

verus! {

/// Both build modes place the worker under the application directory, in
/// the worker's artifact directory; the production place differs from the
/// development one by exactly the bundle directory inserted after the
/// application directory.
pub proof fn lemma_build_modes_differ_by_bundle_dir(app_dir: Seq<Seq<char>>)
    ensures
        worker_dir(app_dir, BuildMode::Development) == app_dir.push(WORKER_ARTIFACT@),
        worker_dir(app_dir, BuildMode::Production) == app_dir.push(BUNDLE_DIR@).push(
            WORKER_ARTIFACT@,
        ),
        worker_dir(app_dir, BuildMode::Production) == worker_dir(
            app_dir,
            BuildMode::Development,
        ).insert(app_dir.len() as int, BUNDLE_DIR@),
        worker_exe(app_dir, BuildMode::Production) == worker_exe(
            app_dir,
            BuildMode::Development,
        ).insert(app_dir.len() as int, BUNDLE_DIR@),
        worker_exe(app_dir, BuildMode::Development).subrange(0, app_dir.len() as int) == app_dir,
        worker_exe(app_dir, BuildMode::Production).subrange(0, app_dir.len() as int) == app_dir,
{
    assert(worker_dir(app_dir, BuildMode::Production) =~= worker_dir(
        app_dir,
        BuildMode::Development,
    ).insert(app_dir.len() as int, BUNDLE_DIR@));
    assert(worker_exe(app_dir, BuildMode::Production) =~= worker_exe(
        app_dir,
        BuildMode::Development,
    ).insert(app_dir.len() as int, BUNDLE_DIR@));
    assert(worker_exe(app_dir, BuildMode::Development).subrange(0, app_dir.len() as int)
        =~= app_dir);
    assert(worker_exe(app_dir, BuildMode::Production).subrange(0, app_dir.len() as int)
        =~= app_dir);
}

/// An executable found missing ends the launch with `ExecutableMissing`
/// and asks for no spawn, in the first attempt and in the retry alike.
pub proof fn lemma_missing_executable_is_not_spawned(s: SupervisorView)
    requires
        s.wf(),
        s.phase matches Phase::Starting { stage, .. } && stage == StartStage::Check,
    ensures
        next(s, EventView::ExecutableChecked { present: false }).1 == ActionView::GiveUp(
            LaunchFailure::ExecutableMissing,
        ),
        next(s, EventView::ExecutableChecked { present: false }).0.phase == Phase::Failed,
{
}

/// A refused spawn in the first attempt starts the retry: a cleanup sweep,
/// then the delay, then the launch once more.
pub proof fn lemma_refused_spawn_is_retried(s: SupervisorView, message: Seq<char>)
    requires
        s.wf(),
        s.phase == (Phase::Starting { stage: StartStage::Spawn, retried: false }),
    ensures
        next(s, EventView::SpawnRefused { message }) == (
            SupervisorView { phase: Phase::Starting { stage: StartStage::Sweep, retried: true }, ..s },
            ActionView::Sweep,
        ),
        next(next(s, EventView::SpawnRefused { message }).0, EventView::SweepFinished) == (
            SupervisorView { phase: Phase::Starting { stage: StartStage::Delay, retried: true }, ..s },
            ActionView::Wait { millis: crate::supervisor::RETRY_DELAY_MS },
        ),
        next(
            next(next(s, EventView::SpawnRefused { message }).0, EventView::SweepFinished).0,
            EventView::DelayElapsed,
        ) == (
            SupervisorView { phase: Phase::Starting { stage: StartStage::Check, retried: true }, ..s },
            ActionView::CheckExecutable(s.location.unwrap()),
        ),
{
}

/// A refused spawn in the retry ends the launch: there is no second retry.
pub proof fn lemma_refused_retry_gives_up(s: SupervisorView, message: Seq<char>)
    requires
        s.wf(),
        s.phase == (Phase::Starting { stage: StartStage::Spawn, retried: true }),
    ensures
        next(s, EventView::SpawnRefused { message }) == (
            SupervisorView { phase: Phase::Failed, ..s },
            ActionView::GiveUp(LaunchFailure::SpawnFailed(message)),
        ),
{
}

/// A retry starts at most once: a cleanup sweep during startup is asked for
/// only by a launch that has not retried yet, and once the retry is taken,
/// no event asks for another or forgets that it was taken.
pub proof fn lemma_retry_at_most_once(s: SupervisorView, e: EventView)
    ensures
        next(s, e).1 is Sweep ==> s.phase == (Phase::Starting {
            stage: StartStage::Spawn,
            retried: false,
        }) && next(s, e).0.phase == (Phase::Starting { stage: StartStage::Sweep, retried: true }),
        (s.phase matches Phase::Starting { retried, .. } && retried) ==> {
            &&& !(next(s, e).1 is Sweep)
            &&& next(s, e).0.phase matches Phase::Starting { retried, .. } ==> retried
        },
{
}

/// A successful spawn records the worker's identifier, and once recorded
/// no event clears or replaces it.
pub proof fn lemma_spawn_records_pid(s: SupervisorView, pid: u32, e: EventView)
    requires
        s.wf(),
    ensures
        s.phase matches Phase::Starting { stage, .. } && stage == StartStage::Spawn ==> {
            &&& next(s, EventView::Spawned { pid }).0.pid == Some(pid)
            &&& next(s, EventView::Spawned { pid }).0.phase == Phase::Running
        },
        s.pid is Some ==> next(s, e).0.pid == s.pid,
        next(s, e).0.wf(),
{
}

/// A spawn is asked for only while no worker is recorded, so at most one
/// worker is current at any time.
pub proof fn lemma_no_spawn_while_recorded(s: SupervisorView, e: EventView)
    requires
        s.wf(),
    ensures
        next(s, e).1 is Spawn ==> s.pid is None && next(s, e).0.pid is None,
{
}

/// After shutdown has completed, another shutdown request changes nothing
/// and only re-issues the same idempotent cleanup; it never reports a
/// failure.
pub proof fn lemma_repeated_shutdown_is_noop(s: SupervisorView)
    requires
        s.phase == Phase::Stopped,
    ensures
        next(s, EventView::ShutdownRequested) == (s, ActionView::Shutdown { pid: s.pid }),
{
}

/// Whether the kill of the worker succeeded is not observable: both
/// outcomes lead to the same state, and neither yields a failure.
pub proof fn lemma_kill_outcome_is_not_observable(s: SupervisorView)
    ensures
        next(s, EventView::CleanupFinished { kill_succeeded: true }) == next(
            s,
            EventView::CleanupFinished { kill_succeeded: false },
        ),
        !(next(s, EventView::CleanupFinished { kill_succeeded: false }).1 is GiveUp),
{
}

/// From startup to shutdown: the recorded identifier is exactly the
/// spawned one, and shutdown kills that process and then sweeps, once.
pub proof fn lemma_start_then_shutdown(
    app_dir: Seq<Seq<char>>,
    mode: BuildMode,
    pid: u32,
    platform: Platform,
)
    ensures
        ({
            let (s1, a1) = next(
                initial(),
                EventView::AppStarting { app_dir: Some(app_dir), mode },
            );
            let (s2, a2) = next(s1, EventView::ExecutableChecked { present: true });
            let (s3, a3) = next(s2, EventView::Spawned { pid });
            let (s4, a4) = next(s3, EventView::ShutdownRequested);
            &&& a1 == ActionView::CheckExecutable(location_for(app_dir, mode))
            &&& a2 == ActionView::Spawn(location_for(app_dir, mode))
            &&& s3.phase == Phase::Running
            &&& s3.pid == Some(pid)
            &&& a4 == ActionView::Shutdown { pid: Some(pid) }
            &&& s4.phase == Phase::Stopping
        }),
        shutdown_spec(platform, Some(pid)).len() == 1 + sweep_spec(platform).len(),
        shutdown_spec(platform, Some(pid))[0] == kill_spec(platform, pid as nat),
        shutdown_spec(platform, Some(pid)).subrange(1, shutdown_spec(platform, Some(pid)).len() as int)
            == sweep_spec(platform),
{
    let full = shutdown_spec(platform, Some(pid));
    assert(full.subrange(1, full.len() as int) =~= sweep_spec(platform));
}

} // verus!
