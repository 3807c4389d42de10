//! The command lines that terminate the worker.
//!
//! Termination is best-effort by design: the host runs these commands and
//! ignores their outcome, since by shutdown time the worker may already
//! have exited on its own.

use vstd::prelude::*;
use crate::digits::{decimal, to_decimal};

verus! {

/// Every name the worker executable has been packaged under on Windows,
/// current one first.
pub const WINDOWS_WORKER_NAMES: [&'static str; 2] = [
    "rtt_analyzer_backend-x86_64-pc-windows-msvc.exe",
    "rtt_analyzer_backend.exe",
];

/// The name pattern that matches every worker process on POSIX hosts.
pub const POSIX_WORKER_PATTERN: &'static str = "rtt_analyzer_backend";

/// The host platform, which decides the termination commands.
#[derive(Clone, Copy, Debug, PartialEq, Eq, Structural)]
pub enum Platform {
    /// Forced termination through `taskkill`, without a console window.
    Windows,
    /// Forced termination through `kill -9` and `pkill -9`.
    Posix,
}

/// A command to run: program, arguments, and whether its console window
/// must be suppressed.
#[derive(Debug)]
pub struct KillCommand {
    pub program: String,
    pub args: Vec<String>,
    pub hide_window: bool,
}

/// A command line as mathematical values.
pub struct CommandView {
    pub program: Seq<char>,
    pub args: Seq<Seq<char>>,
    pub hide_window: bool,
}

/// The arguments of a command as character sequences.
pub open spec fn arg_views(v: Seq<String>) -> Seq<Seq<char>> {
    v.map_values(|s: String| s@)
}

impl View for KillCommand {
    type V = CommandView;

    open spec fn view(&self) -> CommandView {
        CommandView { program: self.program@, args: arg_views(self.args@), hide_window: self.hide_window }
    }
}

/// The sequence of views of a list of commands.
pub open spec fn command_views(v: Seq<KillCommand>) -> Seq<CommandView> {
    v.map_values(|c: KillCommand| c@)
}

/// The forced termination of process `pid`.
pub open spec fn kill_spec(platform: Platform, pid: nat) -> CommandView {
    match platform {
        Platform::Windows => CommandView {
            program: "taskkill"@,
            args: seq!["/F"@, "/PID"@, decimal(pid)],
            hide_window: true,
        },
        Platform::Posix => CommandView {
            program: "kill"@,
            args: seq!["-9"@, decimal(pid)],
            hide_window: false,
        },
    }
}

/// The forced termination of every process running under `name`.
pub open spec fn kill_by_name_spec(platform: Platform, name: Seq<char>) -> CommandView {
    match platform {
        Platform::Windows => CommandView {
            program: "taskkill"@,
            args: seq!["/F"@, "/IM"@, name],
            hide_window: true,
        },
        Platform::Posix => CommandView {
            program: "pkill"@,
            args: seq!["-9"@, name],
            hide_window: false,
        },
    }
}

/// The cleanup sweep: one kill by name for every known worker name.
pub open spec fn sweep_spec(platform: Platform) -> Seq<CommandView> {
    match platform {
        Platform::Windows => seq![
            kill_by_name_spec(platform, WINDOWS_WORKER_NAMES[0]@),
            kill_by_name_spec(platform, WINDOWS_WORKER_NAMES[1]@),
        ],
        Platform::Posix => seq![kill_by_name_spec(platform, POSIX_WORKER_PATTERN@)],
    }
}

/// Shutdown: the kill of the recorded worker, if any, then the sweep.
pub open spec fn shutdown_spec(platform: Platform, pid: Option<u32>) -> Seq<CommandView> {
    match pid {
        Some(p) => seq![kill_spec(platform, p as nat)] + sweep_spec(platform),
        None => sweep_spec(platform),
    }
}

fn strings_of2(a: &str, b: &str) -> (r: Vec<String>)
    ensures
        arg_views(r@) == seq![a@, b@],
{
    let v = vec![String::from_str(a), String::from_str(b)];
    assert(arg_views(v@) =~= seq![a@, b@]);
    v
}

fn strings_of3(a: &str, b: &str, c: &str) -> (r: Vec<String>)
    ensures
        arg_views(r@) == seq![a@, b@, c@],
{
    let v = vec![String::from_str(a), String::from_str(b), String::from_str(c)];
    assert(arg_views(v@) =~= seq![a@, b@, c@]);
    v
}

/// The command that forcibly terminates process `pid`.
pub fn kill_by_pid_command(platform: Platform, pid: u32) -> (r: KillCommand)
    ensures
        r@ == kill_spec(platform, pid as nat),
{
    let id = to_decimal(pid as u64);
    match platform {
        Platform::Windows => KillCommand {
            program: String::from_str("taskkill"),
            args: strings_of3("/F", "/PID", id.as_str()),
            hide_window: true,
        },
        Platform::Posix => KillCommand {
            program: String::from_str("kill"),
            args: strings_of2("-9", id.as_str()),
            hide_window: false,
        },
    }
}

/// The command that forcibly terminates every process named `name`.
pub fn kill_by_name_command(platform: Platform, name: &str) -> (r: KillCommand)
    ensures
        r@ == kill_by_name_spec(platform, name@),
{
    match platform {
        Platform::Windows => KillCommand {
            program: String::from_str("taskkill"),
            args: strings_of3("/F", "/IM", name),
            hide_window: true,
        },
        Platform::Posix => KillCommand {
            program: String::from_str("pkill"),
            args: strings_of2("-9", name),
            hide_window: false,
        },
    }
}

fn push_command(cmds: &mut Vec<KillCommand>, c: KillCommand)
    ensures
        command_views(final(cmds)@) == command_views(old(cmds)@).push(c@),
{
    let ghost v = c@;
    cmds.push(c);
    assert(command_views(final(cmds)@) =~= command_views(old(cmds)@).push(v));
}

fn push_sweep(cmds: &mut Vec<KillCommand>, platform: Platform)
    ensures
        command_views(final(cmds)@) == command_views(old(cmds)@) + sweep_spec(platform),
{
    let ghost start = command_views(old(cmds)@);
    match platform {
        Platform::Windows => {
            push_command(cmds, kill_by_name_command(platform, WINDOWS_WORKER_NAMES[0]));
            push_command(cmds, kill_by_name_command(platform, WINDOWS_WORKER_NAMES[1]));
        },
        Platform::Posix => {
            push_command(cmds, kill_by_name_command(platform, POSIX_WORKER_PATTERN));
        },
    }
    assert(command_views(cmds@) =~= start + sweep_spec(platform));
}

/// The cleanup sweep: a forced kill by name for every name the worker has
/// been packaged under, to remove workers left over from an earlier run.
pub fn cleanup_sweep_commands(platform: Platform) -> (r: Vec<KillCommand>)
    ensures
        command_views(r@) == sweep_spec(platform),
{
    let mut cmds: Vec<KillCommand> = Vec::new();
    push_sweep(&mut cmds, platform);
    assert(command_views(Seq::<KillCommand>::empty()) + sweep_spec(platform) =~= sweep_spec(
        platform,
    ));
    cmds
}

/// The commands of a shutdown, in the order to run them: the kill of the
/// recorded worker, if there is one, then the cleanup sweep.
pub fn shutdown_commands(platform: Platform, pid: Option<u32>) -> (r: Vec<KillCommand>)
    ensures
        command_views(r@) == shutdown_spec(platform, pid),
{
    let mut cmds: Vec<KillCommand> = Vec::new();
    assert(command_views(cmds@) =~= Seq::<CommandView>::empty());
    match pid {
        Some(p) => {
            push_command(&mut cmds, kill_by_pid_command(platform, p));
            assert(command_views(cmds@) =~= seq![kill_spec(platform, p as nat)]);
        },
        None => {},
    }
    push_sweep(&mut cmds, platform);
    assert(command_views(cmds@) =~= shutdown_spec(platform, pid));
    cmds
}

} // verus!
