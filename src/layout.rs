//! Where the worker executable lives relative to the host application.
//!
//! A path is modelled as its sequence of components; the host joins them
//! onto a real path.

use vstd::prelude::*;
use crate::error::LaunchError;

verus! {

/// Directory named after the worker's platform-qualified artifact.
pub const WORKER_ARTIFACT: &'static str = "rtt_analyzer_backend-x86_64-pc-windows-msvc";

/// File name of the worker executable inside its directory.
pub const WORKER_EXE: &'static str = "rtt_analyzer_backend-x86_64-pc-windows-msvc.exe";

/// Directory of a packaged bundle that holds the worker's directory.
pub const BUNDLE_DIR: &'static str = "bin";

/// How the host application was built, fixed at compile time.
#[derive(Clone, Copy, Debug, PartialEq, Eq, Structural)]
pub enum BuildMode {
    /// The worker sits beside the application executable.
    Development,
    /// The worker sits one level deeper, under the bundle directory.
    Production,
}

/// The resolved place of the worker: its directory, which is also its
/// working directory, and its executable.
#[derive(Debug)]
pub struct WorkerLocation {
    pub dir: Vec<String>,
    pub exe: Vec<String>,
}

/// The components of a path as character sequences.
pub open spec fn components(v: Seq<String>) -> Seq<Seq<char>> {
    v.map_values(|s: String| s@)
}

/// The worker's directory for an application directory and a build mode.
pub open spec fn worker_dir(app_dir: Seq<Seq<char>>, mode: BuildMode) -> Seq<Seq<char>> {
    match mode {
        BuildMode::Development => app_dir.push(WORKER_ARTIFACT@),
        BuildMode::Production => app_dir.push(BUNDLE_DIR@).push(WORKER_ARTIFACT@),
    }
}

/// The worker's executable for an application directory and a build mode.
pub open spec fn worker_exe(app_dir: Seq<Seq<char>>, mode: BuildMode) -> Seq<Seq<char>> {
    worker_dir(app_dir, mode).push(WORKER_EXE@)
}

/// A worker location as two component sequences.
pub struct LocationView {
    pub dir: Seq<Seq<char>>,
    pub exe: Seq<Seq<char>>,
}

/// Where the worker lives for an application directory and a build mode.
pub open spec fn location_for(app_dir: Seq<Seq<char>>, mode: BuildMode) -> LocationView {
    LocationView { dir: worker_dir(app_dir, mode), exe: worker_exe(app_dir, mode) }
}

impl View for WorkerLocation {
    type V = LocationView;

    open spec fn view(&self) -> LocationView {
        LocationView { dir: self.dir_view(), exe: self.exe_view() }
    }
}

impl WorkerLocation {
    pub open spec fn dir_view(&self) -> Seq<Seq<char>> {
        components(self.dir@)
    }

    pub open spec fn exe_view(&self) -> Seq<Seq<char>> {
        components(self.exe@)
    }

    /// The location of the worker for `app_dir` under `mode`.
    pub open spec fn is_resolved(&self, app_dir: Seq<Seq<char>>, mode: BuildMode) -> bool {
        self@ == location_for(app_dir, mode)
    }

    /// A copy of this location.
    pub fn duplicate(&self) -> (r: WorkerLocation)
        ensures
            r@ == self@,
    {
        WorkerLocation { dir: copy_components(&self.dir), exe: copy_components(&self.exe) }
    }
}

/// A component-wise copy of a path.
pub fn copy_components(v: &Vec<String>) -> (r: Vec<String>)
    ensures
        components(r@) == components(v@),
{
    let mut r: Vec<String> = Vec::new();
    let mut i: usize = 0;
    while i < v.len()
        invariant
            i <= v.len(),
            components(r@) == components(v@.subrange(0, i as int)),
        decreases v.len() - i,
    {
        let c = v[i].clone();
        assert(c@ == v@[i as int]@);
        let ghost prev = r@;
        r.push(c);
        i = i + 1;
        assert(components(r@) =~= components(prev).push(c@));
        assert(components(v@.subrange(0, i as int)) =~= components(
            v@.subrange(0, i - 1 as int),
        ).push(c@));
    }
    assert(v@.subrange(0, v.len() as int) =~= v@);
    r
}

fn push_component(path: &mut Vec<String>, name: &str)
    ensures
        components(final(path)@) == components(old(path)@).push(name@),
{
    path.push(String::from_str(name));
    assert(components(final(path)@) =~= components(old(path)@).push(name@));
}

/// Resolves the worker's directory and executable from the directory of the
/// host application's executable, if the operating system could tell it.
pub fn resolve_worker(app_dir: Option<Vec<String>>, mode: BuildMode) -> (r: Result<
    WorkerLocation,
    LaunchError,
>)
    ensures
        app_dir is None ==> r == Err::<WorkerLocation, LaunchError>(LaunchError::PathNotFound),
        app_dir matches Some(d) ==> r matches Ok(loc) && loc.is_resolved(components(d@), mode),
{
    match app_dir {
        None => Err(LaunchError::PathNotFound),
        Some(d) => {
            let ghost base = components(d@);
            let mut dir = d;
            if mode == BuildMode::Production {
                push_component(&mut dir, BUNDLE_DIR);
            }
            push_component(&mut dir, WORKER_ARTIFACT);
            let mut exe = copy_components(&dir);
            push_component(&mut exe, WORKER_EXE);
            let loc = WorkerLocation { dir, exe };
            assert(loc.is_resolved(base, mode));
            Ok(loc)
        },
    }
}

} // verus!
