//! Why a launch of the worker did not succeed.

use vstd::prelude::*;

verus! {

/// Failure of one launch attempt.
#[derive(Debug)]
pub enum LaunchError {
    /// The directory of the host application's executable is unknown.
    PathNotFound,
    /// The resolved worker executable is absent on disk.
    ExecutableMissing,
    /// The operating system refused to create the process; holds its message.
    SpawnFailed(String),
}

/// A launch failure with its message as characters.
pub enum LaunchFailure {
    PathNotFound,
    ExecutableMissing,
    SpawnFailed(Seq<char>),
}

impl View for LaunchError {
    type V = LaunchFailure;

    open spec fn view(&self) -> LaunchFailure {
        match self {
            LaunchError::PathNotFound => LaunchFailure::PathNotFound,
            LaunchError::ExecutableMissing => LaunchFailure::ExecutableMissing,
            LaunchError::SpawnFailed(m) => LaunchFailure::SpawnFailed(m@),
        }
    }
}

impl LaunchFailure {
    /// Whether a failure of this kind is worth one cleanup and a retry: a
    /// refused spawn may come from a stale worker still bound to the
    /// worker's network address, while a missing path or file will stay
    /// missing.
    pub open spec fn retry_eligible(self) -> bool {
        self is SpawnFailed
    }
}

impl LaunchError {
    /// Whether this failure calls for one cleanup and a retry.
    pub fn retry_eligible(&self) -> (r: bool)
        ensures
            r == self@.retry_eligible(),
    {
        match self {
            LaunchError::SpawnFailed(_) => true,
            _ => false,
        }
    }

    /// A message for the operator's log.
    pub fn describe(&self) -> (r: String)
        ensures
            r@ == describe_spec(self@),
    {
        match self {
            LaunchError::PathNotFound => String::from_str(PATH_NOT_FOUND_TEXT),
            LaunchError::ExecutableMissing => String::from_str(EXECUTABLE_MISSING_TEXT),
            LaunchError::SpawnFailed(m) => {
                let mut r = String::from_str(SPAWN_FAILED_TEXT);
                r.append(m.as_str());
                r
            },
        }
    }
}

pub const PATH_NOT_FOUND_TEXT: &'static str = "Failed to get executable directory";

pub const EXECUTABLE_MISSING_TEXT: &'static str =
    "Backend not found; please ensure the backend is properly built and packaged";

pub const SPAWN_FAILED_TEXT: &'static str = "Failed to spawn backend process: ";

/// The operator-visible message of a failure.
pub open spec fn describe_spec(e: LaunchFailure) -> Seq<char> {
    match e {
        LaunchFailure::PathNotFound => PATH_NOT_FOUND_TEXT@,
        LaunchFailure::ExecutableMissing => EXECUTABLE_MISSING_TEXT@,
        LaunchFailure::SpawnFailed(m) => SPAWN_FAILED_TEXT@ + m,
    }
}

} // verus!
