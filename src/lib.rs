//! Supervision of the analyzer's backend worker process.
//!
//! The library holds every decision the supervisor makes: where the worker
//! executable lives, which command lines terminate it, how its output lines
//! are classified, and the lifecycle state machine that orders launch,
//! retry and shutdown. The host application performs the side effects that
//! the state machine asks for and feeds the outcomes back as events.

pub mod digits;
pub mod error;
pub mod layout;
pub mod supervisor;
pub mod reaper;
pub mod drain;
pub mod logbook;
pub mod guarantees;
