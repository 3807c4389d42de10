//! Lines of the supervisor's diagnostic log.

use vstd::prelude::*;
use crate::digits::{decimal, push_decimal};

verus! {

/// File name of the diagnostic log, kept next to the host executable.
pub const LOG_FILE_NAME: &'static str = "rtt_analyzer.log";

/// A log line: the timestamp in seconds in brackets, then the message.
pub open spec fn log_line_spec(timestamp: nat, message: Seq<char>) -> Seq<char> {
    "["@ + decimal(timestamp) + "] "@ + message
}

/// Formats one line of the diagnostic log, without its line break.
pub fn log_line(timestamp: u64, message: &str) -> (r: String)
    ensures
        r@ == log_line_spec(timestamp as nat, message@),
{
    let mut out = String::from_str("[");
    push_decimal(&mut out, timestamp);
    out.append("] ");
    out.append(message);
    out
}

} // verus!
