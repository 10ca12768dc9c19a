//! What comes of a child process.
use vstd::prelude::*;

verus! {

/// The exit code that stands for a process without one.
pub const NO_EXIT_CODE: i32 = -1;

/// What came of a child process. Its output is text, as far as it can be read.
pub enum ProcessOutcome {
    /// It ran to its end. Without a code it was killed.
    Exited { code: Option<i32>, stdout: String, stderr: String },
    /// It could not be waited for.
    Failed(String),
    /// It took too long.
    TimedOut,
}

/// The exit code, or the one that stands for none where the process was killed.
pub open spec fn exit_code_of(code: Option<i32>) -> i32 {
    code.unwrap_or(NO_EXIT_CODE)
}

/// The exit code, or the one that stands for none where the process was killed.
pub fn exit_code(code: Option<i32>) -> (r: i32)
    ensures
        r == exit_code_of(code),
{
    match code {
        Some(c) => c,
        None => NO_EXIT_CODE,
    }
}

} // verus!
