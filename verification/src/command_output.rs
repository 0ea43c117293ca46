//! The record in which the outcome of an external command is reported.

use vstd::prelude::*;

verus! {

/// What a finished external command left behind.
///
/// `stdout` and `stderr` hold the captured text, empty where nothing was
/// captured. `exit_code` is present when the command exited on its own,
/// `signal` when a signal ended it. The two are independent fields: the record
/// itself does not enforce that only one of them is present.
#[derive(Debug, PartialEq, Eq)]
pub struct CommandOutput {
    pub stdout: String,
    pub stderr: String,
    pub exit_code: Option<i32>,
    pub signal: Option<i32>,
}

} // verus!
