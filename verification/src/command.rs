//! How a command that was run came out.
use vstd::prelude::*;

use crate::text::{trim, trimmed};

verus! {

/// A command that ended: whether it succeeded, its exit code unless a signal ended it, its status
/// in the words of the system, and what it wrote.
#[derive(Debug)]
pub struct Finished {
    pub success: bool,
    pub code: Option<i32>,
    pub status: String,
    pub stdout: Vec<u8>,
    pub stderr: String,
}

/// What went wrong with a command that failed: what it wrote to its standard error, else what is
/// put before its status.
pub open spec fn failure_text(output: Finished, otherwise: Seq<char>) -> Seq<char> {
    if trim(output.stderr@).len() > 0 {
        trim(output.stderr@)
    } else {
        otherwise + output.status@
    }
}

/// What went wrong with a command that failed.
pub fn failure_detail(output: &Finished, otherwise: &str) -> (r: String)
    ensures
        r@ == failure_text(*output, otherwise@),
{
    let stderr = trimmed(output.stderr.as_str());
    if stderr.as_str().is_empty() {
        let mut r = otherwise.to_owned();
        r.append(output.status.as_str());
        r
    } else {
        stderr
    }
}

} // verus!
