//! Turning a finished engine subprocess into the caller's result: a failed
//! exit becomes `EngineFailed` carrying the trimmed stderr, a successful
//! exit yields the output file's text, and a successful exit without a
//! readable output file is the explicit `OutputMissing` — never an empty
//! success.

use vstd::prelude::*;
use crate::error::OcrError;
use crate::invoke::EngineOutcome;
use crate::text::bytes_to_string_lossy;
use crate::text::spec_trim;
use crate::text::trim_ascii;
use crate::text::utf8_lossy;

verus! {

/// Maps a subprocess outcome and the attempted read of its output file to
/// the request's result. `read_content` is what the caller found in the
/// expected output file — `None` when the file was absent or unreadable —
/// and is consulted only when the engine exited successfully.
pub fn extract_result(outcome: &EngineOutcome, read_content: Option<String>) -> (r: Result<
    String,
    OcrError,
>)
    ensures
        !outcome.exit_success ==> (r matches Err(e) && e matches OcrError::EngineFailed(s) && s@
            == utf8_lossy(spec_trim(outcome.stderr@))),
        outcome.exit_success ==> (match read_content {
            Some(c) => r matches Ok(t) && t@ == c@,
            None => r matches Err(e) && e is OutputMissing,
        }),
{
    if !outcome.exit_success {
        let trimmed = trim_ascii(&outcome.stderr);
        Err(OcrError::EngineFailed(bytes_to_string_lossy(&trimmed)))
    } else {
        match read_content {
            Some(c) => Ok(c),
            None => Err(OcrError::OutputMissing),
        }
    }
}

} // verus!
