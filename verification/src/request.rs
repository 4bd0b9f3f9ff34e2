//! One recognition request: the decoded image bytes, the language code
//! (defaulted to `eng` when the caller names none), and the requested
//! output mode.

use vstd::prelude::*;
use vstd::string::StringExecFns;
use crate::error::OcrError;
use crate::mode::OutputMode;

verus! {

/// A validated request: non-empty image bytes and a non-empty language
/// code.
pub struct OcrRequest {
    pub image_bytes: Vec<u8>,
    pub language: String,
    pub mode: OutputMode,
}

impl OcrRequest {
    /// The request's invariant: the image payload and the language code
    /// are both non-empty.
    pub open spec fn wf(&self) -> bool {
        &&& self.image_bytes@.len() > 0
        &&& self.language@.len() > 0
    }

    /// Validates a request. Empty image bytes are rejected as
    /// `DecodeError`; a language given but empty can match no trained-data
    /// file and is rejected as `DataNotFound` for that code; a missing
    /// language defaults to `eng`.
    pub fn new(image_bytes: Vec<u8>, language: Option<String>, mode: OutputMode) -> (r: Result<
        OcrRequest,
        OcrError,
    >)
        ensures
            image_bytes@.len() == 0 ==> (r matches Err(e) && e is DecodeError),
            image_bytes@.len() > 0 ==> (match language {
                None => r matches Ok(q) && q.wf() && q.image_bytes@ == image_bytes@ && q.language@
                    == "eng"@ && q.mode == mode,
                Some(l) => if l@.len() == 0 {
                    r matches Err(e) && e matches OcrError::DataNotFound(c) && c@ == l@
                } else {
                    r matches Ok(q) && q.wf() && q.image_bytes@ == image_bytes@ && q.language@
                        == l@ && q.mode == mode
                },
            }),
    {
        proof {
            reveal_strlit("eng");
        }
        if image_bytes.len() == 0 {
            return Err(OcrError::DecodeError(String::from_str("empty image payload")));
        }
        let lang = match language {
            Some(l) => l,
            None => String::from_str("eng"),
        };
        if lang.as_str().is_empty() {
            return Err(OcrError::DataNotFound(lang));
        }
        Ok(OcrRequest { image_bytes, language: lang, mode })
    }
}

} // verus!
