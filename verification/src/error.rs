//! The error taxonomy of the recognition core. Every failure of a request is
//! one of these kinds; none is retried, and no partial output is ever
//! returned as a success.

use vstd::prelude::*;
use vstd::string::StringExecFns;

verus! {

/// One terminal failure of a single recognition request.
#[derive(Debug, PartialEq, Eq)]
pub enum OcrError {
    /// The input payload is not valid encoded image data; carries the
    /// decoder's own description.
    DecodeError(String),
    /// Creating or staging the scratch workspace failed; carries the
    /// operating system's description.
    IoError(String),
    /// No usable engine binary exists at any candidate path.
    EngineNotFound,
    /// No candidate directory contains `<language>.traineddata`; carries the
    /// language code that failed.
    DataNotFound(String),
    /// The engine binary exists but the subprocess could not be started.
    LaunchError(String),
    /// The engine ran and exited with failure; carries its trimmed stderr.
    EngineFailed(String),
    /// The engine reported success but the expected output file is absent or
    /// unreadable.
    OutputMissing,
    /// The engine exceeded the caller's time bound and was killed.
    EngineTimeout,
}

/// The one-line description of each error kind.
pub open spec fn spec_message(e: OcrError) -> Seq<char> {
    match e {
        OcrError::DecodeError(d) => "Failed to decode image data: "@ + d@,
        OcrError::IoError(d) => "Failed to stage OCR workspace: "@ + d@,
        OcrError::EngineNotFound => "Bundled tesseract not found and no system tesseract available"@,
        OcrError::DataNotFound(l) => "No tessdata directory contains "@ + l@ + ".traineddata"@,
        OcrError::LaunchError(d) => "Failed to launch tesseract: "@ + d@,
        OcrError::EngineFailed(d) => "Tesseract failed: "@ + d@,
        OcrError::OutputMissing => "Tesseract reported success but produced no readable output"@,
        OcrError::EngineTimeout => "Tesseract did not finish in time"@,
    }
}

impl OcrError {
    /// A one-line human-readable description of this error.
    pub fn message(&self) -> (r: String)
        ensures
            r@ == spec_message(*self),
    {
        match self {
            OcrError::DecodeError(d) => {
                let mut s = String::from_str("Failed to decode image data: ");
                s.append(d.as_str());
                s
            },
            OcrError::IoError(d) => {
                let mut s = String::from_str("Failed to stage OCR workspace: ");
                s.append(d.as_str());
                s
            },
            OcrError::EngineNotFound => String::from_str(
                "Bundled tesseract not found and no system tesseract available",
            ),
            OcrError::DataNotFound(l) => {
                let mut s = String::from_str("No tessdata directory contains ");
                s.append(l.as_str());
                s.append(".traineddata");
                s
            },
            OcrError::LaunchError(d) => {
                let mut s = String::from_str("Failed to launch tesseract: ");
                s.append(d.as_str());
                s
            },
            OcrError::EngineFailed(d) => {
                let mut s = String::from_str("Tesseract failed: ");
                s.append(d.as_str());
                s
            },
            OcrError::OutputMissing => String::from_str(
                "Tesseract reported success but produced no readable output",
            ),
            OcrError::EngineTimeout => String::from_str("Tesseract did not finish in time"),
        }
    }
}

} // verus!
