//! The two output modes the engine can be asked for, and the strings that
//! select them: the trailing command keyword and the extension of the file
//! the engine writes.

use vstd::prelude::*;
use vstd::string::StringExecFns;

verus! {

/// The form the recognized text is requested in: free-running text, or the
/// engine's tab-separated table of boxes and words.
#[derive(Clone, Copy, Debug, PartialEq, Eq, Structural)]
pub enum OutputMode {
    Text,
    Tsv,
}

/// The trailing keyword handed to the engine to select the output form.
pub open spec fn spec_mode_keyword(mode: OutputMode) -> Seq<char> {
    match mode {
        OutputMode::Text => "txt"@,
        OutputMode::Tsv => "tsv"@,
    }
}

/// The extension of the file the engine writes beside the output prefix.
pub open spec fn spec_mode_extension(mode: OutputMode) -> Seq<char> {
    match mode {
        OutputMode::Text => ".txt"@,
        OutputMode::Tsv => ".tsv"@,
    }
}

impl OutputMode {
    /// The trailing keyword handed to the engine to select this mode.
    pub fn keyword(self) -> (r: String)
        ensures
            r@ == spec_mode_keyword(self),
    {
        match self {
            OutputMode::Text => String::from_str("txt"),
            OutputMode::Tsv => String::from_str("tsv"),
        }
    }

    /// The extension of the output file the engine produces in this mode.
    pub fn extension(self) -> (r: String)
        ensures
            r@ == spec_mode_extension(self),
    {
        match self {
            OutputMode::Text => String::from_str(".txt"),
            OutputMode::Tsv => String::from_str(".tsv"),
        }
    }
}

} // verus!
