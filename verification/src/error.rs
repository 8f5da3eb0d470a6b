//! The two ways in which loading a document fails.

use vstd::prelude::*;
use vstd::string::StringExecFns;

verus! {

/// Why a document could not be loaded. Each kind carries the underlying
/// cause as text.
#[derive(Debug, PartialEq, Eq)]
pub enum LoadError {
    /// The file could not be opened or read.
    Read(String),
    /// The text is not a JSON document.
    Parse(String),
}

/// The message shown when a file could not be read.
pub open spec fn read_failure(cause: Seq<char>) -> Seq<char> {
    "Failed to read file: "@ + cause
}

/// The message shown when a text could not be parsed.
pub open spec fn parse_failure(cause: Seq<char>) -> Seq<char> {
    "Failed to parse JSON: "@ + cause
}

impl LoadError {
    /// The message of this error: what failed, then the cause.
    pub open spec fn message_text(self) -> Seq<char> {
        match self {
            LoadError::Read(cause) => read_failure(cause@),
            LoadError::Parse(cause) => parse_failure(cause@),
        }
    }

    /// The message to show for this error.
    pub fn message(&self) -> (text: String)
        ensures
            text@ == self.message_text(),
    {
        match self {
            LoadError::Read(cause) => {
                let mut text = String::from_str("Failed to read file: ");
                text.append(cause.as_str());
                text
            },
            LoadError::Parse(cause) => {
                let mut text = String::from_str("Failed to parse JSON: ");
                text.append(cause.as_str());
                text
            },
        }
    }
}

} // verus!
