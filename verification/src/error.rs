//! The closed set of failures that the library reports.

use vstd::prelude::*;
use vstd::string::StringExecFns;
use crate::text::{decimal, decimal_text};

verus! {

/// A failure of the library. Each kind carries the text that identifies
/// what failed.
#[derive(Debug)]
pub enum OmniReaderError {
    /// The storage layer failed, or refused a row.
    Database { message: String },
    /// A file that was referred to does not exist.
    FileNotFound { path: String },
    /// The file extension names no supported format.
    UnsupportedFormat { extension: String },
    /// A document could not be parsed.
    ParseError { message: String },
    /// The file system failed outside the store.
    IoError { message: String },
}

impl OmniReaderError {
    /// The text that the failure carries.
    pub open spec fn detail(self) -> Seq<char> {
        match self {
            OmniReaderError::Database { message } => message@,
            OmniReaderError::FileNotFound { path } => path@,
            OmniReaderError::UnsupportedFormat { extension } => extension@,
            OmniReaderError::ParseError { message } => message@,
            OmniReaderError::IoError { message } => message@,
        }
    }

    /// The words that introduce each kind of failure in its description.
    pub open spec fn heading(self) -> Seq<char> {
        match self {
            OmniReaderError::Database { .. } => "Database error: "@,
            OmniReaderError::FileNotFound { .. } => "File not found: "@,
            OmniReaderError::UnsupportedFormat { .. } => "Unsupported format: "@,
            OmniReaderError::ParseError { .. } => "Parse error: "@,
            OmniReaderError::IoError { .. } => "IO error: "@,
        }
    }

    /// The description of a failure: its heading, then its detail.
    pub open spec fn spec_description(self) -> Seq<char> {
        self.heading() + self.detail()
    }

    /// The words that say that item `index` of the kind `what` lies beyond
    /// the `total` items of a document.
    pub open spec fn out_of_range_text(what: Seq<char>, index: nat, total: nat) -> Seq<char> {
        what + " "@ + decimal(index) + " out of range (total: "@ + decimal(total) + ")"@
    }

    /// A storage failure with the given message.
    pub fn database(message: String) -> (e: OmniReaderError)
        ensures
            e == (OmniReaderError::Database { message }),
    {
        OmniReaderError::Database { message }
    }

    /// The failure to parse a document: what was attempted, a colon and a
    /// space, and the cause as the parser gave it.
    pub fn parse_failure(attempt: &str, cause: &str) -> (e: OmniReaderError)
        ensures
            e is ParseError,
            e.detail() == attempt@ + ": "@ + cause@,
    {
        let mut message = String::from_str(attempt);
        message.append(": ");
        message.append(cause);
        OmniReaderError::ParseError { message }
    }

    /// The failure to reach item `index` of a document that has `total`
    /// items of the kind `what`.
    pub fn out_of_range(what: &str, index: u64, total: u64) -> (e: OmniReaderError)
        ensures
            e is ParseError,
            e.detail() == Self::out_of_range_text(what@, index as nat, total as nat),
    {
        let mut message = String::from_str(what);
        message.append(" ");
        message.append(decimal_text(index).as_str());
        message.append(" out of range (total: ");
        message.append(decimal_text(total).as_str());
        message.append(")");
        OmniReaderError::ParseError { message }
    }

    /// Human-readable description of the failure.
    pub fn description(&self) -> (s: String)
        ensures
            s@ == self.spec_description(),
    {
        match self {
            OmniReaderError::Database { message } => {
                let mut s = String::from_str("Database error: ");
                s.append(message.as_str());
                s
            },
            OmniReaderError::FileNotFound { path } => {
                let mut s = String::from_str("File not found: ");
                s.append(path.as_str());
                s
            },
            OmniReaderError::UnsupportedFormat { extension } => {
                let mut s = String::from_str("Unsupported format: ");
                s.append(extension.as_str());
                s
            },
            OmniReaderError::ParseError { message } => {
                let mut s = String::from_str("Parse error: ");
                s.append(message.as_str());
                s
            },
            OmniReaderError::IoError { message } => {
                let mut s = String::from_str("IO error: ");
                s.append(message.as_str());
                s
            },
        }
    }
}

} // verus!
