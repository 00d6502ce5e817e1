use vstd::prelude::*;
use vstd::string::*;

verus! {

/// What can go wrong for one section. None of these ends a run: the section
/// is skipped or falls back.
#[derive(Debug, PartialEq, Eq, Structural, Clone, Copy)]
pub enum Error {
    /// No built-in text is stored for a query id.
    NotFound,
    /// A query gave no rows where rows are expected.
    EmptyResult,
}

pub const NOT_FOUND_MESSAGE: &'static str = "Query not found";

pub const EMPTY_RESULT_MESSAGE: &'static str = "No output from query";

impl Error {
    /// The text of the error.
    pub open spec fn message_text(self) -> Seq<char> {
        match self {
            Error::NotFound => NOT_FOUND_MESSAGE@,
            Error::EmptyResult => EMPTY_RESULT_MESSAGE@,
        }
    }

    /// The text of the error, for a log line or a report.
    pub fn message(&self) -> (text: String)
        ensures
            text@ == self.message_text(),
    {
        match self {
            Error::NotFound => String::from_str(NOT_FOUND_MESSAGE),
            Error::EmptyResult => String::from_str(EMPTY_RESULT_MESSAGE),
        }
    }
}

} // verus!
