//! Failures that a caller can do nothing about.

use vstd::prelude::*;

use crate::flow::time_wheel::FlowNotPlanned;
use crate::time::RoundingError;

verus! {

#[derive(Debug, PartialEq, Eq)]
pub enum InternalError {
    /// A point in time could not be rounded.
    Rounding(RoundingError),
    /// A flow was to be taken out of the time wheel and was not in it.
    NotPlanned(FlowNotPlanned),
    /// An object was read that is not what it should be.
    InvalidObjectKind(InvalidObjectKind),
    /// Anything else, in words.
    Message(String),
}

#[derive(Debug, PartialEq, Eq)]
pub struct InvalidObjectKind {
    pub expected: String,
    pub actual: String,
}

impl InternalError {
    /// The error is the message `text`.
    pub open spec fn says(self, text: Seq<char>) -> bool {
        self matches InternalError::Message(m) && m@ == text
    }

    pub fn bail(text: &str) -> (r: InternalError)
        ensures
            r.says(text@),
    {
        InternalError::Message(text.to_owned())
    }
}

} // verus!
