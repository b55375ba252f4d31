//! The error taxonomy of the pipeline: the only two failure kinds the
//! service distinguishes, with their HTTP status codes and body texts.

use vstd::prelude::*;

verus! {

/// The two failure kinds surfaced by the metric source: the upstream system
/// has no such repository/metric, or anything else went wrong.
#[derive(Debug, Clone, Copy, PartialEq, Eq, Structural)]
pub enum MyError {
    InternalError,
    NotFound,
}

impl MyError {
    /// The HTTP status code this error is surfaced as.
    pub open spec fn spec_status_code(self) -> u16 {
        match self {
            MyError::InternalError => 500,
            MyError::NotFound => 404,
        }
    }

    pub fn status_code(&self) -> (r: u16)
        ensures
            r == self.spec_status_code(),
    {
        match *self {
            MyError::InternalError => 500,
            MyError::NotFound => 404,
        }
    }

    /// The short human-readable body text for this error.
    pub open spec fn spec_message(self) -> Seq<char> {
        match self {
            MyError::InternalError => "internal error"@,
            MyError::NotFound => "not found"@,
        }
    }

    pub fn message(&self) -> (r: String)
        ensures
            r@ == self.spec_message(),
    {
        match *self {
            MyError::InternalError => String::from_str("internal error"),
            MyError::NotFound => String::from_str("not found"),
        }
    }
}

} // verus!
