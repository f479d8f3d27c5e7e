//! The ways in which a request can fail.

use vstd::prelude::*;

verus! {

/// Why a request was not carried out.
#[derive(Debug, Clone, Copy, PartialEq, Eq, Structural)]
pub enum TodoError {
    /// A required form field is empty.
    Validation,
    /// The body is no form field, or the identifier in it is malformed.
    BadRequest,
    /// No route or static asset answers to the method and path.
    NotFound,
    /// The page could not be rendered.
    Internal,
}

impl TodoError {
    /// The status code that reports the error.
    pub open spec fn status_code(self) -> u16 {
        match self {
            TodoError::Validation => 400,
            TodoError::BadRequest => 400,
            TodoError::NotFound => 404,
            TodoError::Internal => 500,
        }
    }

    /// The fixed text that reports the error. It tells nothing of the
    /// service's inner state.
    pub open spec fn message_text(self) -> Seq<char> {
        match self {
            TodoError::Validation => "Missing form field"@,
            TodoError::BadRequest => "Bad Request"@,
            TodoError::NotFound => "Oops! Not Found"@,
            TodoError::Internal => "Internal Server Error"@,
        }
    }

    /// The status code that reports the error.
    pub fn status(&self) -> (code: u16)
        ensures
            code == self.status_code(),
    {
        match self {
            TodoError::Validation => 400,
            TodoError::BadRequest => 400,
            TodoError::NotFound => 404,
            TodoError::Internal => 500,
        }
    }

    /// The fixed text that reports the error.
    pub fn message(&self) -> (text: &'static str)
        ensures
            text@ == self.message_text(),
    {
        match self {
            TodoError::Validation => "Missing form field",
            TodoError::BadRequest => "Bad Request",
            TodoError::NotFound => "Oops! Not Found",
            TodoError::Internal => "Internal Server Error",
        }
    }
}

} // verus!
