//! Errors of the record store, with the message and HTTP status of each.
use vstd::prelude::*;
use vstd::string::*;

verus! {

#[derive(Clone, Debug)]
pub enum DomainError {
    NotFound(String),
    Validation(String),
    Conflict(String),
    Internal(String),
}

impl DomainError {
    /// The text that the error is shown as.
    pub open spec fn text(&self) -> Seq<char> {
        match self {
            DomainError::NotFound(m) => "resource not found: "@ + m@,
            DomainError::Validation(m) => "validation failed: "@ + m@,
            DomainError::Conflict(m) => "conflict: "@ + m@,
            DomainError::Internal(m) => "internal error: "@ + m@,
        }
    }

    pub fn message(&self) -> (r: String)
        ensures
            r@ == self.text(),
    {
        match self {
            DomainError::NotFound(m) => String::from_str("resource not found: ").concat(m.as_str()),
            DomainError::Validation(m) => String::from_str("validation failed: ").concat(m.as_str()),
            DomainError::Conflict(m) => String::from_str("conflict: ").concat(m.as_str()),
            DomainError::Internal(m) => String::from_str("internal error: ").concat(m.as_str()),
        }
    }

    /// The HTTP status that answers a request failing with this error.
    pub fn http_status(&self) -> (r: u16)
        ensures
            r == match self {
                DomainError::NotFound(_) => 404u16,
                DomainError::Validation(_) => 400u16,
                DomainError::Conflict(_) => 409u16,
                DomainError::Internal(_) => 500u16,
            },
    {
        match self {
            DomainError::NotFound(_) => 404,
            DomainError::Validation(_) => 400,
            DomainError::Conflict(_) => 409,
            DomainError::Internal(_) => 500,
        }
    }
}

} // verus!
