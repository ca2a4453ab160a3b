use vstd::prelude::*;

verus! {

/// The error taxonomy of the service layer.  Each variant carries the
/// human-readable message that handlers surface in the response envelope.
#[derive(Debug)]
pub enum Error {
    /// The target row, or a referenced parent row, does not exist.
    NotFound(String),
    /// A unique key (such as a user's email) is already taken.
    Conflict(String),
    /// A required input was empty or otherwise unusable.
    Validation(String),
    /// The underlying data store failed.
    Storage(String),
    /// A freshly written row could not be mapped back to its typed form.
    Conversion(String),
}

impl Error {
    /// The message carried by the error, as a sequence of characters.
    pub open spec fn spec_message(&self) -> Seq<char> {
        match self {
            Error::NotFound(m) => m@,
            Error::Conflict(m) => m@,
            Error::Validation(m) => m@,
            Error::Storage(m) => m@,
            Error::Conversion(m) => m@,
        }
    }

    /// The HTTP status that handlers give this error kind.
    pub open spec fn spec_status_code(&self) -> u16 {
        match self {
            Error::NotFound(_) => 404,
            Error::Conflict(_) => 409,
            Error::Validation(_) => 400,
            Error::Storage(_) => 500,
            Error::Conversion(_) => 500,
        }
    }

    /// A copy of the message carried by the error.
    pub fn message(&self) -> (r: String)
        ensures
            r@ == self.spec_message(),
    {
        match self {
            Error::NotFound(m) => m.clone(),
            Error::Conflict(m) => m.clone(),
            Error::Validation(m) => m.clone(),
            Error::Storage(m) => m.clone(),
            Error::Conversion(m) => m.clone(),
        }
    }

    /// The HTTP status code that this error translates to.
    pub fn status_code(&self) -> (r: u16)
        ensures
            r == self.spec_status_code(),
    {
        match self {
            Error::NotFound(_) => 404,
            Error::Conflict(_) => 409,
            Error::Validation(_) => 400,
            Error::Storage(_) => 500,
            Error::Conversion(_) => 500,
        }
    }
}

/// How many rows a delete operation removed.
#[derive(Debug)]
pub struct DeleteResult {
    pub rows_affected: u64,
}

} // verus!
