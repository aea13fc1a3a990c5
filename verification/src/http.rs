use vstd::prelude::*;

verus! {

/// The HTTP status codes that the service answers with.
#[derive(Clone, Copy, Debug, PartialEq, Eq, Structural)]
pub enum Status {
    Success,
    BadRequest,
    Unauthorized,
    Forbidden,
    NotFound,
    Conflict,
    InternalServerError,
}

impl Status {
    /// The numeric HTTP code of a status.
    pub open spec fn numeric(self) -> u16 {
        match self {
            Status::Success => 200,
            Status::BadRequest => 400,
            Status::Unauthorized => 401,
            Status::Forbidden => 403,
            Status::NotFound => 404,
            Status::Conflict => 409,
            Status::InternalServerError => 500,
        }
    }

    /// Returns the numeric HTTP code of this status.
    pub fn code(&self) -> (c: u16)
        ensures
            c == self.numeric(),
    {
        match self {
            Status::Success => 200,
            Status::BadRequest => 400,
            Status::Unauthorized => 401,
            Status::Forbidden => 403,
            Status::NotFound => 404,
            Status::Conflict => 409,
            Status::InternalServerError => 500,
        }
    }
}

/// A database operation that did not succeed. The service never looks at why:
/// every failure of one operation is answered the same way.
#[derive(Clone, Copy, Debug, PartialEq, Eq, Structural)]
pub struct DbFailure;

} // verus!
