use vstd::prelude::*;

verus! {

/// The HTTP statuses that the service answers with (`Success` is 200 OK).
#[derive(Clone, Copy, PartialEq, Eq, Debug)]
pub enum Status {
    Success,
    Accepted,
    PartialContent,
    BadRequest,
    Unauthorized,
    MethodNotAllowed,
    Conflict,
    InternalServerError,
}

/// The numeric HTTP code of a status.
pub open spec fn status_code(s: Status) -> u16 {
    match s {
        Status::Success => 200,
        Status::Accepted => 202,
        Status::PartialContent => 206,
        Status::BadRequest => 400,
        Status::Unauthorized => 401,
        Status::MethodNotAllowed => 405,
        Status::Conflict => 409,
        Status::InternalServerError => 500,
    }
}

impl Status {
    /// The numeric HTTP code of this status.
    pub fn code(&self) -> (c: u16)
        ensures
            c == status_code(*self),
    {
        match self {
            Status::Success => 200,
            Status::Accepted => 202,
            Status::PartialContent => 206,
            Status::BadRequest => 400,
            Status::Unauthorized => 401,
            Status::MethodNotAllowed => 405,
            Status::Conflict => 409,
            Status::InternalServerError => 500,
        }
    }
}

} // verus!
