use vstd::prelude::*;

use crate::models::email::EmailResponse;

verus! {

/// The HTTP statuses this service answers with.
#[derive(Clone, Copy, Debug, PartialEq, Eq, Structural)]
pub enum StatusCode {
    /// 200 OK
    Success,
    /// 400 Bad Request
    BadRequest,
    /// 403 Forbidden
    Forbidden,
    /// 500 Internal Server Error
    InternalServerError,
}

impl StatusCode {
    /// The status as its three-digit number.
    pub open spec fn number(self) -> u16 {
        match self {
            StatusCode::Success => 200,
            StatusCode::BadRequest => 400,
            StatusCode::Forbidden => 403,
            StatusCode::InternalServerError => 500,
        }
    }

    #[verifier::when_used_as_spec(number)]
    pub fn as_u16(self) -> (code: u16)
        ensures
            code == self.number(),
    {
        match self {
            StatusCode::Success => 200,
            StatusCode::BadRequest => 400,
            StatusCode::Forbidden => 403,
            StatusCode::InternalServerError => 500,
        }
    }
}

/// A finished answer to `POST /send-email`: what goes to the client, and what
/// goes to the error log instead.
#[derive(Debug, Clone, PartialEq, Eq)]
pub struct Reply {
    pub status: StatusCode,
    pub body: EmailResponse,
    /// One line for the error log; never part of the response.
    pub log: Option<String>,
}

impl Reply {
    /// The reply has this status and a body with these two fields.
    pub open spec fn answers(self, status: StatusCode, success: bool, message: Seq<char>) -> bool {
        &&& self.status == status
        &&& self.body.success == success
        &&& self.body.message@ == message
    }
}

} // verus!
