use vstd::prelude::*;

use crate::models::http::StatusCode;

verus! {

/// The body of the health probe's answer.
pub const HEALTHY: &'static str = "ok";

/// `GET /`: always 200 with the body `ok`.
pub fn health_check() -> (answer: (StatusCode, &'static str))
    ensures
        answer.0 == StatusCode::Success,
        answer.1@ == HEALTHY@,
{
    (StatusCode::Success, HEALTHY)
}

} // verus!
