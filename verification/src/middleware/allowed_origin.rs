use vstd::prelude::*;

use crate::models::app::AppState;
use crate::models::http::StatusCode;
use crate::text::same_text;

verus! {

/// The access filter, which stands before every route: lets a request pass if
/// it comes from the allowed address, and refuses it with 403 and no body
/// otherwise. Nothing of the request but its peer address is looked at.
pub fn ip_based_middleware(client_ip: &str, state: &AppState) -> (verdict: Result<(), StatusCode>)
    ensures
        client_ip@ == state.allowed_ip@ ==> verdict == Ok::<(), StatusCode>(()),
        client_ip@ != state.allowed_ip@ ==> verdict == Err::<(), StatusCode>(StatusCode::Forbidden),
{
    // Check ip
    if !same_text(client_ip, state.allowed_ip.as_str()) {
        return Err(StatusCode::Forbidden);
    }
    Ok(())
}

} // verus!
