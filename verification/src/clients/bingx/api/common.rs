//! Calls that every product shares.

use crate::http::ApiRequest;
use crate::http::Method;
use vstd::prelude::*;

verus! {

/// The time of the exchange.
pub fn get_server_time() -> (request: ApiRequest)
    ensures
        request.calls(
            Method::Get,
            "/openApi/swap/v2/server/time"@,
            false,
            None,
        ),
{
    ApiRequest::new(Method::Get, "/openApi/swap/v2/server/time", None, false)
}
} // verus!
