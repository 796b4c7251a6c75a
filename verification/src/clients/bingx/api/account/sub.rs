//! Calls of the sub-account endpoints.

use crate::http::ApiRequest;
use crate::http::Method;
use vstd::prelude::*;

verus! {

/// What the API key may do.
pub fn get_api_permissions() -> (request: ApiRequest)
    ensures
        request.calls(
            Method::Get,
            "/openApi/v1/account/apiPermissions"@,
            true,
            None,
        ),
{
    ApiRequest::new(Method::Get, "/openApi/v1/account/apiPermissions", None, true)
}
} // verus!
