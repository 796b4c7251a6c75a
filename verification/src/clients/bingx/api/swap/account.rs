//! Calls of the swap account endpoints.

use crate::http::ApiRequest;
use crate::http::Method;
use crate::params::Entry;
use crate::params::Params;
use crate::params::put_text;
use crate::params::text_of;
use vstd::prelude::*;

verus! {

/// The parameters of `get_swap_positions`.
pub open spec fn get_swap_positions_entries(symbol: Option<Seq<char>>) -> Seq<Entry> {
    let p = Seq::<Entry>::empty();
    let p = put_text(p, "symbol"@, symbol);
    p
}

/// The swap positions, of one symbol or of all.
pub fn get_swap_positions(symbol: Option<&str>) -> (request: ApiRequest)
    ensures
        request.calls(
            Method::Get,
            "/openApi/swap/v2/user/positions"@,
            true,
            Some(
                get_swap_positions_entries(
                    text_of(symbol),
                ),
            ),
        ),
{
    let mut p = Params::new();
    p.set_text_opt("symbol", symbol);
    ApiRequest::new(Method::Get, "/openApi/swap/v2/user/positions", Some(p), true)
}

/// The balance of the swap account.
pub fn get_swap_account_balance() -> (request: ApiRequest)
    ensures
        request.calls(
            Method::Get,
            "/openApi/swap/v3/user/balance"@,
            true,
            None,
        ),
{
    ApiRequest::new(Method::Get, "/openApi/swap/v3/user/balance", None, true)
}
} // verus!
