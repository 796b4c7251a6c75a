//! Calls of the spot account endpoints.

use crate::bingx::types::AccountType;
use crate::http::ApiRequest;
use crate::http::Method;
use crate::params::Entry;
use crate::params::Params;
use crate::params::put_text;
use vstd::prelude::*;

verus! {

/// The assets of the spot account.
pub fn get_spot_account_assets() -> (request: ApiRequest)
    ensures
        request.calls(
            Method::Get,
            "/openApi/spot/v1/account/balance"@,
            true,
            None,
        ),
{
    ApiRequest::new(Method::Get, "/openApi/spot/v1/account/balance", None, true)
}

/// The parameters of `get_account_asset_overview`.
pub open spec fn get_account_asset_overview_entries(
    account_type: Option<AccountType>,
) -> Seq<Entry> {
    let p = Seq::<Entry>::empty();
    let p = put_text(
        p,
        "accountType"@,
        match account_type {
            Some(word) => Some(word.wire_name()),
            None => None,
        },
    );
    p
}

/// The assets of every account, or of the one that is named.
pub fn get_account_asset_overview(account_type: Option<AccountType>) -> (request: ApiRequest)
    ensures
        request.calls(
            Method::Get,
            "/openApi/account/v1/allAccountBalance"@,
            true,
            Some(
                get_account_asset_overview_entries(
                    account_type,
                ),
            ),
        ),
{
    let mut p = Params::new();
    if let Some(word) = account_type {
        p.set_text("accountType", word.as_str());
    }
    ApiRequest::new(Method::Get, "/openApi/account/v1/allAccountBalance", Some(p), true)
}
} // verus!
