//! Calls of the account endpoints.

use crate::bybit::types::AccountType;
use crate::bybit::types::MarginMode;
use crate::http::ApiRequest;
use crate::http::Method;
use crate::params::Entry;
use crate::params::Params;
use crate::params::put;
use crate::params::put_text;
use crate::params::text_entry;
use crate::params::text_of;
use vstd::prelude::*;

verus! {

/// The parameters of `get_wallet_balance`.
pub open spec fn get_wallet_balance_entries(
    account_type: Option<AccountType>,
    coin: Option<Seq<char>>,
) -> Seq<Entry> {
    let p = Seq::<Entry>::empty();
    let p = put(
        p,
        text_entry(
            "accountType"@,
            (match account_type {
                Some(word) => word,
                None => AccountType::Unified,
            }).wire_name(),
        ),
    );
    let p = put_text(p, "coin"@, coin);
    p
}

/// The wallet balance of an account, of the unified account where none is
/// named, for one coin or for all.
pub fn get_wallet_balance(
    account_type: Option<AccountType>,
    coin: Option<&str>,
) -> (request: ApiRequest)
    ensures
        request.calls(
            Method::Get,
            "/v5/account/wallet-balance"@,
            true,
            Some(
                get_wallet_balance_entries(
                    account_type,
                    text_of(coin),
                ),
            ),
        ),
{
    let mut p = Params::new();
    let word = match account_type {
        Some(word) => word,
        None => AccountType::Unified,
    };
    p.set_text("accountType", word.as_str());
    p.set_text_opt("coin", coin);
    ApiRequest::new(Method::Get, "/v5/account/wallet-balance", Some(p), true)
}

/// The settings of the account.
pub fn get_account_info() -> (request: ApiRequest)
    ensures
        request.calls(
            Method::Get,
            "/v5/account/info"@,
            true,
            None,
        ),
{
    ApiRequest::new(Method::Get, "/v5/account/info", None, true)
}

/// The parameters of `set_margin_mode`.
pub open spec fn set_margin_mode_entries(mode: MarginMode) -> Seq<Entry> {
    let p = Seq::<Entry>::empty();
    let p = put(p, text_entry("setMarginMode"@, mode.wire_name()));
    p
}

/// Sets how the margin of the account is held.
pub fn set_margin_mode(mode: MarginMode) -> (request: ApiRequest)
    ensures
        request.calls(
            Method::Post,
            "/v5/account/set-margin-mode"@,
            true,
            Some(
                set_margin_mode_entries(
                    mode,
                ),
            ),
        ),
{
    let mut p = Params::new();
    p.set_text("setMarginMode", mode.as_str());
    ApiRequest::new(Method::Post, "/v5/account/set-margin-mode", Some(p), true)
}
} // verus!
