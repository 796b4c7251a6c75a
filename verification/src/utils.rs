//! Small conversions between the values of the library and the forms that
//! the exchanges use for them.

use vstd::prelude::*;

verus! {

/// The word that an exchange reads for a truth value.
pub open spec fn bool_word(b: bool) -> Seq<char> {
    if b {
        "true"@
    } else {
        "false"@
    }
}

/// The word that an exchange reads for a truth value, where there is one.
pub fn as_str_bool(b: Option<bool>) -> (word: Option<&'static str>)
    ensures
        match b {
            Some(value) => word matches Some(w) && w@ == bool_word(value),
            None => word is None,
        },
{
    match b {
        Some(true) => Some("true"),
        Some(false) => Some("false"),
        None => None,
    }
}

/// What the exchange's retry mark means: 1 is yes, 0 is no, anything else
/// says nothing.
pub open spec fn retryable_of(mark: Option<u8>) -> Option<bool> {
    match mark {
        Some(1) => Some(true),
        Some(0) => Some(false),
        _ => None,
    }
}

/// What the exchange's retry mark means.
pub fn retryable_from_int(mark: Option<u8>) -> (retryable: Option<bool>)
    ensures
        retryable == retryable_of(mark),
{
    match mark {
        Some(1) => Some(true),
        Some(0) => Some(false),
        _ => None,
    }
}

} // verus!
