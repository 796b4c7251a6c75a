//! Request signatures: HMAC-SHA256 over the text that an exchange
//! prescribes, keyed by the API secret, in lower-case hex.

use crate::error::SdkError;
use crate::text::hex_encode;
use crate::text::hex_of;
use hmac::Hmac;
use hmac::Mac;
use sha2::Sha256;
use vstd::prelude::*;
use vstd::utf8::encode_utf8;

verus! {

/// The HMAC-SHA256 tag of a message under a key.
pub uninterp spec fn hmac_sha256_of(key: Seq<u8>, message: Seq<u8>) -> Seq<u8>;

/// `Hmac::<Sha256>` of the `hmac` crate: `new_from_slice` keyed by `key`,
/// `update` with `message`, `finalize`. The crate takes a key of any length,
/// so a tag always comes back: the HMAC-SHA256 tag of the message under the
/// key, which depends on the two alone.
#[verifier::external_body]
fn hmac_sha256(key: &[u8], message: &[u8]) -> (tag: Option<Vec<u8>>)
    ensures
        match tag {
            Some(t) => t@ == hmac_sha256_of(key@, message@),
            None => false,
        },
{
    match Hmac::<Sha256>::new_from_slice(key) {
        Ok(mut mac) => {
            mac.update(message);
            Some(mac.finalize().into_bytes().to_vec())
        },
        Err(_) => None,
    }
}

/// The signature of `text` under `secret`: the tag in lower-case hex.
pub open spec fn signature_of(secret: Seq<char>, text: Seq<char>) -> Seq<char> {
    hex_of(hmac_sha256_of(encode_utf8(secret), encode_utf8(text)))
}

/// The signature that a tag gives, or the error for a refused secret.
pub fn signature_from(tag: Option<Vec<u8>>) -> (signed: Result<String, SdkError>)
    ensures
        match tag {
            Some(t) => signed matches Ok(s) && s@ == hex_of(t@),
            None => signed matches Err(SdkError::Auth(m)) && m@ == "Invalid API secret"@,
        },
{
    match tag {
        Some(t) => Ok(hex_encode(t.as_slice())),
        None => Err(SdkError::Auth("Invalid API secret".to_owned())),
    }
}

/// Signs `text` under `secret`. Every secret signs: the signature is
/// `signature_of(secret, text)`.
pub fn sign(secret: &str, text: &str) -> (signed: Result<String, SdkError>)
    ensures
        signed matches Ok(s) && s@ == signature_of(secret@, text@),
{
    signature_from(hmac_sha256(secret.as_bytes(), text.as_bytes()))
}

} // verus!
