//! Webhook signature primitives: base64 decoding, HMAC-SHA256 and a
//! constant-time comparison, each taken from its outside crate.

use vstd::prelude::*;
use base64::Engine;
use hmac::Mac;
use subtle::ConstantTimeEq;

verus! {

/// The bytes that `base64`'s URL-safe alphabet without padding
/// (`general_purpose::URL_SAFE_NO_PAD`) decodes `text` to; none when the
/// text is not such an encoding.
pub uninterp spec fn base64_url_decode(text: Seq<char>) -> Option<Seq<u8>>;

/// The HMAC-SHA256 tag of `message` under `key`.
pub uninterp spec fn hmac_sha256(key: Seq<u8>, message: Seq<u8>) -> Seq<u8>;

#[verifier::external_type_specification]
#[verifier::external_body]
pub struct ExDecodeError(base64::DecodeError);

/// Decodes `text` with `base64::engine::general_purpose::URL_SAFE_NO_PAD`
/// (`Engine::decode`). The contract claims the result is the named decoding
/// of the text: `Ok` exactly when the text is a valid encoding.
#[verifier::external_body]
pub(crate) fn decode_base64_url(text: &str) -> (r: Result<Vec<u8>, base64::DecodeError>)
    ensures
        match r {
            Ok(bytes) => base64_url_decode(text@) == Some(bytes@),
            Err(_) => base64_url_decode(text@) is None,
        },
{
    base64::engine::general_purpose::URL_SAFE_NO_PAD.decode(text)
}

/// Computes HMAC-SHA256 with `hmac::Hmac<sha2::Sha256>`: `new_from_slice`
/// (which accepts a key of any length), `update`, `finalize`. The contract
/// claims the result is the named tag of the message under the key, and
/// that it is 32 bytes long (SHA-256's output size).
#[verifier::external_body]
pub(crate) fn compute_hmac_sha256(key: &[u8], message: &[u8]) -> (r: Vec<u8>)
    ensures
        r@ == hmac_sha256(key@, message@),
        r@.len() == 32,
{
    let mut mac = <hmac::Hmac<sha2::Sha256> as Mac>::new_from_slice(key).unwrap();
    mac.update(message);
    mac.finalize().into_bytes().to_vec()
}

/// Compares two byte slices with `subtle::ConstantTimeEq::ct_eq` (which
/// answers false at once for slices of different lengths). The contract
/// claims the answer is plain equality.
#[verifier::external_body]
pub(crate) fn constant_time_eq(a: &[u8], b: &[u8]) -> (r: bool)
    ensures
        r == (a@ == b@),
{
    a.ct_eq(b).into()
}

} // verus!
