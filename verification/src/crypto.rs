//! Calls into the encoding and hashing crates used to sign requests.
use vstd::prelude::*;
use base64::Engine;
use hmac::Mac;
use sha2::Digest;

verus! {

/// Standard base64 decoding of a text (`None` when it is not valid base64).
pub uninterp spec fn base64_decoding(text: Seq<char>) -> Option<Seq<u8>>;

/// Standard, padded base64 encoding of bytes.
pub uninterp spec fn base64_encoding(bytes: Seq<u8>) -> Seq<char>;

/// SHA-256 digest of the UTF-8 bytes of `a` followed by those of `b`.
pub uninterp spec fn sha256_of_texts(a: Seq<char>, b: Seq<char>) -> Seq<u8>;

/// HMAC-SHA-512 under `key` of the UTF-8 bytes of `text` followed by `bytes`.
pub uninterp spec fn hmac_sha512_of(key: Seq<u8>, text: Seq<char>, bytes: Seq<u8>) -> Seq<u8>;

/// The `application/x-www-form-urlencoded` form of a list of key-value
/// pairs, or `None` if the encoder reports an error.
pub uninterp spec fn form_urlencoding(pairs: Seq<(Seq<char>, Seq<char>)>) -> Option<Seq<char>>;

/// Calls `base64::Engine::decode` with the standard alphabet and padding.
/// Claims only that the outcome is a function of the text; decoding errors
/// become `None`.
#[verifier::external_body]
pub(crate) fn base64_decode(text: &str) -> (r: Option<Vec<u8>>)
    ensures
        match r {
            Some(v) => base64_decoding(text@) == Some(v@),
            None => base64_decoding(text@) is None,
        },
{
    base64::engine::general_purpose::STANDARD.decode(text).ok()
}

/// Calls `base64::Engine::encode` with the standard alphabet and padding.
/// Claims that the result is a function of the bytes. Inputs long enough to
/// overflow the output length (which the crate rejects with a panic) are excluded.
#[verifier::external_body]
pub(crate) fn base64_encode(bytes: &[u8]) -> (r: String)
    requires
        bytes@.len() <= usize::MAX / 4,
    ensures
        r@ == base64_encoding(bytes@),
{
    base64::engine::general_purpose::STANDARD.encode(bytes)
}

/// Calls `sha2::Sha256` (`new`, `update` with `a`, `update` with `b`,
/// `finalize`). Claims that the digest is a function of the two texts and
/// is 32 bytes long, the output size of SHA-256.
#[verifier::external_body]
pub(crate) fn sha256_texts(a: &str, b: &str) -> (r: Vec<u8>)
    ensures
        r@ == sha256_of_texts(a@, b@),
        r@.len() == 32,
{
    let mut h = sha2::Sha256::new();
    h.update(a.as_bytes());
    h.update(b.as_bytes());
    h.finalize().to_vec()
}

/// Calls `hmac::Hmac::<sha2::Sha512>` (`new_from_slice`, `update` with the
/// text, `update` with the bytes, `finalize`). `new_from_slice` accepts keys
/// of any length for this type, so no error is possible. Claims that the tag
/// is a function of key and message and is 64 bytes long.
#[verifier::external_body]
pub(crate) fn hmac_sha512(key: &[u8], text: &str, bytes: &[u8]) -> (r: Vec<u8>)
    ensures
        r@ == hmac_sha512_of(key@, text@, bytes@),
        r@.len() == 64,
{
    let mut mac = <hmac::Hmac<sha2::Sha512> as Mac>::new_from_slice(key).unwrap();
    mac.update(text.as_bytes());
    mac.update(bytes);
    mac.finalize().into_bytes().to_vec()
}

/// Calls `serde_urlencoded::to_string` on a list of string pairs. Claims
/// that the outcome is a function of the pairs; an encoder error becomes `None`.
#[verifier::external_body]
pub(crate) fn urlencode_pairs(pairs: &Vec<(String, String)>) -> (r: Option<String>)
    ensures
        match r {
            Some(s) => form_urlencoding(pairs.deep_view()) == Some(s@),
            None => form_urlencoding(pairs.deep_view()) is None,
        },
{
    serde_urlencoded::to_string(pairs).ok()
}

} // verus!
