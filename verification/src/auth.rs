//! Signing of private REST requests to the exchange.
use vstd::prelude::*;
use crate::crypto::{
    base64_decode, base64_decoding, base64_encode, base64_encoding, form_urlencoding,
    hmac_sha512, hmac_sha512_of, sha256_of_texts, sha256_texts, urlencode_pairs,
};
use crate::text::{concat, decimal, u64_to_decimal};
use vstd::string::StringExecFns;

verus! {

/// Why a private request could not be prepared.
#[derive(Debug, Clone, Copy, PartialEq, Eq, Structural)]
pub enum ApiError {
    /// No API key is configured.
    MissingKey,
    /// No API secret is configured.
    MissingSecret,
    /// The API secret is not valid base64.
    InvalidSecret,
    /// The request parameters could not be form-encoded.
    Encoding,
}

/// The address of an endpoint of the exchange's REST API.
pub open spec fn endpoint_url(endpoint: Seq<char>) -> Seq<char> {
    "https://api.kraken.com"@ + endpoint
}

pub fn api_url(endpoint: &str) -> (r: String)
    ensures
        r@ == endpoint_url(endpoint@),
{
    concat("https://api.kraken.com", endpoint)
}

/// The nonce sent with a private request: the time in milliseconds, in decimal.
pub fn nonce_from_millis(millis: u64) -> (r: String)
    ensures
        r@ == decimal(millis as nat),
{
    u64_to_decimal(millis)
}

/// The signature of a private request: HMAC-SHA-512, keyed with the
/// base64-decoded secret, of the endpoint path followed by the SHA-256 of
/// nonce and body; base64-encoded.
pub open spec fn signature_of(key: Seq<u8>, url_path: Seq<char>, nonce: Seq<char>, post_data: Seq<char>) -> Seq<char> {
    base64_encoding(hmac_sha512_of(key, url_path, sha256_of_texts(nonce, post_data)))
}

/// Whether `r` is the outcome of signing with the given inputs.
pub open spec fn signing_outcome(
    r: Result<Seq<char>, ApiError>,
    url_path: Seq<char>,
    nonce: Seq<char>,
    post_data: Seq<char>,
    secret: Seq<char>,
) -> bool {
    if secret.len() == 0 {
        r == Err::<Seq<char>, ApiError>(ApiError::MissingSecret)
    } else {
        match base64_decoding(secret) {
            None => r == Err::<Seq<char>, ApiError>(ApiError::InvalidSecret),
            Some(key) => r == Ok::<Seq<char>, ApiError>(signature_of(key, url_path, nonce, post_data)),
        }
    }
}

/// The view of a signing result.
pub open spec fn result_text(r: Result<String, ApiError>) -> Result<Seq<char>, ApiError> {
    match r {
        Ok(s) => Ok(s@),
        Err(e) => Err(e),
    }
}

/// Signs a private request: fails without a secret or with one that is not
/// base64, and otherwise returns the exchange's `API-Sign` value.
pub fn kraken_signature(url_path: &str, nonce: &str, post_data: &str, api_secret: &str) -> (r: Result<String, ApiError>)
    ensures
        signing_outcome(result_text(r), url_path@, nonce@, post_data@, api_secret@),
{
    if api_secret.is_empty() {
        return Err(ApiError::MissingSecret);
    }
    let key = match base64_decode(api_secret) {
        Some(k) => k,
        None => return Err(ApiError::InvalidSecret),
    };
    let digest = sha256_texts(nonce, post_data);
    let mac = hmac_sha512(key.as_slice(), url_path, digest.as_slice());
    Ok(base64_encode(mac.as_slice()))
}

/// A signed private request, ready to be posted.
pub struct SignedRequest {
    /// Full address of the endpoint.
    pub url: String,
    /// The `API-Key` header.
    pub api_key: String,
    /// The `API-Sign` header.
    pub signature: String,
    /// The form-encoded body, ending with the nonce.
    pub body: String,
}

/// The parameters of a private request with the nonce appended.
pub open spec fn with_nonce(payload: Seq<(Seq<char>, Seq<char>)>, nonce: Seq<char>) -> Seq<(Seq<char>, Seq<char>)> {
    payload.push(("nonce"@, nonce))
}

/// Prepares a private request: requires an API key, appends the nonce to
/// the parameters, form-encodes them as the body and signs the body.
pub fn sign_private_request(
    endpoint: &str,
    payload: Vec<(String, String)>,
    nonce: &str,
    api_key: &str,
    api_secret: &str,
) -> (r: Result<SignedRequest, ApiError>)
    ensures
        api_key@.len() == 0 ==> r == Err::<SignedRequest, ApiError>(ApiError::MissingKey),
        api_key@.len() > 0 ==> match form_urlencoding(with_nonce(payload.deep_view(), nonce@)) {
            None => r == Err::<SignedRequest, ApiError>(ApiError::Encoding),
            Some(body) => match r {
                Ok(req) => {
                    &&& req.url@ == endpoint_url(endpoint@)
                    &&& req.api_key@ == api_key@
                    &&& req.body@ == body
                    &&& signing_outcome(Ok(req.signature@), endpoint@, nonce@, body, api_secret@)
                },
                Err(e) => signing_outcome(Err(e), endpoint@, nonce@, body, api_secret@),
            },
        },
{
    if api_key.is_empty() {
        return Err(ApiError::MissingKey);
    }
    let mut payload = payload;
    let ghost before = payload.deep_view();
    payload.push((String::from_str("nonce"), String::from_str(nonce)));
    assert(payload.deep_view() =~= with_nonce(before, nonce@));
    let body = match urlencode_pairs(&payload) {
        Some(b) => b,
        None => return Err(ApiError::Encoding),
    };
    let signature = match kraken_signature(endpoint, nonce, body.as_str(), api_secret) {
        Ok(s) => s,
        Err(e) => return Err(e),
    };
    Ok(SignedRequest {
        url: api_url(endpoint),
        api_key: String::from_str(api_key),
        signature,
        body,
    })
}

} // verus!
