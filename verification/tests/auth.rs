use matrix_quant_core::auth::{api_url, kraken_signature, nonce_from_millis, sign_private_request, ApiError};

const DOC_SECRET: &str =
    "kQH5HW/8p1uGOVjbgWA7FunAmGO8lsSUXNsu3eow76sz84Q18fWxnyRzBHCd3pd5nE9qa99HAZtuZuj6F1huXg==";

#[test]
fn signature_matches_reference_vector() {
    let sig = kraken_signature(
        "/0/private/AddOrder",
        "1616492376594",
        "nonce=1616492376594&ordertype=limit&pair=XBTUSD&price=37500&type=buy&volume=1.25",
        DOC_SECRET,
    )
    .unwrap();
    assert_eq!(
        sig,
        "4/dpxb3iT4tp/ZCVEwSnEsLxx0bqyhLpdfOpc6fn7OR8+UClSV5n9E6aSS8MPtnRfp32bAb0nmbRn6H8ndwLUQ=="
    );
}

#[test]
fn signature_errors() {
    assert_eq!(kraken_signature("/0/private/Balance", "1", "nonce=1", ""), Err(ApiError::MissingSecret));
    assert_eq!(
        kraken_signature("/0/private/Balance", "1", "nonce=1", "not base64!"),
        Err(ApiError::InvalidSecret)
    );
}

#[test]
fn private_request_is_signed() {
    let payload = vec![("pair".to_string(), "XBTEUR".to_string()), ("type".to_string(), "buy".to_string())];
    let req = sign_private_request("/0/private/AddOrder", payload, "1616492376594", "key", DOC_SECRET).unwrap();
    assert_eq!(req.url, "https://api.kraken.com/0/private/AddOrder");
    assert_eq!(req.api_key, "key");
    assert_eq!(req.body, "pair=XBTEUR&type=buy&nonce=1616492376594");
    assert_eq!(
        req.signature,
        "7blYg4zqhtacYIlO5UcFPyX4jTgh0Qz8H4l6pG4JO+2ghg3enQDqVnKf1AMW+6mIk0HVEtkWrIxs12l0SDC7Vg=="
    );
}

#[test]
fn private_request_encodes_values() {
    let payload = vec![("volume".to_string(), "1.5 x".to_string())];
    let req = sign_private_request("/0/private/AddOrder", payload, "42", "key", DOC_SECRET).unwrap();
    assert_eq!(req.body, "volume=1.5+x&nonce=42");
}

#[test]
fn private_request_errors() {
    let payload = vec![];
    assert!(matches!(
        sign_private_request("/0/private/Balance", payload.clone(), "1", "", DOC_SECRET),
        Err(ApiError::MissingKey)
    ));
    assert!(matches!(
        sign_private_request("/0/private/Balance", payload, "1", "key", ""),
        Err(ApiError::MissingSecret)
    ));
}

#[test]
fn urls_and_nonces() {
    assert_eq!(api_url("/0/public/Ticker"), "https://api.kraken.com/0/public/Ticker");
    assert_eq!(nonce_from_millis(1616492376594), "1616492376594");
}
