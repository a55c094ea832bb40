use binance::client::{Client, HttpMethod};
use binance::errors::BinanceError;
use binance::signer::{append_signature, hex_string, sign_query, sign_request};
use binance::util::{
    bool_param, bool_to_string, bool_to_string_some, build_request, build_signed_request_with_timestamp,
    days_millis, u64_string,
};

#[test]
fn u64_string_renders_decimal() {
    assert_eq!(u64_string(0), "0");
    assert_eq!(u64_string(7), "7");
    assert_eq!(u64_string(1234567890), "1234567890");
    assert_eq!(u64_string(u64::MAX), "18446744073709551615");
}

#[test]
fn hex_string_renders_lower_case_pairs() {
    assert_eq!(hex_string(&vec![]), "");
    assert_eq!(hex_string(&vec![0xbe, 0xef]), "beef");
    assert_eq!(hex_string(&vec![0x00, 0x0f, 0xa0]), "000fa0");
}

#[test]
fn bool_renderings() {
    assert_eq!(bool_to_string(true), "TRUE");
    assert_eq!(bool_to_string(false), "FALSE");
    assert_eq!(bool_to_string_some(true), Some("TRUE".to_string()));
    assert_eq!(bool_param(true), "true");
    assert_eq!(bool_param(false), "false");
}

#[test]
fn days_millis_scales() {
    assert_eq!(days_millis(0), 0);
    assert_eq!(days_millis(1), 86_400_000);
    assert_eq!(days_millis(-2), -172_800_000);
}

#[test]
fn build_request_joins_pairs_in_order() {
    let params = vec![
        ("symbol".to_string(), "BTCUSDT".to_string()),
        ("limit".to_string(), "50".to_string()),
    ];
    assert_eq!(build_request(&params), "symbol=BTCUSDT&limit=50");
    assert_eq!(build_request(&vec![]), "");
}

#[test]
fn build_request_drops_empty_named_entries() {
    let params = vec![
        ("a".to_string(), "1".to_string()),
        ("".to_string(), "v".to_string()),
    ];
    assert_eq!(build_request(&params), "a=1");
    let only_empty = vec![("".to_string(), "v".to_string())];
    assert_eq!(build_request(&only_empty), "");
}

#[test]
fn canonical_query_orders_window_timestamp_params() {
    let params = vec![
        ("a".to_string(), "1".to_string()),
        ("".to_string(), "dropped".to_string()),
        ("b".to_string(), "2".to_string()),
    ];
    let q = build_signed_request_with_timestamp(&params, 5000, 1499827319559);
    assert_eq!(q, "recvWindow=5000&timestamp=1499827319559&a=1&b=2");
}

#[test]
fn zero_window_emits_no_recv_window() {
    let params = vec![("symbol".to_string(), "LTCBTC".to_string())];
    let q = build_signed_request_with_timestamp(&params, 0, 1499827319559);
    assert_eq!(q, "timestamp=1499827319559&symbol=LTCBTC");
    assert!(!q.contains("recvWindow="));
}

#[test]
fn empty_request_still_carries_timestamp() {
    let q = build_signed_request_with_timestamp(&vec![], 0, 5);
    assert_eq!(q, "timestamp=5");
}

#[test]
fn positive_window_emits_recv_window_first() {
    let q = build_signed_request_with_timestamp(&vec![], 1, 2);
    assert_eq!(q, "recvWindow=1&timestamp=2");
    assert!(q.starts_with("recvWindow="));
}

// The worked example of the remote API's signing documentation.
const DOC_SECRET: &str = "NhqPtmdSJYdKjVHjA7PZj4Mge3R5YNiP1e3UZjInClVN65XAbvqqM6A7H5fATj0j";
const DOC_QUERY: &str = "symbol=LTCBTC&side=BUY&type=LIMIT&timeInForce=GTC&quantity=1&price=0.1&recvWindow=5000&timestamp=1499827319559";
const DOC_SIGNATURE: &str = "c8db56825ae71d6d79447849e617115f4a920fa2acdcab2b053c4b2838bd6b71";

#[test]
fn signature_matches_reference_vector() {
    assert_eq!(sign_query(DOC_SECRET, DOC_QUERY), DOC_SIGNATURE);
}

#[test]
fn signing_is_deterministic() {
    assert_eq!(sign_query(DOC_SECRET, DOC_QUERY), sign_query(DOC_SECRET, DOC_QUERY));
}

#[test]
fn changing_one_character_changes_signature() {
    let mut other = String::from(DOC_QUERY);
    other.pop();
    other.push('8');
    assert_ne!(other, DOC_QUERY);
    assert_ne!(sign_query(DOC_SECRET, &other), sign_query(DOC_SECRET, DOC_QUERY));
    let other_key = sign_query("anotherSecretKeyOfTheSameKind", DOC_QUERY);
    assert_ne!(other_key, DOC_SIGNATURE);
}

#[test]
fn signed_query_appends_signature_parameter() {
    let signed = append_signature(DOC_SECRET, DOC_QUERY.to_string());
    assert_eq!(signed, format!("{DOC_QUERY}&signature={DOC_SIGNATURE}"));
}

#[test]
fn sign_request_builds_and_signs_canonical_query() {
    let params = vec![("symbol".to_string(), "LTCBTC".to_string())];
    let signed = sign_request(&params, 5000, 1499827319559, DOC_SECRET);
    let canonical = "recvWindow=5000&timestamp=1499827319559&symbol=LTCBTC";
    let expected_sig = sign_query(DOC_SECRET, canonical);
    assert_eq!(signed, format!("{canonical}&signature={expected_sig}"));
}

#[test]
fn plan_attaches_key_and_query() {
    let client = Client::new(
        Some("api-key".to_string()),
        None,
        "https://api.example.test".to_string(),
        0,
    );
    let plan = client.plan(HttpMethod::Get, "/api/v3/depth", Some("symbol=BTCUSDT"));
    assert_eq!(plan.url, "https://api.example.test/api/v3/depth?symbol=BTCUSDT");
    assert_eq!(plan.api_key_header.as_deref(), Some("api-key"));
    let bare = client.plan(HttpMethod::Get, "/api/v3/ping", None);
    assert_eq!(bare.url, "https://api.example.test/api/v3/ping");
    let empty = client.plan(HttpMethod::Get, "/api/v3/ping", Some(""));
    assert_eq!(empty.url, "https://api.example.test/api/v3/ping");
}

#[test]
fn signed_plan_without_secret_fails_before_signing() {
    let client = Client::new(Some("api-key".to_string()), None, "https://h".to_string(), 0);
    let r = client.plan_signed(HttpMethod::Post, "/api/v3/order", &vec![], 5000, 1);
    assert_eq!(r.unwrap_err(), BinanceError::MissingCredentials);
}

#[test]
fn signed_plan_carries_signed_canonical_query() {
    let client = Client::new(
        Some("api-key".to_string()),
        Some(DOC_SECRET.to_string()),
        "https://api.example.test".to_string(),
        0,
    );
    let params = vec![("symbol".to_string(), "LTCBTC".to_string())];
    let plan = client
        .plan_signed(HttpMethod::Post, "/api/v3/order", &params, 5000, 1499827319559)
        .unwrap();
    let canonical = "recvWindow=5000&timestamp=1499827319559&symbol=LTCBTC";
    let sig = sign_query(DOC_SECRET, canonical);
    assert_eq!(
        plan.url,
        format!("https://api.example.test/api/v3/order?{canonical}&signature={sig}")
    );
    assert_eq!(plan.api_key_header.as_deref(), Some("api-key"));
}
