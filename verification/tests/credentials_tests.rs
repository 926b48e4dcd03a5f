use mpesa_gateway::credentials::{MpesaGateway, decode_basic_auth, encode_basic_auth};

#[test]
fn new_accepts_non_blank_fields() {
    let g = MpesaGateway::new(
        String::from("abc"),
        String::from("xyz"),
        String::from("https://example.invalid/oauth/v1/generate"),
    );
    assert!(g.is_ok());
}

#[test]
fn new_accepts_fields_with_inner_spaces() {
    let g = MpesaGateway::new(
        String::from("a b"),
        String::from("x y"),
        String::from("https://example.invalid/token"),
    );
    assert!(g.is_ok());
}

#[test]
fn new_rejects_empty_key() {
    let g = MpesaGateway::new(String::new(), String::from("xyz"), String::from("https://u"));
    assert_eq!(g.err().unwrap(), "consumer key is empty");
}

#[test]
fn new_rejects_whitespace_key() {
    let g = MpesaGateway::new(
        String::from(" \t "),
        String::from("xyz"),
        String::from("https://u"),
    );
    assert_eq!(g.err().unwrap(), "consumer key is empty");
}

#[test]
fn new_rejects_empty_secret() {
    let g = MpesaGateway::new(String::from("abc"), String::new(), String::from("https://u"));
    assert_eq!(g.err().unwrap(), "consumer secret is empty");
}

#[test]
fn new_rejects_whitespace_secret() {
    let g = MpesaGateway::new(
        String::from("abc"),
        String::from("   "),
        String::from("https://u"),
    );
    assert_eq!(g.err().unwrap(), "consumer secret is empty");
}

#[test]
fn new_rejects_blank_url() {
    let g = MpesaGateway::new(String::from("abc"), String::from("xyz"), String::from(" \n"));
    assert_eq!(g.err().unwrap(), "auth_token url is empty");
}

#[test]
fn api_key_has_expected_rendering() {
    let g = MpesaGateway::new(
        String::from("abc"),
        String::from("xyz"),
        String::from("https://example.invalid/token"),
    )
    .unwrap();
    assert_eq!(g.get_api_key(), "Basic YWJjOnh5eg==");
}

#[test]
fn encode_basic_auth_has_expected_rendering() {
    assert_eq!(encode_basic_auth("abc", "xyz"), "Basic YWJjOnh5eg==");
}

#[test]
fn basic_auth_round_trips() {
    let encoded = encode_basic_auth("abc", "xyz");
    assert_eq!(decode_basic_auth(encoded.as_str()), Some(String::from("abc:xyz")));
}

#[test]
fn basic_auth_round_trips_with_long_secret() {
    let encoded = encode_basic_auth("consumer-key-1", "s3cr3t with spaces");
    assert_eq!(
        decode_basic_auth(encoded.as_str()),
        Some(String::from("consumer-key-1:s3cr3t with spaces"))
    );
}

#[test]
fn decode_rejects_missing_marker() {
    assert_eq!(decode_basic_auth("YWJjOnh5eg=="), None);
}

#[test]
fn decode_rejects_garbage_after_marker() {
    assert_eq!(decode_basic_auth("Basic !!!"), None);
}

#[test]
fn parse_auth_token_prefixes_bearer_scheme() {
    let g = MpesaGateway::new(
        String::from("abc"),
        String::from("xyz"),
        String::from("https://example.invalid/token"),
    )
    .unwrap();
    assert_eq!(g.parse_auth_token(String::from("T1")), "Bearer T1");
}

#[test]
fn parse_auth_token_drops_empty_token() {
    let g = MpesaGateway::new(
        String::from("abc"),
        String::from("xyz"),
        String::from("https://example.invalid/token"),
    )
    .unwrap();
    assert_eq!(g.parse_auth_token(String::new()), "");
}

#[test]
fn parse_auth_token_drops_whitespace_token() {
    let g = MpesaGateway::new(
        String::from("abc"),
        String::from("xyz"),
        String::from("https://example.invalid/token"),
    )
    .unwrap();
    assert_eq!(g.parse_auth_token(String::from("  \t ")), "");
}

#[test]
fn auth_token_url_is_kept() {
    let g = MpesaGateway::new(
        String::from("abc"),
        String::from("xyz"),
        String::from("https://example.invalid/token"),
    )
    .unwrap();
    assert_eq!(g.get_auth_token_url(), "https://example.invalid/token");
}
