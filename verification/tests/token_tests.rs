use mpesa_gateway::credentials::MpesaGateway;
use mpesa_gateway::operations::is_success_status;
use mpesa_gateway::token::{TokenError, TokenReply, acquire_token, token_error_message};

#[test]
fn acquire_passes_token_through() {
    let r = acquire_token(TokenReply::DecodedOk(Some(String::from("T1"))));
    assert_eq!(r, Ok(String::from("T1")));
}

#[test]
fn acquire_reads_absent_field_as_empty_token() {
    let r = acquire_token(TokenReply::DecodedOk(None));
    assert_eq!(r, Ok(String::new()));
}

#[test]
fn acquire_reports_status_of_non_200_reply() {
    let r = acquire_token(TokenReply::HttpError(404));
    assert_eq!(r, Err(TokenError::UnexpectedStatus(404)));
}

#[test]
fn acquire_reports_status_of_server_error() {
    let r = acquire_token(TokenReply::HttpError(500));
    assert_eq!(r, Err(TokenError::UnexpectedStatus(500)));
}

#[test]
fn acquire_reports_transport_failure() {
    let r = acquire_token(TokenReply::TransportFailed(String::from("connection refused")));
    assert_eq!(r, Err(TokenError::Transport(String::from("connection refused"))));
}

#[test]
fn acquire_reports_decode_failure() {
    let r = acquire_token(TokenReply::DecodeFailed(String::from("expected value")));
    assert_eq!(r, Err(TokenError::Decode(String::from("expected value"))));
}

#[test]
fn status_message_carries_decimal_code() {
    let m = token_error_message(&TokenError::UnexpectedStatus(404));
    assert_eq!(m, "Request failed processing, status code: 404");
}

#[test]
fn transport_message_passes_through() {
    let m = token_error_message(&TokenError::Transport(String::from("dns error")));
    assert_eq!(m, "dns error");
}

#[test]
fn only_200_selects_the_success_schema() {
    assert!(is_success_status(200));
    assert!(!is_success_status(201));
    assert!(!is_success_status(400));
}

#[test]
fn end_to_end_token_flow() {
    let g = MpesaGateway::new(
        String::from("abc"),
        String::from("xyz"),
        String::from("https://example.invalid/token"),
    )
    .unwrap();
    assert_eq!(g.get_api_key(), "Basic YWJjOnh5eg==");
    let token = acquire_token(TokenReply::DecodedOk(Some(String::from("T1")))).unwrap();
    assert_eq!(g.parse_auth_token(token), "Bearer T1");
}
