use bdf::api::{acknowledge, Message1, Message2};
use bdf::error::{BdfError, ErrorResponse, STATUS_BAD_REQUEST, STATUS_UNAUTHORIZED};

#[test]
fn each_failure_has_its_status_and_message() {
    let cases = [
        (BdfError::InvalidCredentials, 401, "Invalid credentials", "wrong credentials"),
        (BdfError::InvalidToken, 401, "Invalid token", "invalid token"),
        (
            BdfError::TokenCreationError,
            401,
            "creation of web token failed",
            "web token creation failed",
        ),
        (
            BdfError::SocketError(String::from("address in use")),
            400,
            "Socket not available: address in use",
            "failed to read the key file",
        ),
    ];
    for (error, status, message, line) in cases {
        assert_eq!(error.status_code(), status);
        assert_eq!(error.error_message(), message);
        assert_eq!(error.describe(), line);
        assert_eq!(
            error.into_response(),
            ErrorResponse {
                status,
                error: String::from(message),
                body: format!("{{\"error\":\"{}\"}}", message),
            }
        );
    }
    assert_eq!(STATUS_BAD_REQUEST, 400);
    assert_eq!(STATUS_UNAUTHORIZED, 401);
}

#[test]
fn protected_endpoints_acknowledge() {
    assert_eq!(acknowledge(), "{message: ok}");
}

#[test]
fn error_body_is_json_whatever_the_cause_holds() {
    let sent = BdfError::InvalidToken.into_response();
    assert_eq!(sent.body, "{\"error\":\"Invalid token\"}");
    let sent = BdfError::InvalidCredentials.into_response();
    assert_eq!(sent.body, "{\"error\":\"Invalid credentials\"}");

    let odd = BdfError::SocketError(String::from("port \"8000\"\nin use")).into_response();
    assert_eq!(odd.status, 400);
    assert_eq!(odd.body, "{\"error\":\"Socket not available: port \\\"8000\\\"\\nin use\"}");
    let parsed: serde_json::Value = serde_json::from_str(&odd.body).unwrap();
    assert_eq!(parsed.get("error").unwrap().as_str().unwrap(), odd.error);
}

#[test]
fn messages_are_plain_records() {
    let offer = Message1 {
        trade_id: 7,
        seller_id: String::from("seller"),
        buyer_id: String::from("buyer"),
        isd: String::from("2024-05-01"),
        amount: 1_000,
        htlc_secret: String::from("s3cret"),
        htlc_deadline_epoch: 1_700_000_000,
        htlc_hash_func: String::from("sha256"),
        htlc_enc_func: String::from("aes"),
        network_id: String::from("net-1"),
        seller_cbdc_wallet_ref: String::from("wallet-a"),
    };
    assert_eq!(offer.clone(), offer);
    assert_eq!(offer.trade_id, 7);
    assert_eq!(offer.htlc_deadline_epoch, 1_700_000_000);

    let answer = Message2 {
        trade_id: 7,
        seller_cambic: String::from("cambic"),
        isd: String::from("2024-05-01"),
        amount: 1_000,
        buyer_cbdc_wallet_ref: String::from("wallet-b"),
        htlc_hash: String::from("abcdef"),
        htlc_hash_func: String::from("sha256"),
        htlc_enc_func: String::from("aes"),
        network_id: String::from("net-1"),
    };
    assert_eq!(answer.clone(), answer);
    assert_eq!(answer.amount, offer.amount);
}

#[test]
fn only_quotes_backslashes_and_controls_are_escaped() {
    let plain = BdfError::SocketError(String::from("\u{e4}\u{7f} {}:,'/\u{1f600}")).into_response();
    assert_eq!(
        plain.body,
        "{\"error\":\"Socket not available: \u{e4}\u{7f} {}:,'/\u{1f600}\"}"
    );
    let escaped = BdfError::SocketError(String::from("a\\b\"c\u{1f}\t")).into_response();
    assert_eq!(
        escaped.body,
        "{\"error\":\"Socket not available: a\\\\b\\\"c\\u001f\\t\"}"
    );
    let created = BdfError::TokenCreationError.into_response();
    assert_eq!(created.body, "{\"error\":\"creation of web token failed\"}");
}

#[test]
fn socket_failure_is_a_bad_request_with_its_cause() {
    let sent = BdfError::SocketError(String::from("busy")).into_response();
    assert_eq!(sent.status, 400);
    assert_eq!(sent.error, "Socket not available: busy");
    assert_eq!(sent.body, "{\"error\":\"Socket not available: busy\"}");
}
