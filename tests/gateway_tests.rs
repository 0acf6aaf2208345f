use bankid_rs::domain::Status;
use bankid_rs::gateway::{auth_request, check_status, classify_failure, classify_unreadable, collect_request, operation_url, sign_request, Operation};
use bankid_rs::orchestrator::GatewayError;

#[test]
fn operation_urls() {
    assert_eq!(operation_url("https://example.test/rp/v5", Operation::Auth), "https://example.test/rp/v5/auth");
    assert_eq!(operation_url("https://example.test/rp/v5", Operation::Sign), "https://example.test/rp/v5/sign");
    assert_eq!(operation_url("https://example.test/rp/v5", Operation::Collect), "https://example.test/rp/v5/collect");
    assert!(Operation::Collect.is_retry_safe());
    assert!(!Operation::Auth.is_retry_safe());
    assert!(!Operation::Sign.is_retry_safe());
}

#[test]
fn status_codes_are_classified() {
    assert_eq!(check_status(200), Ok(()));
    assert_eq!(check_status(299), Ok(()));
    assert_eq!(check_status(400), Err(GatewayError::Protocol(400)));
    assert_eq!(check_status(503), Err(GatewayError::Protocol(503)));
    assert_eq!(check_status(199), Err(GatewayError::Protocol(199)));
}

#[test]
fn sign_request_encodes_texts() {
    let r = sign_request(Some("191212121212".to_string()), "127.0.0.1", "hello", Some("hidden data".to_string()));
    assert_eq!(r.user_visible_data, "aGVsbG8=");
    assert_eq!(r.user_non_visible_data.as_deref(), Some("aGlkZGVuIGRhdGE="));
    assert_eq!(r.personal_number.as_deref(), Some("191212121212"));
    assert_eq!(r.end_user_ip, "127.0.0.1");
    assert!(r.requirement.is_none());
    let r = sign_request(None, "::1", "", None);
    assert_eq!(r.user_visible_data, "");
    assert!(r.user_non_visible_data.is_none());
    assert!(r.personal_number.is_none());
}

#[test]
fn auth_and_collect_requests() {
    let r = auth_request(Some("191212121212"), "127.0.0.1");
    assert_eq!(r.personal_number.as_deref(), Some("191212121212"));
    assert_eq!(r.end_user_ip, "127.0.0.1");
    assert!(r.requirement.is_none());
    let r = auth_request(None, "127.0.0.1");
    assert!(r.personal_number.is_none());
    assert_eq!(collect_request("o-1").order_ref, "o-1");
}

#[test]
fn unreadable_answers_are_classified_by_status() {
    assert_eq!(classify_unreadable(Some(Status::Complete)), GatewayError::MalformedTerminal);
    assert_eq!(classify_unreadable(Some(Status::Failed)), GatewayError::MalformedTerminal);
    assert_eq!(classify_unreadable(Some(Status::Pending)), GatewayError::Decode);
    assert_eq!(classify_unreadable(None), GatewayError::Decode);
}

#[test]
fn failed_exchanges_are_classified() {
    assert_eq!(classify_failure(true, Some(200)), GatewayError::Decode);
    assert_eq!(classify_failure(false, Some(502)), GatewayError::Protocol(502));
    assert_eq!(classify_failure(false, None), GatewayError::Network);
}
