use bankid_rs::domain::{
    AuthRequestData, CardReader, CertificatePolicy, CollectResponse, HintCode, Status,
};

#[test]
fn hint_codes_decode_from_wire_names() {
    assert_eq!(HintCode::from_wire("outstandingTransaction"), HintCode::PendingOutstandingTransaction);
    assert_eq!(HintCode::from_wire("noClient"), HintCode::PendingNoClient);
    assert_eq!(HintCode::from_wire("started"), HintCode::PendingStarted);
    assert_eq!(HintCode::from_wire("userSign"), HintCode::PendingUserSign);
    assert_eq!(HintCode::from_wire("expiredTransaction"), HintCode::FailedExpiredTransaction);
    assert_eq!(HintCode::from_wire("certificateErr"), HintCode::FailedCertificateErr);
    assert_eq!(HintCode::from_wire("userCancel"), HintCode::FailedUserCancel);
    assert_eq!(HintCode::from_wire("cancelled"), HintCode::FailedCancelled);
    assert_eq!(HintCode::from_wire("startFailed"), HintCode::FailedStartFailed);
}

#[test]
fn unknown_hint_codes_decode_to_unknown() {
    assert_eq!(HintCode::from_wire("alreadyInProgress"), HintCode::Unknown);
    assert_eq!(HintCode::from_wire(""), HintCode::Unknown);
    assert_eq!(HintCode::from_wire("UserCancel"), HintCode::Unknown);
    assert_eq!(HintCode::from_wire("noclient"), HintCode::Unknown);
}

#[test]
fn hint_code_wire_names_round_trip() {
    let all = [
        HintCode::PendingOutstandingTransaction,
        HintCode::PendingNoClient,
        HintCode::PendingStarted,
        HintCode::PendingUserSign,
        HintCode::FailedExpiredTransaction,
        HintCode::FailedCertificateErr,
        HintCode::FailedUserCancel,
        HintCode::FailedCancelled,
        HintCode::FailedStartFailed,
    ];
    for h in all.iter() {
        let name = h.wire_name().unwrap();
        assert_eq!(HintCode::from_wire(name), *h);
    }
    assert_eq!(HintCode::Unknown.wire_name(), None);
}

#[test]
fn status_wire_names() {
    assert_eq!(Status::from_wire("pending"), Some(Status::Pending));
    assert_eq!(Status::from_wire("failed"), Some(Status::Failed));
    assert_eq!(Status::from_wire("complete"), Some(Status::Complete));
    assert_eq!(Status::from_wire("Complete"), None);
    assert_eq!(Status::Complete.wire_name(), "complete");
    assert_eq!(Status::Pending.as_str(), "Pending");
}

#[test]
fn card_reader_and_policy_wire_names() {
    assert_eq!(CardReader::Class2.wire_name(), "class2");
    assert_eq!(CardReader::from_wire("class1"), Some(CardReader::Class1));
    assert_eq!(CardReader::from_wire("class3"), None);
    assert_eq!(CertificatePolicy::BankidMobile.wire_name(), "1.2.752.78.1.5");
    assert_eq!(CertificatePolicy::from_wire("1.2.3.4.25"), Some(CertificatePolicy::TestBankidMobile));
    assert_eq!(CertificatePolicy::TestNordeaEidOnFileSmartCard.wire_name(), "1.2.752.71.1.3");
    assert_eq!(
        CertificatePolicy::from_wire("1.2.752.71.1.3"),
        Some(CertificatePolicy::NordeaEidOnFileSmartCard)
    );
    assert_eq!(CertificatePolicy::from_wire("1.2.3"), None);
}

#[test]
fn auth_request_defaults() {
    let r = AuthRequestData::new("127.0.0.1");
    assert!(r.personal_number.is_none());
    assert_eq!(r.end_user_ip, "127.0.0.1");
    let q = r.requirement.unwrap();
    assert_eq!(q.card_reader, Some(CardReader::Class2));
    assert_eq!(
        q.certificate_policies,
        vec![CertificatePolicy::BankidOnFile, CertificatePolicy::BankidMobile]
    );
    assert_eq!(q.auto_start_token_required, Some(true));
    assert_eq!(q.allow_fingerprint, None);
}

#[test]
fn auth_request_with_personal_number() {
    let r = AuthRequestData::new_with_personal_number("191212121212".to_string(), "10.0.0.1".to_string());
    assert_eq!(r.personal_number.as_deref(), Some("191212121212"));
    assert_eq!(r.end_user_ip, "10.0.0.1");
    assert!(r.requirement.is_none());
}

#[test]
fn collect_response_description() {
    let r = CollectResponse {
        order_ref: "abc-123".to_string(),
        status: Status::Pending,
        hint_code: Some(HintCode::PendingUserSign),
        completion_data: None,
    };
    assert_eq!(r.describe(), "CollectResponse(order_ref: abc-123 Pending) hint_code: PendingUserSign");
    let r = CollectResponse {
        order_ref: "x".to_string(),
        status: Status::Failed,
        hint_code: None,
        completion_data: None,
    };
    assert_eq!(r.describe(), "CollectResponse(order_ref: x Failed) hint_code: None");
}
