use bankid_rs::domain::{AuthRequestData, CollectRequestData, CardReader, CertificatePolicy, Requirement, SignRequestData};
use bankid_rs::wire::{WireField, WireLeaf, WireScalar, WireValue};

fn keys(fields: &[WireField]) -> Vec<String> {
    fields.iter().map(|f| f.key.clone()).collect()
}

#[test]
fn auth_request_round_trip() {
    let r = AuthRequestData::new("127.0.0.1");
    let w = r.to_wire();
    assert_eq!(keys(&w), vec!["endUserIp", "requirement"]);
    let back = AuthRequestData::from_wire(&w).unwrap();
    assert!(back.personal_number.is_none());
    assert_eq!(back.end_user_ip, "127.0.0.1");
    let q = back.requirement.unwrap();
    assert_eq!(q.card_reader, Some(CardReader::Class2));
    assert_eq!(q.certificate_policies, vec![CertificatePolicy::BankidOnFile, CertificatePolicy::BankidMobile]);
    assert_eq!(q.auto_start_token_required, Some(true));
    assert_eq!(q.allow_fingerprint, None);
}

#[test]
fn requirement_wire_form_leaves_out_absent_fields() {
    let q = Requirement {
        card_reader: None,
        certificate_policies: vec![CertificatePolicy::TestBankidOnFile],
        auto_start_token_required: None,
        allow_fingerprint: Some(false),
    };
    let w = q.to_wire();
    let names: Vec<String> = w.iter().map(|l| l.key.clone()).collect();
    assert_eq!(names, vec!["certificatePolicies", "allowFingerprint"]);
    match &w[0].value {
        WireScalar::Texts(ts) => assert_eq!(ts, &vec!["1.2.3.4.5".to_string()]),
        _ => panic!("policies are a list of identifiers"),
    }
    let back = Requirement::from_wire(&w).unwrap();
    assert_eq!(back.card_reader, None);
    assert_eq!(back.certificate_policies, vec![CertificatePolicy::TestBankidOnFile]);
    assert_eq!(back.allow_fingerprint, Some(false));
}

#[test]
fn sign_request_round_trip() {
    let r = SignRequestData {
        personal_number: Some("191212121212".to_string()),
        end_user_ip: "10.1.2.3".to_string(),
        requirement: None,
        user_visible_data: "aGVsbG8=".to_string(),
        user_non_visible_data: None,
    };
    let w = r.to_wire();
    assert_eq!(keys(&w), vec!["personalNumber", "endUserIp", "userVisibleData"]);
    let back = SignRequestData::from_wire(&w).unwrap();
    assert_eq!(back.personal_number.as_deref(), Some("191212121212"));
    assert_eq!(back.end_user_ip, "10.1.2.3");
    assert_eq!(back.user_visible_data, "aGVsbG8=");
    assert!(back.user_non_visible_data.is_none());
    assert!(back.requirement.is_none());
}

#[test]
fn missing_required_field_is_rejected() {
    let w = vec![WireField {
        key: "personalNumber".to_string(),
        value: WireValue::Scalar(WireScalar::Text("1".to_string())),
    }];
    assert!(AuthRequestData::from_wire(&w).is_none());
}

#[test]
fn unknown_policy_is_rejected_and_unknown_keys_ignored() {
    let w = vec![
        WireLeaf { key: "issuerCn".to_string(), value: WireScalar::Text("x".to_string()) },
        WireLeaf { key: "certificatePolicies".to_string(), value: WireScalar::Texts(vec!["9.9".to_string()]) },
    ];
    assert!(Requirement::from_wire(&w).is_none());
    let w = vec![
        WireLeaf { key: "issuerCn".to_string(), value: WireScalar::Text("x".to_string()) },
        WireLeaf { key: "certificatePolicies".to_string(), value: WireScalar::Texts(vec![]) },
    ];
    let q = Requirement::from_wire(&w).unwrap();
    assert!(q.certificate_policies.is_empty());
}

#[test]
fn collect_request_wire_form() {
    let w = CollectRequestData { order_ref: "o-7".to_string() }.to_wire();
    assert_eq!(keys(&w), vec!["orderRef"]);
    match &w[0].value {
        WireValue::Scalar(WireScalar::Text(t)) => assert_eq!(t, "o-7"),
        _ => panic!("the order reference is text"),
    }
}
