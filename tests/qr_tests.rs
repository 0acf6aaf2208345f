use bankid_rs::qr::{png_as_text, qr_code_png};

#[test]
fn qr_code_is_base64_png() {
    let t = qr_code_png("bankid:///?autostarttoken=46f6aa68-5f8e-4b23-b5ed-a1b5d5cd6e41").unwrap();
    assert!(t.starts_with("iVBORw0KGgo"));
    assert_eq!(t.len() % 4, 0);
}

#[test]
fn oversized_payload_gives_no_code() {
    let uri = "x".repeat(8000);
    assert!(qr_code_png(&uri).is_none());
}

#[test]
fn png_bytes_become_base64_text() {
    assert_eq!(png_as_text(&vec![1u8, 2, 3]), "AQID");
    assert_eq!(png_as_text(&vec![0x89u8, 0x50]), "iVA=");
    assert_eq!(png_as_text(&vec![]), "");
}

#[test]
fn same_uri_gives_same_code() {
    let a = qr_code_png("bankid:///?autostarttoken=abc");
    let b = qr_code_png("bankid:///?autostarttoken=abc");
    assert!(a.is_some());
    assert_eq!(a, b);
    assert_ne!(a, qr_code_png("bankid:///?autostarttoken=abd"));
}
