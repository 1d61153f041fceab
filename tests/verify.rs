use rpgpie_sop::error::SopError;
use rpgpie_sop::verify::{records_of, to_verification, SignatureCheck, SignatureMode, Verify};

fn check(created: u64, key: u8, valid: bool, verified: bool, sig_type: u8) -> SignatureCheck {
    SignatureCheck {
        created,
        sig_type,
        key_fp: vec![key, 0xab],
        cert_fp: vec![0x0f, key],
        key_valid: valid,
        verified,
    }
}

#[test]
fn record_fields() {
    let v = to_verification(1700000000, &vec![0xde, 0xad, 0x01], &vec![0xbe, 0xef], 1).ok().unwrap();
    assert_eq!(v.created, 1700000000);
    assert_eq!(v.key_fp, "dead01");
    assert_eq!(v.cert_fp, "beef");
    assert_eq!(v.mode, SignatureMode::Text);
    assert!(matches!(to_verification(1, &vec![], &vec![], 0x13), Err(SopError::BadData)));
}

#[test]
fn verify_needs_certs() {
    assert!(matches!(Verify::new().data(&vec![]), Err(SopError::MissingArg)));
}

#[test]
fn only_valid_signatures_count() {
    let v = Verify::new().certs(&vec![vec![1, 2]]);
    let checks = vec![
        check(10, 1, true, false, 0),
        check(11, 2, false, true, 0),
        check(12, 3, true, true, 0),
        check(13, 4, true, true, 1),
    ];
    let out = v.data(&checks).ok().unwrap();
    assert_eq!(out.len(), 2);
    assert_eq!(out[0].created, 12);
    assert_eq!(out[0].key_fp, "03ab");
    assert_eq!(out[0].cert_fp, "0f03");
    assert_eq!(out[0].mode, SignatureMode::Binary);
    assert_eq!(out[1].created, 13);
    assert_eq!(out[1].mode, SignatureMode::Text);
}

#[test]
fn no_valid_signature() {
    let v = Verify::new().certs(&vec![vec![1, 2]]);
    let checks = vec![check(10, 1, true, false, 0)];
    assert!(matches!(v.data(&checks), Err(SopError::NoSignature)));
}

#[test]
fn records_may_be_empty() {
    assert!(records_of(&vec![]).is_empty());
    let checks = vec![check(10, 1, false, true, 0), check(11, 2, true, true, 0)];
    let out = records_of(&checks);
    assert_eq!(out.len(), 1);
    assert_eq!(out[0].created, 11);
}
