use rpgpie_sop::encrypt::{Encrypt, EncryptProfile, Recipient};
use rpgpie_sop::error::SopError;
use rpgpie_sop::prefs::{narrow_ids, narrow_seipd, AeadPref, Seipd};
use rpgpie_sop::RPGSOP;

fn recipient(sym: Option<Vec<u8>>, features: Option<u8>, keys: usize) -> Recipient {
    Recipient {
        symmetric_prefs: sym,
        aead_prefs: None,
        features,
        encryption_keys: (0..keys).map(|i| vec![i as u8; 20]).collect(),
    }
}

#[test]
fn narrowing_keeps_default_order() {
    let d = vec![9u8, 8, 7];
    assert_eq!(narrow_ids(&d, &Some(vec![7, 9])), vec![9, 7]);
    assert_eq!(narrow_ids(&d, &None), vec![9, 8, 7]);
    assert_eq!(narrow_ids(&d, &Some(vec![2])), Vec::<u8>::new());
}

#[test]
fn seipd_features_filter() {
    let d = vec![Seipd::Seipd2, Seipd::Seipd1];
    assert_eq!(narrow_seipd(&d, Some(0x01)), vec![Seipd::Seipd1]);
    assert_eq!(narrow_seipd(&d, Some(0x09)), vec![Seipd::Seipd2, Seipd::Seipd1]);
    assert_eq!(narrow_seipd(&d, Some(0x00)), Vec::<Seipd>::new());
    assert_eq!(narrow_seipd(&d, None), d);
}

#[test]
fn defaults_of_a_new_encryption() {
    let e = RPGSOP::new().encrypt();
    assert_eq!(e.symmetric_algorithms, vec![9, 8, 7]);
    assert_eq!(e.aead_algorithms[0], AeadPref { sym: 9, aead: 2 });
    assert_eq!(e.aead_algorithms[5], AeadPref { sym: 7, aead: 1 });
    assert_eq!(e.seipd, vec![Seipd::Seipd2, Seipd::Seipd1]);
    assert_eq!(e.sign.hash_algos, vec![10, 9, 8]);
}

#[test]
fn missing_recipient_or_password() {
    let e = Encrypt::new();
    assert!(matches!(e.plaintext(), Err(SopError::MissingArg)));
}

#[test]
fn cert_without_encryption_key() {
    let e = Encrypt::new();
    assert!(matches!(e.add_cert(&recipient(None, None, 0)), Err(SopError::CertCannotEncrypt)));
}

#[test]
fn recipients_narrow_choice() {
    let rs = vec![
        recipient(Some(vec![7, 8]), Some(0x01), 1),
        recipient(Some(vec![8, 9, 7]), Some(0x09), 2),
    ];
    let e = Encrypt::new().with_certs(&rs).ok().unwrap();
    assert_eq!(e.symmetric_algorithms, vec![8, 7]);
    assert_eq!(e.recipients.len(), 3);
    let p = e.plaintext().ok().unwrap();
    assert_eq!(p.symmetric_algorithm, 8);
    assert_eq!(p.seipd, Seipd::Seipd1);
    assert_eq!(p.aead, AeadPref { sym: 9, aead: 2 });
}

#[test]
fn recipient_order_does_not_change_choice() {
    let a = recipient(Some(vec![7, 8]), Some(0x09), 1);
    let b = recipient(Some(vec![8, 9]), Some(0x08), 1);
    let c = recipient(None, None, 1);
    let e1 = Encrypt::new().with_certs(&vec![a, b, c]).ok().unwrap().plaintext().ok().unwrap();
    let a = recipient(Some(vec![7, 8]), Some(0x09), 1);
    let b = recipient(Some(vec![8, 9]), Some(0x08), 1);
    let c = recipient(None, None, 1);
    let e2 = Encrypt::new().with_certs(&vec![c, b, a]).ok().unwrap().plaintext().ok().unwrap();
    assert_eq!(e1.symmetric_algorithm, 8);
    assert_eq!(e1.symmetric_algorithm, e2.symmetric_algorithm);
    assert_eq!(e1.seipd, Seipd::Seipd2);
    assert_eq!(e1.seipd, e2.seipd);
}

#[test]
fn empty_intersection_falls_back() {
    let rs = vec![recipient(Some(vec![2]), Some(0x00), 1)];
    let p = Encrypt::new().with_certs(&rs).ok().unwrap().plaintext().ok().unwrap();
    assert_eq!(p.symmetric_algorithm, 7);
    assert_eq!(p.seipd, Seipd::Seipd1);
}

#[test]
fn password_only_follows_profile() {
    let e = Encrypt::new().with_password(b"secret  ".to_vec());
    let p = e.plaintext().ok().unwrap();
    assert_eq!(p.seipd, Seipd::Seipd1);
    assert_eq!(p.passwords, vec![b"secret".to_vec()]);
    let e = Encrypt::new().profile("rfc9580").ok().unwrap().with_password(b"pw".to_vec());
    assert_eq!(e.profile, EncryptProfile::Rfc9580);
    assert_eq!(e.plaintext().ok().unwrap().seipd, Seipd::Seipd2);
}

#[test]
fn profile_names() {
    assert_eq!(Encrypt::new().profile("default").ok().unwrap().profile, EncryptProfile::Rfc4880);
    assert!(matches!(Encrypt::new().profile("rfc1234"), Err(SopError::UnsupportedProfile)));
    let l = Encrypt::new().list_profiles();
    assert_eq!(l[0].0, "rfc4880");
    assert_eq!(l[1].0, "rfc9580");
}
