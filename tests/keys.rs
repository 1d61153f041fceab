use rpgpie_sop::error::SopError;
use rpgpie_sop::keys::{ChangeKeyPassword, GenerateKey, KeyAlgorithm, KeyProfile, RevokeKey};
use rpgpie_sop::RPGSOP;

#[test]
fn generate_default_profile() {
    let r = RPGSOP::new().generate_key().userid("Alice <a@example.org>").userid("A2").generate();
    assert!(!r.v6);
    assert_eq!(r.primary, KeyAlgorithm::EdDsaLegacy);
    assert_eq!(r.encryption, Some(KeyAlgorithm::EcdhCurve25519));
    assert_eq!(r.primary_user_id.as_deref(), Some("Alice <a@example.org>"));
    assert_eq!(r.other_user_ids, vec!["A2".to_string()]);
    assert_eq!(r.password, None);
}

#[test]
fn signing_only_v4_and_v6() {
    let r = GenerateKey::new().signing_only().generate();
    assert_eq!(r.encryption, None);
    let r = GenerateKey::new().profile("rfc9580").ok().unwrap().signing_only().generate();
    assert!(r.v6);
    assert_eq!(r.primary, KeyAlgorithm::Ed25519);
    assert_eq!(r.encryption, Some(KeyAlgorithm::X25519));
}

#[test]
fn key_profiles() {
    assert_eq!(
        GenerateKey::new().profile("interop-testing-rfc6637-nistp384").ok().unwrap().profile,
        KeyProfile::NistP384
    );
    assert!(matches!(GenerateKey::new().profile("nope"), Err(SopError::UnsupportedProfile)));
    assert_eq!(GenerateKey::new().list_profiles().len(), 5);
    let r = GenerateKey::new().with_key_password(b"pw\t".to_vec()).generate();
    assert_eq!(r.password, Some(b"pw".to_vec()));
}

#[test]
fn change_password_normalizes() {
    let c = ChangeKeyPassword::new().old_key_password(b"old ".to_vec()).new_key_password(b"new".to_vec());
    assert_eq!(c.passwords(), (Some(b"old".to_vec()), Some(b"new".to_vec())));
}

#[test]
fn revocation_needs_every_key() {
    let r = RevokeKey::new().with_key_password(b"x".to_vec());
    assert_eq!(r.key_passwords, vec![vec![], b"x".to_vec()]);
    assert_eq!(r.keys_revoked(&vec![true, true]), Ok(()));
    assert_eq!(r.keys_revoked(&vec![true, false]), Err(SopError::KeyCannotSign));
}

#[test]
fn unsupported_operations() {
    assert_eq!(RPGSOP::new().merge_certs(), Err(SopError::NotImplemented));
    assert_eq!(RPGSOP::new().sopv_version(), "1.0");
}
