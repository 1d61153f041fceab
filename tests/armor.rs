use rpgpie_sop::armor::{
    encoded_type_id_to_label, from_encoded_type_id, Armor, ArmorAction, ArmorLabel, BlockKind,
    Dearmor, DearmorAction, PacketTag,
};
use rpgpie_sop::error::SopError;

#[test]
fn test_from_encoded_type_id() {
    // OpenPGP format
    assert_eq!(
        from_encoded_type_id(0b11000001).ok(),
        Some(PacketTag::PublicKeyEncryptedSessionKey)
    );

    // Legacy format
    assert_eq!(
        from_encoded_type_id(0b10000100).ok(),
        Some(PacketTag::PublicKeyEncryptedSessionKey)
    );

    // Bit 7 is zero -> bad data
    assert!(matches!(
        from_encoded_type_id(0b00000100),
        Err(SopError::BadData)
    ));
}

#[test]
fn label_detection_table() {
    assert_eq!(encoded_type_id_to_label(0b11000001), Ok(ArmorLabel::Message));
    assert_eq!(encoded_type_id_to_label(0b10000100), Ok(ArmorLabel::Message));
    // legacy secret key (tag 5), public key (tag 6), SKESK (3), OPS (4), signature (2)
    assert_eq!(encoded_type_id_to_label(0x95), Ok(ArmorLabel::Key));
    assert_eq!(encoded_type_id_to_label(0x99), Ok(ArmorLabel::Cert));
    assert_eq!(encoded_type_id_to_label(0xc3), Ok(ArmorLabel::Message));
    assert_eq!(encoded_type_id_to_label(0xc4), Ok(ArmorLabel::Message));
    assert_eq!(encoded_type_id_to_label(0xc2), Ok(ArmorLabel::Sig));
    // literal data cannot start an armored artifact
    assert_eq!(encoded_type_id_to_label(0xcb), Err(SopError::BadData));
    assert_eq!(encoded_type_id_to_label(0x41), Err(SopError::BadData));
}

#[test]
fn packet_tag_ranges() {
    assert_eq!(from_encoded_type_id(0xc0 | 22), Ok(PacketTag::UnassignedCritical(22)));
    assert_eq!(from_encoded_type_id(0xc0 | 45), Ok(PacketTag::UnassignedNonCritical(45)));
    assert_eq!(from_encoded_type_id(0xc0 | 63), Ok(PacketTag::Experimental(63)));
    assert_eq!(from_encoded_type_id(0xc0 | 15), Ok(PacketTag::Invalid(15)));
    assert_eq!(from_encoded_type_id(0xc0), Ok(PacketTag::Invalid(0)));
    assert_eq!(from_encoded_type_id(0xc0 | 21), Ok(PacketTag::Padding));
}

#[test]
fn armor_plans() {
    let a = Armor::new();
    assert_eq!(a.plan(None), Ok(ArmorAction::Nothing));
    assert_eq!(a.plan(Some(b'-')), Ok(ArmorAction::PassThrough));
    assert_eq!(a.plan(Some(0xc1)), Ok(ArmorAction::Wrap(BlockKind::Message)));
    assert_eq!(a.plan(Some(0xcb)), Err(SopError::BadData));
    let a = Armor::new().label(ArmorLabel::Cert);
    assert_eq!(a.plan(Some(0xcb)), Ok(ArmorAction::Wrap(BlockKind::PublicKey)));
    assert_eq!(a.plan(Some(b'x')), Ok(ArmorAction::PassThrough));
}

#[test]
fn dearmor_plans_and_passthrough() {
    let d = Dearmor::new();
    assert_eq!(d.plan(None), DearmorAction::Nothing);
    assert_eq!(d.plan(Some(0xc1)), DearmorAction::PassThrough);
    assert_eq!(d.plan(Some(b'-')), DearmorAction::Decode);
    assert_eq!(d.data(&vec![]), Ok(vec![]));
    let bin = vec![0xc2u8, 1, 2, 3];
    assert_eq!(d.data(&bin), Ok(bin.clone()));
}

#[test]
fn dearmor_decodes_armor() {
    let text = b"-----BEGIN PGP MESSAGE-----\n\nwsE=\n-----END PGP MESSAGE-----\n".to_vec();
    let d = Dearmor::new();
    let out = d.data(&text).unwrap();
    assert_eq!(out, vec![0xc2u8, 0xc1]);
    assert_ne!(out, text);
}

#[test]
fn dearmor_rejects_garbage_text() {
    let d = Dearmor::new();
    assert_eq!(d.data(&b"hello world".to_vec()), Err(SopError::BadData));
}
