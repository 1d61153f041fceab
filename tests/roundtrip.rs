use std::io::{Cursor, Write};

use pgp::composed::{KeyType, Message};
use pgp::crypto::ecc_curve::ECCCurve;
use pgp::types::{KeyDetails, KeyVersion, Password, Timestamp};
use rpgpie::certificate::{Certificate, Checked};
use rpgpie::tsk::Tsk;
use rpgpie_sop::armor::{Armor, ArmorAction, BlockKind, Dearmor};
use rpgpie_sop::encrypt::{Encrypt, Recipient};
use rpgpie_sop::prefs::{AeadPref, Seipd};
use rpgpie_sop::verify::{SignatureCheck, SignatureMode, Verify};

fn new_key() -> Tsk {
    Tsk::generate(
        KeyVersion::V4,
        KeyType::Ed25519Legacy,
        Some(KeyType::ECDH(ECCCurve::Curve25519Legacy)),
        Some("Alice <alice@example.org>".to_string()),
        vec![],
        None,
    )
    .unwrap()
}

fn recipient_of(cert: &Certificate) -> Recipient {
    let checked = Checked::from(cert.clone());
    let now = Timestamp::now();
    Recipient {
        symmetric_prefs: checked
            .preferred_symmetric_key_algo(now)
            .map(|p| p.iter().map(|a| u8::from(*a)).collect()),
        aead_prefs: checked.preferred_aead_algo(now).map(|p| {
            p.iter()
                .map(|(s, a)| AeadPref { sym: u8::from(*s), aead: u8::from(*a) })
                .collect()
        }),
        features: checked
            .features(now)
            .map(|f| Vec::<u8>::from(f).first().copied().unwrap_or(0)),
        encryption_keys: checked
            .valid_encryption_capable_component_keys()
            .iter()
            .map(|k| k.fingerprint().as_bytes().to_vec())
            .collect(),
    }
}

#[test]
fn encrypt_then_decrypt_recovers_plaintext() {
    let tsk = new_key();
    let cert = Certificate::from(tsk.clone());
    let plaintext = b"attack at dawn\n".to_vec();

    let e = Encrypt::new().no_armor().with_certs(&vec![recipient_of(&cert)]).ok().unwrap();
    assert_eq!(e.recipients.len(), 1);
    let plan = e.plaintext().ok().unwrap();
    let seipd = match plan.seipd {
        Seipd::Seipd1 => Some(rpgpie::policy::Seipd::SEIPD1),
        Seipd::Seipd2 => Some(rpgpie::policy::Seipd::SEIPD2),
        Seipd::Sed => None,
    };

    let mut source = Cursor::new(plaintext.clone());
    let mut ciphertext: Vec<u8> = Vec::new();
    let (session_key, _algo) = rpgpie::message::encrypt(
        seipd,
        vec![cert],
        vec![],
        vec![],
        &[],
        &mut source,
        rpgpie::message::SignatureMode::Binary,
        &mut ciphertext,
        plan.armor,
    )
    .unwrap();

    let (msg, _) = Message::from_reader(Cursor::new(ciphertext)).unwrap();
    let mr = rpgpie::message::unpack(msg, vec![tsk.key()], vec![], vec![], &[], &[]).unwrap();
    assert_eq!(mr.cleartext, plaintext);
    let (_, recovered) = mr.session_key.unwrap();
    assert_eq!(recovered, session_key.to_vec());
}

#[test]
fn sign_then_verify_gives_one_record_per_key() {
    let tsk = new_key();
    let cert = Certificate::from(tsk.clone());
    let data = b"signed data".to_vec();

    let sigs = rpgpie::detached::sign(
        Cursor::new(data.clone()),
        &[tsk],
        &[Password::empty()],
        rpgpie::message::SignatureMode::Binary,
    )
    .unwrap();
    assert_eq!(sigs.len(), 1);
    let created = sigs[0].created().unwrap().as_secs() as u64;

    let certs = [cert.clone()];
    let validated = rpgpie::detached::verify(Cursor::new(data), &sigs, &certs).unwrap();
    let mut checks = Vec::new();
    for v in &validated {
        for c in &v.certs {
            checks.push(SignatureCheck {
                created: v.sig.created().unwrap().as_secs() as u64,
                sig_type: v.sig.typ().map(u8::from).unwrap(),
                key_fp: v.component.as_bytes().to_vec(),
                cert_fp: c.fingerprint().as_bytes().to_vec(),
                key_valid: true,
                verified: true,
            });
        }
    }
    let verify = Verify::new().certs(&vec![cert.fingerprint().as_bytes().to_vec()]);
    let records = verify.data(&checks).ok().unwrap();
    assert_eq!(records.len(), 1);
    assert_eq!(records[0].created, created);
    assert_eq!(records[0].mode, SignatureMode::Binary);
    assert_eq!(records[0].cert_fp, hex::encode(cert.fingerprint().as_bytes()));
}

struct Raw(Vec<u8>);

impl pgp::ser::Serialize for Raw {
    fn to_writer<W: Write>(&self, w: &mut W) -> pgp::errors::Result<()> {
        w.write_all(&self.0)?;
        Ok(())
    }

    fn write_len(&self) -> usize {
        self.0.len()
    }
}

#[test]
fn armor_then_dearmor_is_identity() {
    let tsk = new_key();
    let mut binary: Vec<u8> = Vec::new();
    Certificate::from(tsk).save(false, &mut binary).unwrap();

    let plan = Armor::new().plan(binary.first().copied());
    assert_eq!(plan, Ok(ArmorAction::Wrap(BlockKind::PublicKey)));

    let mut armored: Vec<u8> = Vec::new();
    pgp::armor::write(&Raw(binary.clone()), pgp::armor::BlockType::PublicKey, &mut armored, None, true)
        .unwrap();
    assert!(armored.starts_with(b"-----BEGIN PGP PUBLIC KEY BLOCK-----"));

    let back = Dearmor::new().data(&armored).unwrap();
    assert_eq!(back, binary);
    // and dearmoring binary data leaves it alone
    assert_eq!(Dearmor::new().data(&binary).unwrap(), binary);
}
