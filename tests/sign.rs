use rpgpie_sop::error::SopError;
use rpgpie_sop::policy::candidate_passwords;
use rpgpie_sop::sign::{signing_keys_used, InlineSign, InlineSignAs, Sign, SignAs, SignerKey};

#[test]
fn sign_needs_a_signer() {
    assert!(matches!(Sign::new().plan(), Err(SopError::MissingArg)));
}

#[test]
fn signer_narrows_hash() {
    let key = SignerKey { fingerprint: vec![1; 20], hash_prefs: Some(vec![8, 9]) };
    let s = Sign::new().keys(&vec![key]).mode(SignAs::Text);
    assert_eq!(s.hash_algos, vec![9, 8]);
    let p = s.plan().ok().unwrap();
    assert_eq!(p.hash_algo, 9);
    assert_eq!(p.mode, SignAs::Text);
    assert_eq!(p.passwords, vec![Vec::<u8>::new()]);
}

#[test]
fn hash_fallback_when_nothing_shared() {
    let key = SignerKey { fingerprint: vec![1; 20], hash_prefs: Some(vec![2]) };
    let p = Sign::new().keys(&vec![key]).plan().ok().unwrap();
    assert_eq!(p.hash_algo, 8);
}

#[test]
fn passwords_are_normalized() {
    let pws = vec![b"abc \n".to_vec(), b"x".to_vec()];
    assert_eq!(candidate_passwords(&pws), vec![b"abc".to_vec(), b"x".to_vec()]);
    assert_eq!(candidate_passwords(&vec![]), vec![Vec::<u8>::new()]);
}

#[test]
fn signing_outcomes() {
    assert_eq!(signing_keys_used(&vec![false, true, true]), Ok(vec![1, 2]));
    assert_eq!(signing_keys_used(&vec![false, false]), Err(SopError::KeyIsProtected));
    assert_eq!(signing_keys_used(&vec![]), Err(SopError::KeyIsProtected));
}

#[test]
fn inline_sign_checks() {
    assert!(matches!(InlineSign::new().data(), Err(SopError::MissingArg)));
    let key = SignerKey { fingerprint: vec![1; 20], hash_prefs: None };
    let s = InlineSign::new().keys(&vec![key]).no_armor().mode(InlineSignAs::ClearSigned);
    assert!(matches!(s.data(), Err(SopError::IncompatibleOptions)));
    let key = SignerKey { fingerprint: vec![1; 20], hash_prefs: None };
    let s = InlineSign::new().keys(&vec![key]).mode(InlineSignAs::ClearSigned);
    assert!(s.data().is_ok());
}
