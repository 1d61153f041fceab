//! Stateless OpenPGP operations: configuration builders, credential
//! preference resolution, message-layer unwrapping, armor detection and the
//! hardware-token PIN policy, stated and proved with Verus.

pub mod armor;
pub mod cascade;
pub mod decrypt;
pub mod encrypt;
pub mod error;
pub mod keys;
pub mod pin;
pub mod policy;
pub mod prefs;
pub mod sign;
pub mod unwrap;
pub mod verify;
pub mod version;

use vstd::prelude::*;

use crate::armor::{Armor, Dearmor};
use crate::decrypt::Decrypt;
use crate::encrypt::Encrypt;
use crate::error::SopError;
use crate::keys::{ChangeKeyPassword, ExtractCert, GenerateKey, RevokeKey};
use crate::sign::{InlineSign, Sign};
use crate::unwrap::InlineDetach;
use crate::verify::{InlineVerify, Verify};
use crate::version::Version;

verus! {

/// The operations of this implementation, with software keys. All policy
/// defaults are fixed configuration that each operation starts from.
#[derive(Clone, Copy, Debug, Default)]
pub struct RPGSOP {}

impl RPGSOP {
    /// The context value.
    pub fn new() -> (r: RPGSOP) {
        RPGSOP {  }
    }

    /// The version of the verification subset of the interface.
    pub fn sopv_version(&self) -> (r: &'static str)
        ensures
            r@ == "1.0"@,
    {
        "1.0"
    }

    /// Version information.
    pub fn version(&self) -> (r: Version) {
        Version::new()
    }

    /// Key generation.
    pub fn generate_key(&self) -> (r: GenerateKey)
        ensures
            r.profile == crate::keys::KeyProfile::EdDsa && !r.signing_only,
    {
        GenerateKey::new()
    }

    /// A password change on keys.
    pub fn change_key_password(&self) -> (r: ChangeKeyPassword)
        ensures
            r.old_password is None && r.new_password is None,
    {
        ChangeKeyPassword::new()
    }

    /// Key revocation.
    pub fn revoke_key(&self) -> (r: RevokeKey)
        ensures
            r.key_passwords@.len() == 1 && r.key_passwords@[0]@.len() == 0,
    {
        RevokeKey::new()
    }

    /// Certificate extraction.
    pub fn extract_cert(&self) -> (r: ExtractCert) {
        ExtractCert::new()
    }

    /// Detached signing.
    pub fn sign(&self) -> (r: Sign)
        ensures
            r.signers@.len() == 0 && r.hash_algos@ == seq![10u8, 9u8, 8u8],
    {
        Sign::new()
    }

    /// Detached verification.
    pub fn verify(&self) -> (r: Verify)
        ensures
            r.certs@.len() == 0,
    {
        Verify::new()
    }

    /// Encryption.
    pub fn encrypt(&self) -> (r: Encrypt)
        ensures
            r.recipients@.len() == 0 && r.skesk_passwords@.len() == 0 && r.armor,
    {
        Encrypt::new()
    }

    /// Decryption.
    pub fn decrypt(&self) -> (r: Decrypt)
        ensures
            r.decryption_keys@.len() == 0 && r.skesk_passwords@.len() == 0,
    {
        Decrypt::new()
    }

    /// Armoring.
    pub fn armor(&self) -> (r: Armor)
        ensures
            r.label == crate::armor::ArmorLabel::Auto,
    {
        Armor::new()
    }

    /// Dearmoring.
    pub fn dearmor(&self) -> (r: Dearmor) {
        Dearmor::new()
    }

    /// Splitting inline-signed messages.
    pub fn inline_detach(&self) -> (r: InlineDetach) {
        InlineDetach::new()
    }

    /// Inline verification.
    pub fn inline_verify(&self) -> (r: InlineVerify)
        ensures
            r.certs@.len() == 0,
    {
        InlineVerify::new()
    }

    /// Inline signing.
    pub fn inline_sign(&self) -> (r: InlineSign)
        ensures
            r.armor && r.sign.signers@.len() == 0,
    {
        InlineSign::new()
    }

    /// Key update is not offered.
    pub fn update_key(&self) -> (r: Result<(), SopError>)
        ensures
            r == Err::<(), SopError>(SopError::NotImplemented),
    {
        Err(SopError::NotImplemented)
    }

    /// Certificate merging is not offered.
    pub fn merge_certs(&self) -> (r: Result<(), SopError>)
        ensures
            r == Err::<(), SopError>(SopError::NotImplemented),
    {
        Err(SopError::NotImplemented)
    }

    /// User ID certification is not offered.
    pub fn certify_userid(&self) -> (r: Result<(), SopError>)
        ensures
            r == Err::<(), SopError>(SopError::NotImplemented),
    {
        Err(SopError::NotImplemented)
    }

    /// User ID validation is not offered.
    pub fn validate_userid(&self) -> (r: Result<(), SopError>)
        ensures
            r == Err::<(), SopError>(SopError::NotImplemented),
    {
        Err(SopError::NotImplemented)
    }
}

/// The operations of this implementation whose private keys live on
/// hardware tokens. Operations without private keys are those of
/// [`RPGSOP`].
#[derive(Clone, Copy, Debug, Default)]
pub struct RPGSOPOCT {}

impl RPGSOPOCT {
    /// The context value.
    pub fn new() -> (r: RPGSOPOCT) {
        RPGSOPOCT {  }
    }

    /// The operations that need no private key.
    pub fn software(&self) -> (r: RPGSOP) {
        RPGSOP {  }
    }

    /// Version information.
    pub fn version(&self) -> (r: Version) {
        Version::new()
    }

    /// Keys cannot be generated on a token here.
    pub fn generate_key(&self) -> (r: Result<GenerateKey, SopError>)
        ensures
            r is Err,
    {
        Err(SopError::NotImplemented)
    }

    /// Detached signing on a token.
    pub fn sign(&self) -> (r: Sign)
        ensures
            r.signers@.len() == 0 && r.hash_algos@ == seq![10u8, 9u8, 8u8],
    {
        Sign::new()
    }

    /// Inline signing on a token.
    pub fn inline_sign(&self) -> (r: InlineSign)
        ensures
            r.armor && r.sign.signers@.len() == 0,
    {
        InlineSign::new()
    }

    /// Decryption on a token.
    pub fn decrypt(&self) -> (r: Decrypt)
        ensures
            r.decryption_keys@.len() == 0 && r.skesk_passwords@.len() == 0,
    {
        Decrypt::new()
    }
}

} // verus!
