//! Configuration of decryption.

use vstd::prelude::*;

use crate::policy::{all_normalized, append_all, normalize_all, views};

verus! {

/// Configuration of a decryption.
pub struct Decrypt {
    /// Fingerprints of the certificates that signatures are verified against.
    pub verify_certs: Vec<Vec<u8>>,
    /// Fingerprints of the decryption keys.
    pub decryption_keys: Vec<Vec<u8>>,
    /// Passwords for protected decryption keys.
    pub key_passwords: Vec<Vec<u8>>,
    /// Passwords the message may be encrypted with.
    pub skesk_passwords: Vec<Vec<u8>>,
}

/// The passwords a decryption pass tries, normalized.
pub struct DecryptPlan {
    pub message_passwords: Vec<Vec<u8>>,
    pub key_passwords: Vec<Vec<u8>>,
}

impl Decrypt {
    /// A decryption with no keys, passwords or certificates.
    pub fn new() -> (r: Decrypt)
        ensures
            r.verify_certs@.len() == 0,
            r.decryption_keys@.len() == 0,
            r.key_passwords@.len() == 0,
            r.skesk_passwords@.len() == 0,
    {
        Decrypt {
            verify_certs: Vec::new(),
            decryption_keys: Vec::new(),
            key_passwords: Vec::new(),
            skesk_passwords: Vec::new(),
        }
    }

    /// Adds certificates to verify signatures against.
    pub fn verify_with_certs(self, certs: &Vec<Vec<u8>>) -> (r: Decrypt)
        ensures
            views(r.verify_certs@) == views(self.verify_certs@) + views(certs@),
            r.decryption_keys@ == self.decryption_keys@,
            r.key_passwords@ == self.key_passwords@,
            r.skesk_passwords@ == self.skesk_passwords@,
    {
        let mut d = self;
        append_all(&mut d.verify_certs, certs);
        d
    }

    /// Adds decryption keys.
    pub fn with_keys(self, keys: &Vec<Vec<u8>>) -> (r: Decrypt)
        ensures
            views(r.decryption_keys@) == views(self.decryption_keys@) + views(keys@),
            r.verify_certs@ == self.verify_certs@,
            r.key_passwords@ == self.key_passwords@,
            r.skesk_passwords@ == self.skesk_passwords@,
    {
        let mut d = self;
        append_all(&mut d.decryption_keys, keys);
        d
    }

    /// Adds a password the message may be encrypted with.
    pub fn with_password(self, password: Vec<u8>) -> (r: Decrypt)
        ensures
            r.skesk_passwords@ == self.skesk_passwords@.push(password),
            r.verify_certs@ == self.verify_certs@,
            r.decryption_keys@ == self.decryption_keys@,
            r.key_passwords@ == self.key_passwords@,
    {
        let mut d = self;
        d.skesk_passwords.push(password);
        d
    }

    /// Adds a password for protected decryption keys.
    pub fn with_key_password(self, password: Vec<u8>) -> (r: Decrypt)
        ensures
            r.key_passwords@ == self.key_passwords@.push(password),
            r.verify_certs@ == self.verify_certs@,
            r.decryption_keys@ == self.decryption_keys@,
            r.skesk_passwords@ == self.skesk_passwords@,
    {
        let mut d = self;
        d.key_passwords.push(password);
        d
    }

    /// Ends configuration: the passwords that the pass tries, normalized and
    /// in the order given.
    pub fn ciphertext(&self) -> (r: DecryptPlan)
        ensures
            views(r.message_passwords@) == all_normalized(self.skesk_passwords@),
            views(r.key_passwords@) == all_normalized(self.key_passwords@),
    {
        DecryptPlan {
            message_passwords: normalize_all(&self.skesk_passwords),
            key_passwords: normalize_all(&self.key_passwords),
        }
    }
}

} // verus!
