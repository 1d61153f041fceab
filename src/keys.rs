//! Configuration of key generation, password change, revocation and
//! certificate extraction.

use vstd::prelude::*;

use crate::encrypt::same_text;
use crate::error::SopError;
use crate::policy::{normalize_password, normalized_of};

verus! {

/// The key generation profiles.
#[derive(Clone, Copy, Debug, PartialEq, Eq, Structural)]
pub enum KeyProfile {
    /// EdDSA and ECDH over Curve25519, version 4.
    EdDsa,
    /// Ed25519 and X25519, version 6.
    Rfc9580,
    /// RSA 4096, version 4.
    Rfc4880,
    NistP256,
    NistP384,
    NistP521,
    /// NIST P-256, version 6.
    Rfc9580NistP,
    /// RSA 4096, version 6.
    Rfc9580Rsa,
    /// Ed25519 and X448, version 6.
    Rfc9580Cv448,
}

/// A key algorithm.
#[derive(Clone, Copy, Debug, PartialEq, Eq, Structural)]
pub enum KeyAlgorithm {
    EdDsaLegacy,
    EcdhCurve25519,
    Rsa4096,
    EcdsaP256,
    EcdhP256,
    EcdsaP384,
    EcdhP384,
    EcdsaP521,
    EcdhP521,
    Ed25519,
    X25519,
    X448,
}

/// The profile that a name selects; "default" selects the first.
pub open spec fn key_profile_of_name(name: Seq<char>) -> Option<KeyProfile> {
    if name == "draft-koch-eddsa-for-openpgp-00"@ || name == "default"@ {
        Some(KeyProfile::EdDsa)
    } else if name == "interop-testing-rfc4880"@ {
        Some(KeyProfile::Rfc4880)
    } else if name == "interop-testing-rfc6637-nistp256"@ {
        Some(KeyProfile::NistP256)
    } else if name == "interop-testing-rfc6637-nistp384"@ {
        Some(KeyProfile::NistP384)
    } else if name == "interop-testing-rfc6637-nistp521"@ {
        Some(KeyProfile::NistP521)
    } else if name == "rfc9580"@ {
        Some(KeyProfile::Rfc9580)
    } else if name == "interop-testing-rfc9580-nistp"@ {
        Some(KeyProfile::Rfc9580NistP)
    } else if name == "interop-testing-rfc9580-rsa"@ {
        Some(KeyProfile::Rfc9580Rsa)
    } else if name == "interop-testing-rfc9580-cv448"@ {
        Some(KeyProfile::Rfc9580Cv448)
    } else {
        None
    }
}

/// Whether a profile makes a version 6 key.
pub open spec fn is_v6(p: KeyProfile) -> bool {
    match p {
        KeyProfile::Rfc9580 | KeyProfile::Rfc9580NistP | KeyProfile::Rfc9580Rsa
        | KeyProfile::Rfc9580Cv448 => true,
        _ => false,
    }
}

/// The primary and encryption algorithms of a profile.
pub open spec fn profile_algorithms(p: KeyProfile) -> (KeyAlgorithm, KeyAlgorithm) {
    match p {
        KeyProfile::EdDsa => (KeyAlgorithm::EdDsaLegacy, KeyAlgorithm::EcdhCurve25519),
        KeyProfile::Rfc4880 => (KeyAlgorithm::Rsa4096, KeyAlgorithm::Rsa4096),
        KeyProfile::NistP256 => (KeyAlgorithm::EcdsaP256, KeyAlgorithm::EcdhP256),
        KeyProfile::NistP384 => (KeyAlgorithm::EcdsaP384, KeyAlgorithm::EcdhP384),
        KeyProfile::NistP521 => (KeyAlgorithm::EcdsaP521, KeyAlgorithm::EcdhP521),
        KeyProfile::Rfc9580 => (KeyAlgorithm::Ed25519, KeyAlgorithm::X25519),
        KeyProfile::Rfc9580NistP => (KeyAlgorithm::EcdsaP256, KeyAlgorithm::EcdhP256),
        KeyProfile::Rfc9580Rsa => (KeyAlgorithm::Rsa4096, KeyAlgorithm::Rsa4096),
        KeyProfile::Rfc9580Cv448 => (KeyAlgorithm::Ed25519, KeyAlgorithm::X448),
    }
}

/// What a key is generated from.
pub struct KeyRecipe {
    pub v6: bool,
    pub primary: KeyAlgorithm,
    /// The encryption subkey's algorithm; none for a signing-only key.
    pub encryption: Option<KeyAlgorithm>,
    pub primary_user_id: Option<String>,
    pub other_user_ids: Vec<String>,
    /// The normalized password that protects the key, if any.
    pub password: Option<Vec<u8>>,
}

/// The view of an optional password.
pub open spec fn opt_bytes(p: Option<Vec<u8>>) -> Option<Seq<u8>> {
    match p {
        None => None,
        Some(v) => Some(v@),
    }
}

/// The normalized view of an optional password.
pub open spec fn opt_normalized(p: Option<Vec<u8>>) -> Option<Seq<u8>> {
    match p {
        None => None,
        Some(v) => Some(normalized_of(v@)),
    }
}

fn normalize_opt(p: &Option<Vec<u8>>) -> (r: Option<Vec<u8>>)
    ensures
        opt_bytes(r) == opt_normalized(*p),
{
    match p {
        None => None,
        Some(v) => Some(normalize_password(v)),
    }
}

/// Configuration of key generation.
pub struct GenerateKey {
    pub profile: KeyProfile,
    pub signing_only: bool,
    pub key_password: Option<Vec<u8>>,
    pub user_ids: Vec<String>,
}

impl GenerateKey {
    /// Generation under the first profile, with an encryption subkey, no
    /// password and no user IDs.
    pub fn new() -> (r: GenerateKey)
        ensures
            r.profile == KeyProfile::EdDsa,
            !r.signing_only,
            r.key_password is None,
            r.user_ids@.len() == 0,
    {
        GenerateKey {
            profile: KeyProfile::EdDsa,
            signing_only: false,
            key_password: None,
            user_ids: Vec::new(),
        }
    }

    /// The profiles offered, by name and description.
    pub fn list_profiles(&self) -> (r: Vec<(String, String)>)
        ensures
            r@.len() == 5,
            r@[0].0@ == "draft-koch-eddsa-for-openpgp-00"@,
            r@[1].0@ == "rfc9580"@,
            r@[2].0@ == "interop-testing-rfc9580-rsa"@,
            r@[3].0@ == "interop-testing-rfc9580-nistp"@,
            r@[4].0@ == "interop-testing-rfc9580-cv448"@,
    {
        let mut v: Vec<(String, String)> = Vec::new();
        v.push(
            ("draft-koch-eddsa-for-openpgp-00".to_owned(), "use EdDSA & ECDH over Cv25519".to_owned()),
        );
        v.push(("rfc9580".to_owned(), "use algorithms from RFC 9580".to_owned()));
        v.push(
            (
                "interop-testing-rfc9580-rsa".to_owned(),
                "Only for interop-testing: use algorithms from RFC 9580 with RSA".to_owned(),
            ),
        );
        v.push(
            (
                "interop-testing-rfc9580-nistp".to_owned(),
                "Only for interop-testing: use algorithms from RFC 9580 with NIST P-256".to_owned(),
            ),
        );
        v.push(
            (
                "interop-testing-rfc9580-cv448".to_owned(),
                "Only for interop-testing: use algorithms from RFC 9580 with X448 and Ed25519".to_owned(),
            ),
        );
        v
    }

    /// Selects a profile by name.
    pub fn profile(self, name: &str) -> (r: Result<GenerateKey, SopError>)
        ensures
            match key_profile_of_name(name@) {
                None => r == Err::<GenerateKey, SopError>(SopError::UnsupportedProfile),
                Some(p) => (r matches Ok(g) && g.profile == p && g.signing_only
                    == self.signing_only && g.key_password == self.key_password && g.user_ids
                    == self.user_ids),
            },
    {
        let p = if same_text(name, "draft-koch-eddsa-for-openpgp-00") || same_text(
            name,
            "default",
        ) {
            KeyProfile::EdDsa
        } else if same_text(name, "interop-testing-rfc4880") {
            KeyProfile::Rfc4880
        } else if same_text(name, "interop-testing-rfc6637-nistp256") {
            KeyProfile::NistP256
        } else if same_text(name, "interop-testing-rfc6637-nistp384") {
            KeyProfile::NistP384
        } else if same_text(name, "interop-testing-rfc6637-nistp521") {
            KeyProfile::NistP521
        } else if same_text(name, "rfc9580") {
            KeyProfile::Rfc9580
        } else if same_text(name, "interop-testing-rfc9580-nistp") {
            KeyProfile::Rfc9580NistP
        } else if same_text(name, "interop-testing-rfc9580-rsa") {
            KeyProfile::Rfc9580Rsa
        } else if same_text(name, "interop-testing-rfc9580-cv448") {
            KeyProfile::Rfc9580Cv448
        } else {
            return Err(SopError::UnsupportedProfile);
        };
        Ok(GenerateKey { profile: p, ..self })
    }

    /// Generates a key without an encryption subkey.
    pub fn signing_only(self) -> (r: GenerateKey)
        ensures
            r.signing_only,
            r.profile == self.profile,
            r.key_password == self.key_password,
            r.user_ids == self.user_ids,
    {
        GenerateKey { signing_only: true, ..self }
    }

    /// Protects the generated key with a password.
    pub fn with_key_password(self, password: Vec<u8>) -> (r: GenerateKey)
        ensures
            opt_bytes(r.key_password) == Some(password@),
            r.profile == self.profile,
            r.signing_only == self.signing_only,
            r.user_ids == self.user_ids,
    {
        GenerateKey { key_password: Some(password), ..self }
    }

    /// Adds a user ID; the first becomes the primary one.
    pub fn userid(self, user_id: &str) -> (r: GenerateKey)
        ensures
            r.user_ids@.len() == self.user_ids@.len() + 1,
            forall|i: int| 0 <= i < self.user_ids@.len() ==> r.user_ids@[i] == self.user_ids@[i],
            r.user_ids@.last()@ == user_id@,
            r.profile == self.profile,
            r.signing_only == self.signing_only,
            r.key_password == self.key_password,
    {
        let mut g = self;
        g.user_ids.push(user_id.to_owned());
        g
    }

    /// Decides what key to generate: version 6 profiles always carry an
    /// encryption subkey; version 4 ones only where not signing-only.
    pub fn generate(&self) -> (r: KeyRecipe)
        ensures
            r.v6 == is_v6(self.profile),
            r.primary == profile_algorithms(self.profile).0,
            r.encryption == if is_v6(self.profile) || !self.signing_only {
                Some(profile_algorithms(self.profile).1)
            } else {
                None::<KeyAlgorithm>
            },
            self.user_ids@.len() == 0 ==> r.primary_user_id is None && r.other_user_ids@.len()
                == 0,
            self.user_ids@.len() > 0 ==> (r.primary_user_id matches Some(u) && u@
                == self.user_ids@[0]@) && r.other_user_ids@.len() == self.user_ids@.len() - 1
                && forall|i: int|
                0 <= i < r.other_user_ids@.len() ==> #[trigger] r.other_user_ids@[i]@
                    == self.user_ids@[i + 1]@,
            opt_bytes(r.password) == opt_normalized(self.key_password),
    {
        let (primary, enc, v6) = match self.profile {
            KeyProfile::EdDsa => (KeyAlgorithm::EdDsaLegacy, KeyAlgorithm::EcdhCurve25519, false),
            KeyProfile::Rfc4880 => (KeyAlgorithm::Rsa4096, KeyAlgorithm::Rsa4096, false),
            KeyProfile::NistP256 => (KeyAlgorithm::EcdsaP256, KeyAlgorithm::EcdhP256, false),
            KeyProfile::NistP384 => (KeyAlgorithm::EcdsaP384, KeyAlgorithm::EcdhP384, false),
            KeyProfile::NistP521 => (KeyAlgorithm::EcdsaP521, KeyAlgorithm::EcdhP521, false),
            KeyProfile::Rfc9580 => (KeyAlgorithm::Ed25519, KeyAlgorithm::X25519, true),
            KeyProfile::Rfc9580NistP => (KeyAlgorithm::EcdsaP256, KeyAlgorithm::EcdhP256, true),
            KeyProfile::Rfc9580Rsa => (KeyAlgorithm::Rsa4096, KeyAlgorithm::Rsa4096, true),
            KeyProfile::Rfc9580Cv448 => (KeyAlgorithm::Ed25519, KeyAlgorithm::X448, true),
        };
        let encryption = if v6 || !self.signing_only {
            Some(enc)
        } else {
            None
        };
        let mut primary_user_id: Option<String> = None;
        let mut other_user_ids: Vec<String> = Vec::new();
        let mut i: usize = 0;
        while i < self.user_ids.len()
            invariant
                i <= self.user_ids@.len(),
                i == 0 ==> primary_user_id is None,
                i > 0 ==> (primary_user_id matches Some(u) && u@ == self.user_ids@[0]@),
                other_user_ids@.len() == if i == 0 {
                    0
                } else {
                    i - 1
                },
                forall|j: int|
                    0 <= j < other_user_ids@.len() ==> #[trigger] other_user_ids@[j]@
                        == self.user_ids@[j + 1]@,
            decreases self.user_ids@.len() - i,
        {
            let u = self.user_ids[i].clone();
            if i == 0 {
                primary_user_id = Some(u);
            } else {
                other_user_ids.push(u);
            }
            i = i + 1;
        }
        KeyRecipe {
            v6,
            primary,
            encryption,
            primary_user_id,
            other_user_ids,
            password: normalize_opt(&self.key_password),
        }
    }
}

/// Configuration of a password change on keys.
pub struct ChangeKeyPassword {
    pub old_password: Option<Vec<u8>>,
    pub new_password: Option<Vec<u8>>,
}

impl ChangeKeyPassword {
    /// A change that neither removes nor sets a password.
    pub fn new() -> (r: ChangeKeyPassword)
        ensures
            r.old_password is None,
            r.new_password is None,
    {
        ChangeKeyPassword { old_password: None, new_password: None }
    }

    /// Sets the password that is set on the keys.
    pub fn new_key_password(self, password: Vec<u8>) -> (r: ChangeKeyPassword)
        ensures
            opt_bytes(r.new_password) == Some(password@),
            r.old_password == self.old_password,
    {
        ChangeKeyPassword { new_password: Some(password), ..self }
    }

    /// Sets the password that is removed from the keys.
    pub fn old_key_password(self, password: Vec<u8>) -> (r: ChangeKeyPassword)
        ensures
            opt_bytes(r.old_password) == Some(password@),
            r.new_password == self.new_password,
    {
        ChangeKeyPassword { old_password: Some(password), ..self }
    }

    /// The normalized passwords to remove and to set.
    pub fn passwords(&self) -> (r: (Option<Vec<u8>>, Option<Vec<u8>>))
        ensures
            opt_bytes(r.0) == opt_normalized(self.old_password),
            opt_bytes(r.1) == opt_normalized(self.new_password),
    {
        (normalize_opt(&self.old_password), normalize_opt(&self.new_password))
    }
}

/// Configuration of key revocation.
pub struct RevokeKey {
    /// Passwords tried on the keys, the empty password first.
    pub key_passwords: Vec<Vec<u8>>,
}

impl RevokeKey {
    /// A revocation that tries the empty password.
    pub fn new() -> (r: RevokeKey)
        ensures
            r.key_passwords@.len() == 1,
            r.key_passwords@[0]@.len() == 0,
    {
        let mut v: Vec<Vec<u8>> = Vec::new();
        v.push(Vec::new());
        RevokeKey { key_passwords: v }
    }

    /// Adds a password to try.
    pub fn with_key_password(self, password: Vec<u8>) -> (r: RevokeKey)
        ensures
            r.key_passwords@ == self.key_passwords@.push(password),
    {
        let mut k = self;
        k.key_passwords.push(password);
        k
    }

    /// The outcome over all keys, given for each whether one of the
    /// passwords made its revocation: every key must be revoked.
    pub fn keys_revoked(&self, revoked: &Vec<bool>) -> (r: Result<(), SopError>)
        ensures
            (forall|i: int| 0 <= i < revoked@.len() ==> #[trigger] revoked@[i]) ==> r == Ok::<
                (),
                SopError,
            >(()),
            !(forall|i: int| 0 <= i < revoked@.len() ==> #[trigger] revoked@[i]) ==> r == Err::<
                (),
                SopError,
            >(SopError::KeyCannotSign),
    {
        let mut i: usize = 0;
        while i < revoked.len()
            invariant
                i <= revoked@.len(),
                forall|j: int| 0 <= j < i ==> #[trigger] revoked@[j],
            decreases revoked@.len() - i,
        {
            if !revoked[i] {
                return Err(SopError::KeyCannotSign);
            }
            i = i + 1;
        }
        Ok(())
    }
}

/// Configuration of certificate extraction from keys.
pub struct ExtractCert {}

impl ExtractCert {
    /// A certificate extraction.
    pub fn new() -> (r: ExtractCert) {
        ExtractCert {  }
    }
}

} // verus!
