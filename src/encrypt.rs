//! Configuration of encryption, and the choice of algorithms across
//! recipients.

use vstd::prelude::*;

use crate::error::SopError;
use crate::policy::{
    all_normalized, append_all, default_aead_algorithms, default_seipd_mechanisms,
    default_symmetric_algorithms, fallback_symmetric_algorithm, normalize_all, views,
};
use crate::prefs::{
    accepts, accepts_features, features_acceptance, lemma_narrowing_order_independent,
    lemma_retained_ext, list_acceptance, narrow_aead, narrow_ids, narrow_seipd, narrowed_all,
    opt_view, retained, AeadPref, Seipd,
};
use crate::sign::{Sign, SignAs, SignerKey, signer_fingerprints, signer_hash_prefs};

verus! {

/// The algorithm profile of an encryption.
#[derive(Clone, Copy, Debug, PartialEq, Eq, Structural)]
pub enum EncryptProfile {
    Rfc4880,
    Rfc9580,
}

/// How the plaintext is encrypted.
#[derive(Clone, Copy, Debug, PartialEq, Eq, Structural)]
pub enum EncryptAs {
    Binary,
    Text,
}

/// What a recipient certificate declares at the reference time, and its
/// encryption-capable component keys there, by fingerprint.
pub struct Recipient {
    pub symmetric_prefs: Option<Vec<u8>>,
    pub aead_prefs: Option<Vec<AeadPref>>,
    pub features: Option<u8>,
    pub encryption_keys: Vec<Vec<u8>>,
}

/// Configuration of an encryption.
pub struct Encrypt {
    pub armor: bool,
    pub profile: EncryptProfile,
    pub mode: EncryptAs,
    /// Acceptable symmetric algorithms, most preferred first.
    pub symmetric_algorithms: Vec<u8>,
    /// Acceptable AEAD choices, most preferred first.
    pub aead_algorithms: Vec<AeadPref>,
    /// Acceptable encryption-layer mechanisms, most preferred first.
    pub seipd: Vec<Seipd>,
    /// Fingerprints of the component keys encrypted to.
    pub recipients: Vec<Vec<u8>>,
    /// Passwords the session key is also encrypted with.
    pub skesk_passwords: Vec<Vec<u8>>,
    /// Signing configuration, for encrypting and signing at once.
    pub sign: Sign,
}

/// The decisions that an encryption pass works by.
pub struct EncryptPlan {
    pub symmetric_algorithm: u8,
    pub aead: AeadPref,
    pub seipd: Seipd,
    /// Normalized passwords.
    pub passwords: Vec<Vec<u8>>,
    pub armor: bool,
}

/// The name of each profile, and what it means.
pub open spec fn profile_names() -> Seq<(Seq<char>, Seq<char>)> {
    seq![
        ("rfc4880"@, "use algorithms from RFC 4880"@),
        ("rfc9580"@, "use algorithms from RFC 9580"@),
    ]
}

/// The profile a name selects; "default" selects the first.
pub open spec fn profile_of_name(name: Seq<char>) -> Option<EncryptProfile> {
    if name == "rfc4880"@ || name == "default"@ {
        Some(EncryptProfile::Rfc4880)
    } else if name == "rfc9580"@ {
        Some(EncryptProfile::Rfc9580)
    } else {
        None
    }
}

/// The symmetric algorithm used: the first acceptable one, else AES-128.
pub open spec fn chosen_symmetric(algos: Seq<u8>) -> u8 {
    if algos.len() > 0 {
        algos[0]
    } else {
        7
    }
}

/// The AEAD choice used: the first acceptable one, else OCB over AES-128.
pub open spec fn chosen_aead(algos: Seq<AeadPref>) -> AeadPref {
    if algos.len() > 0 {
        algos[0]
    } else {
        AeadPref { sym: 7, aead: 2 }
    }
}

/// The mechanism used: with recipients, the first that all accept, else
/// version 1; without, the one that the profile implies.
pub open spec fn chosen_seipd(
    has_recipients: bool,
    seipd: Seq<Seipd>,
    profile: EncryptProfile,
) -> Seipd {
    if has_recipients {
        if seipd.len() > 0 {
            seipd[0]
        } else {
            Seipd::Seipd1
        }
    } else {
        match profile {
            EncryptProfile::Rfc4880 => Seipd::Seipd1,
            EncryptProfile::Rfc9580 => Seipd::Seipd2,
        }
    }
}

/// The symmetric preferences of each recipient, in order.
pub open spec fn recipient_symmetric_prefs(rs: Seq<Recipient>) -> Seq<Option<Seq<u8>>> {
    Seq::new(rs.len(), |i: int| opt_view(rs[i].symmetric_prefs))
}

/// The AEAD preferences of each recipient, in order.
pub open spec fn recipient_aead_prefs(rs: Seq<Recipient>) -> Seq<Option<Seq<AeadPref>>> {
    Seq::new(rs.len(), |i: int| opt_view(rs[i].aead_prefs))
}

/// The features byte of each recipient, in order.
pub open spec fn recipient_features(rs: Seq<Recipient>) -> Seq<Option<u8>> {
    Seq::new(rs.len(), |i: int| rs[i].features)
}

/// The encryption keys of all recipients, in order.
pub open spec fn recipient_keys(rs: Seq<Recipient>) -> Seq<Seq<u8>>
    decreases rs.len(),
{
    if rs.len() == 0 {
        Seq::<Seq<u8>>::empty()
    } else {
        recipient_keys(rs.drop_last()) + views(rs.last().encryption_keys@)
    }
}

/// Whether every recipient has an encryption-capable key.
pub open spec fn all_can_encrypt(rs: Seq<Recipient>) -> bool {
    forall|i: int| 0 <= i < rs.len() ==> #[trigger] rs[i].encryption_keys@.len() > 0
}

/// Whether two strings hold the same characters.
pub fn same_text(a: &str, b: &str) -> (r: bool)
    ensures
        r == (a@ == b@),
{
    a.to_owned() == b.to_owned()
}

impl Encrypt {
    /// An armored, binary encryption under the first profile, with the
    /// default algorithm lists and no recipients, passwords or signers.
    pub fn new() -> (r: Encrypt)
        ensures
            r.armor,
            r.profile == EncryptProfile::Rfc4880,
            r.mode == EncryptAs::Binary,
            r.symmetric_algorithms@ == seq![9u8, 8u8, 7u8],
            r.aead_algorithms@ == seq![
                AeadPref { sym: 9, aead: 2 },
                AeadPref { sym: 8, aead: 2 },
                AeadPref { sym: 7, aead: 2 },
                AeadPref { sym: 9, aead: 1 },
                AeadPref { sym: 8, aead: 1 },
                AeadPref { sym: 7, aead: 1 },
            ],
            r.seipd@ == seq![Seipd::Seipd2, Seipd::Seipd1],
            r.recipients@.len() == 0,
            r.skesk_passwords@.len() == 0,
            r.sign.mode == SignAs::Binary,
            r.sign.signers@.len() == 0,
    {
        Encrypt {
            armor: true,
            profile: EncryptProfile::Rfc4880,
            mode: EncryptAs::Binary,
            symmetric_algorithms: default_symmetric_algorithms(),
            aead_algorithms: default_aead_algorithms(),
            seipd: default_seipd_mechanisms(),
            recipients: Vec::new(),
            skesk_passwords: Vec::new(),
            sign: Sign::new(),
        }
    }

    /// The profiles offered, by name and description.
    pub fn list_profiles(&self) -> (r: Vec<(String, String)>)
        ensures
            r@.len() == 2,
            forall|i: int|
                0 <= i < 2 ==> (#[trigger] r@[i]).0@ == profile_names()[i].0 && r@[i].1@
                    == profile_names()[i].1,
    {
        let mut v: Vec<(String, String)> = Vec::new();
        v.push(("rfc4880".to_owned(), "use algorithms from RFC 4880".to_owned()));
        v.push(("rfc9580".to_owned(), "use algorithms from RFC 9580".to_owned()));
        v
    }

    /// Selects a profile by name.
    pub fn profile(self, name: &str) -> (r: Result<Encrypt, SopError>)
        ensures
            match profile_of_name(name@) {
                None => r == Err::<Encrypt, SopError>(SopError::UnsupportedProfile),
                Some(p) => r == Ok::<Encrypt, SopError>(Encrypt { profile: p, ..self }),
            },
    {
        let p = if same_text(name, "rfc4880") || same_text(name, "default") {
            EncryptProfile::Rfc4880
        } else if same_text(name, "rfc9580") {
            EncryptProfile::Rfc9580
        } else {
            return Err(SopError::UnsupportedProfile);
        };
        Ok(Encrypt { profile: p, ..self })
    }

    /// Writes binary output instead of armor.
    pub fn no_armor(self) -> (r: Encrypt)
        ensures
            r == (Encrypt { armor: false, ..self }),
    {
        Encrypt { armor: false, ..self }
    }

    /// Sets the encryption mode; signatures made alongside follow it.
    pub fn mode(self, mode: EncryptAs) -> (r: Encrypt)
        ensures
            r.mode == mode,
            r.sign.mode == match mode {
                EncryptAs::Binary => SignAs::Binary,
                EncryptAs::Text => SignAs::Text,
            },
            r.sign.hash_algos@ == self.sign.hash_algos@,
            r.sign.signers@ == self.sign.signers@,
            r.sign.with_key_password@ == self.sign.with_key_password@,
            r.armor == self.armor && r.profile == self.profile,
            r.symmetric_algorithms@ == self.symmetric_algorithms@,
            r.aead_algorithms@ == self.aead_algorithms@,
            r.seipd@ == self.seipd@,
            r.recipients@ == self.recipients@,
            r.skesk_passwords@ == self.skesk_passwords@,
    {
        let sign_mode = match mode {
            EncryptAs::Binary => SignAs::Binary,
            EncryptAs::Text => SignAs::Text,
        };
        let sign = self.sign.mode(sign_mode);
        Encrypt { mode, sign, ..self }
    }

    /// Adds keys to sign with.
    pub fn sign_with_keys(self, keys: &Vec<SignerKey>) -> (r: Encrypt)
        ensures
            r.sign.hash_algos@ == narrowed_all(
                self.sign.hash_algos@,
                signer_hash_prefs(keys@),
                list_acceptance(),
            ),
            views(r.sign.signers@) == views(self.sign.signers@) + signer_fingerprints(keys@),
            r.sign.with_key_password@ == self.sign.with_key_password@,
            r.sign.mode == self.sign.mode,
            r.armor == self.armor && r.profile == self.profile && r.mode == self.mode,
            r.symmetric_algorithms@ == self.symmetric_algorithms@,
            r.aead_algorithms@ == self.aead_algorithms@,
            r.seipd@ == self.seipd@,
            r.recipients@ == self.recipients@,
            r.skesk_passwords@ == self.skesk_passwords@,
    {
        let sign = self.sign.keys(keys);
        Encrypt { sign, ..self }
    }

    /// Adds a password for protected signing keys.
    pub fn with_key_password(self, password: Vec<u8>) -> (r: Encrypt)
        ensures
            r.sign.with_key_password@ == self.sign.with_key_password@.push(password),
            r.sign.hash_algos@ == self.sign.hash_algos@,
            r.sign.signers@ == self.sign.signers@,
            r.sign.mode == self.sign.mode,
            r.armor == self.armor && r.profile == self.profile && r.mode == self.mode,
            r.symmetric_algorithms@ == self.symmetric_algorithms@,
            r.aead_algorithms@ == self.aead_algorithms@,
            r.seipd@ == self.seipd@,
            r.recipients@ == self.recipients@,
            r.skesk_passwords@ == self.skesk_passwords@,
    {
        let sign = self.sign.with_key_password(password);
        Encrypt { sign, ..self }
    }

    /// Adds a password to encrypt the session key with.
    pub fn with_password(self, password: Vec<u8>) -> (r: Encrypt)
        ensures
            r.skesk_passwords@ == self.skesk_passwords@.push(password),
            r.armor == self.armor && r.profile == self.profile && r.mode == self.mode,
            r.symmetric_algorithms@ == self.symmetric_algorithms@,
            r.aead_algorithms@ == self.aead_algorithms@,
            r.seipd@ == self.seipd@,
            r.recipients@ == self.recipients@,
            r.sign == self.sign,
    {
        let mut e = self;
        e.skesk_passwords.push(password);
        e
    }

    /// Adds a recipient certificate: the algorithm lists are narrowed to what
    /// it declares, and its encryption-capable keys become recipients. A
    /// certificate without such keys cannot be encrypted to.
    pub fn add_cert(self, cert: &Recipient) -> (r: Result<Encrypt, SopError>)
        ensures
            cert.encryption_keys@.len() == 0 ==> r == Err::<Encrypt, SopError>(
                SopError::CertCannotEncrypt,
            ),
            cert.encryption_keys@.len() > 0 ==> (r matches Ok(e)
                && e.symmetric_algorithms@ == retained(
                self.symmetric_algorithms@,
                |a: u8| accepts(opt_view(cert.symmetric_prefs), a),
            ) && e.aead_algorithms@ == retained(
                self.aead_algorithms@,
                |a: AeadPref| accepts(opt_view(cert.aead_prefs), a),
            ) && e.seipd@ == retained(
                self.seipd@,
                |s: Seipd| accepts_features(cert.features, s),
            ) && views(e.recipients@) == views(self.recipients@) + views(
                cert.encryption_keys@,
            ) && e.armor == self.armor && e.profile == self.profile && e.mode == self.mode
                && e.skesk_passwords@ == self.skesk_passwords@ && e.sign == self.sign),
    {
        if cert.encryption_keys.len() == 0 {
            return Err(SopError::CertCannotEncrypt);
        }
        let mut e = self;
        e.symmetric_algorithms = narrow_ids(&e.symmetric_algorithms, &cert.symmetric_prefs);
        e.aead_algorithms = narrow_aead(&e.aead_algorithms, &cert.aead_prefs);
        e.seipd = narrow_seipd(&e.seipd, cert.features);
        append_all(&mut e.recipients, &cert.encryption_keys);
        Ok(e)
    }

    /// Adds recipient certificates in order, stopping at the first that
    /// cannot be encrypted to.
    pub fn with_certs(self, certs: &Vec<Recipient>) -> (r: Result<Encrypt, SopError>)
        ensures
            !all_can_encrypt(certs@) ==> r == Err::<Encrypt, SopError>(
                SopError::CertCannotEncrypt,
            ),
            all_can_encrypt(certs@) ==> (r matches Ok(e) && e.symmetric_algorithms@
                == narrowed_all(
                self.symmetric_algorithms@,
                recipient_symmetric_prefs(certs@),
                list_acceptance(),
            ) && e.aead_algorithms@ == narrowed_all(
                self.aead_algorithms@,
                recipient_aead_prefs(certs@),
                list_acceptance(),
            ) && e.seipd@ == narrowed_all(
                self.seipd@,
                recipient_features(certs@),
                features_acceptance(),
            ) && views(e.recipients@) == views(self.recipients@) + recipient_keys(certs@)
                && e.armor == self.armor && e.profile == self.profile && e.mode == self.mode
                && e.skesk_passwords@ == self.skesk_passwords@ && e.sign == self.sign),
    {
        let ghost s0 = self.symmetric_algorithms@;
        let ghost a0 = self.aead_algorithms@;
        let ghost d0 = self.seipd@;
        let ghost r0 = views(self.recipients@);
        let ghost armor = self.armor;
        let ghost profile = self.profile;
        let ghost mode = self.mode;
        let ghost pw0 = self.skesk_passwords@;
        let ghost sign0 = self.sign;
        let mut e = self;
        let mut i: usize = 0;
        while i < certs.len()
            invariant
                i <= certs.len(),
                all_can_encrypt(certs@.subrange(0, i as int)),
                e.symmetric_algorithms@ == narrowed_all(
                    s0,
                    recipient_symmetric_prefs(certs@.subrange(0, i as int)),
                    list_acceptance(),
                ),
                e.aead_algorithms@ == narrowed_all(
                    a0,
                    recipient_aead_prefs(certs@.subrange(0, i as int)),
                    list_acceptance(),
                ),
                e.seipd@ == narrowed_all(
                    d0,
                    recipient_features(certs@.subrange(0, i as int)),
                    features_acceptance(),
                ),
                views(e.recipients@) == r0 + recipient_keys(certs@.subrange(0, i as int)),
                e.armor == armor && e.profile == profile && e.mode == mode,
                e.skesk_passwords@ == pw0 && e.sign == sign0,
            decreases certs.len() - i,
        {
            let ghost prev = e;
            let cert = &certs[i];
            if cert.encryption_keys.len() == 0 {
                assert(!all_can_encrypt(certs@)) by {
                    assert(certs@[i as int].encryption_keys@.len() == 0);
                }
                return Err(SopError::CertCannotEncrypt);
            }
            e = match e.add_cert(cert) {
                Ok(n) => n,
                Err(err) => {
                    return Err(err);
                },
            };
            proof {
                let sub = certs@.subrange(0, i + 1);
                let sub0 = certs@.subrange(0, i as int);
                assert(sub.drop_last() == sub0);
                assert(sub.last() == certs@[i as int]);
                assert(recipient_symmetric_prefs(sub).drop_last() =~= recipient_symmetric_prefs(
                    sub0,
                ));
                assert(recipient_aead_prefs(sub).drop_last() =~= recipient_aead_prefs(sub0));
                assert(recipient_features(sub).drop_last() =~= recipient_features(sub0));
                let ps = recipient_symmetric_prefs(sub).last();
                let pa = recipient_aead_prefs(sub).last();
                let pf = recipient_features(sub).last();
                lemma_retained_ext(
                    prev.symmetric_algorithms@,
                    |a: u8| accepts(opt_view(cert.symmetric_prefs), a),
                    |a: u8| list_acceptance()(ps, a),
                );
                lemma_retained_ext(
                    prev.aead_algorithms@,
                    |a: AeadPref| accepts(opt_view(cert.aead_prefs), a),
                    |a: AeadPref| list_acceptance()(pa, a),
                );
                lemma_retained_ext(
                    prev.seipd@,
                    |s: Seipd| accepts_features(cert.features, s),
                    |s: Seipd| features_acceptance()(pf, s),
                );
                assert(views(e.recipients@) =~= r0 + recipient_keys(sub));
                assert forall|j: int| 0 <= j < sub.len() implies #[trigger] sub[j].encryption_keys@.len()
                    > 0 by {
                    if j < i {
                        assert(sub[j] == sub0[j]);
                        assert(sub0[j].encryption_keys@.len() > 0);
                    } else {
                        assert(sub[j] == certs@[i as int]);
                    }
                }
            }
            i = i + 1;
        }
        assert(certs@.subrange(0, certs@.len() as int) == certs@);
        Ok(e)
    }

    /// Ends configuration and decides how the plaintext is encrypted: a
    /// recipient or a password is needed.
    pub fn plaintext(&self) -> (r: Result<EncryptPlan, SopError>)
        ensures
            self.recipients@.len() == 0 && self.skesk_passwords@.len() == 0 ==> r == Err::<
                EncryptPlan,
                SopError,
            >(SopError::MissingArg),
            self.recipients@.len() > 0 || self.skesk_passwords@.len() > 0 ==> (r matches Ok(p)
                && p.symmetric_algorithm == chosen_symmetric(self.symmetric_algorithms@) && p.aead
                == chosen_aead(self.aead_algorithms@) && p.seipd == chosen_seipd(
                self.recipients@.len() > 0,
                self.seipd@,
                self.profile,
            ) && views(p.passwords@) == all_normalized(self.skesk_passwords@) && p.armor
                == self.armor),
    {
        if self.recipients.len() == 0 && self.skesk_passwords.len() == 0 {
            return Err(SopError::MissingArg);
        }
        let symmetric_algorithm = if self.symmetric_algorithms.len() > 0 {
            self.symmetric_algorithms[0]
        } else {
            fallback_symmetric_algorithm()
        };
        let aead = if self.aead_algorithms.len() > 0 {
            self.aead_algorithms[0]
        } else {
            AeadPref { sym: 7, aead: 2 }
        };
        let seipd = if self.recipients.len() > 0 {
            if self.seipd.len() > 0 {
                self.seipd[0]
            } else {
                Seipd::Seipd1
            }
        } else {
            match self.profile {
                EncryptProfile::Rfc4880 => Seipd::Seipd1,
                EncryptProfile::Rfc9580 => Seipd::Seipd2,
            }
        };
        Ok(
            EncryptPlan {
                symmetric_algorithm,
                aead,
                seipd,
                passwords: normalize_all(&self.skesk_passwords),
                armor: self.armor,
            },
        )
    }
}

proof fn lemma_same_members_mapped<P>(
    rs1: Seq<Recipient>,
    rs2: Seq<Recipient>,
    ps1: Seq<P>,
    ps2: Seq<P>,
    f: spec_fn(Recipient) -> P,
)
    requires
        forall|r: Recipient| rs1.contains(r) <==> rs2.contains(r),
        ps1.len() == rs1.len(),
        ps2.len() == rs2.len(),
        forall|i: int| 0 <= i < rs1.len() ==> #[trigger] ps1[i] == f(rs1[i]),
        forall|i: int| 0 <= i < rs2.len() ==> #[trigger] ps2[i] == f(rs2[i]),
    ensures
        forall|p: P| ps1.contains(p) <==> ps2.contains(p),
{
    assert forall|p: P| ps1.contains(p) <==> ps2.contains(p) by {
        if ps1.contains(p) {
            let i = choose|i: int| 0 <= i < ps1.len() && ps1[i] == p;
            assert(rs2.contains(rs1[i]));
            let j = choose|j: int| 0 <= j < rs2.len() && rs2[j] == rs1[i];
            assert(ps2[j] == p);
        }
        if ps2.contains(p) {
            let i = choose|i: int| 0 <= i < ps2.len() && ps2[i] == p;
            assert(rs1.contains(rs2[i]));
            let j = choose|j: int| 0 <= j < rs1.len() && rs1[j] == rs2[i];
            assert(ps1[j] == p);
        }
    }
}

/// With several recipients, one symmetric algorithm, one AEAD choice and one
/// mechanism are chosen, and reordering the recipients does not change them.
pub proof fn lemma_recipient_order_irrelevant(
    sym: Seq<u8>,
    aead: Seq<AeadPref>,
    seipd: Seq<Seipd>,
    rs1: Seq<Recipient>,
    rs2: Seq<Recipient>,
    profile: EncryptProfile,
)
    requires
        rs1.len() == rs2.len(),
        rs1.to_multiset() == rs2.to_multiset(),
    ensures
        chosen_symmetric(narrowed_all(sym, recipient_symmetric_prefs(rs1), list_acceptance()))
            == chosen_symmetric(
            narrowed_all(sym, recipient_symmetric_prefs(rs2), list_acceptance()),
        ),
        chosen_aead(narrowed_all(aead, recipient_aead_prefs(rs1), list_acceptance()))
            == chosen_aead(narrowed_all(aead, recipient_aead_prefs(rs2), list_acceptance())),
        chosen_seipd(
            rs1.len() > 0,
            narrowed_all(seipd, recipient_features(rs1), features_acceptance()),
            profile,
        ) == chosen_seipd(
            rs2.len() > 0,
            narrowed_all(seipd, recipient_features(rs2), features_acceptance()),
            profile,
        ),
{
    assert forall|r: Recipient| rs1.contains(r) <==> rs2.contains(r) by {
        rs1.to_multiset_ensures();
        rs2.to_multiset_ensures();
        let c1 = rs1.to_multiset().count(r);
        let c2 = rs2.to_multiset().count(r);
        assert(c1 == c2);
        assert(rs1.contains(r) <==> c1 > 0);
        assert(rs2.contains(r) <==> c2 > 0);
    }
    let s1 = recipient_symmetric_prefs(rs1);
    let s2 = recipient_symmetric_prefs(rs2);
    lemma_same_members_mapped(rs1, rs2, s1, s2, |r: Recipient| opt_view(r.symmetric_prefs));
    lemma_narrowing_order_independent(sym, s1, s2, list_acceptance());
    let a1 = recipient_aead_prefs(rs1);
    let a2 = recipient_aead_prefs(rs2);
    lemma_same_members_mapped(rs1, rs2, a1, a2, |r: Recipient| opt_view(r.aead_prefs));
    lemma_narrowing_order_independent(aead, a1, a2, list_acceptance());
    let f1 = recipient_features(rs1);
    let f2 = recipient_features(rs2);
    lemma_same_members_mapped(rs1, rs2, f1, f2, |r: Recipient| r.features);
    lemma_narrowing_order_independent(seipd, f1, f2, features_acceptance());
}

} // verus!
