//! Configuration of detached and inline signing.

use vstd::prelude::*;

use crate::error::SopError;
use crate::policy::{
    candidate_passwords, default_hash_algorithms, fallback_hash_algorithm, password_candidates,
    views,
};
use crate::prefs::{
    accepts, lemma_retained_ext, list_acceptance, narrow_ids, narrowed_all, opt_view, retained,
};

verus! {

/// How the data is signed.
#[derive(Clone, Copy, Debug, PartialEq, Eq, Structural)]
pub enum SignAs {
    Binary,
    Text,
}

/// How inline-signed data is written.
#[derive(Clone, Copy, Debug, PartialEq, Eq, Structural)]
pub enum InlineSignAs {
    Binary,
    Text,
    /// The cleartext signature framework, which is always armored.
    ClearSigned,
}

/// What the signing logic reads of a signing key: its fingerprint and the
/// hash algorithms it declares at the reference time, if any.
pub struct SignerKey {
    pub fingerprint: Vec<u8>,
    pub hash_prefs: Option<Vec<u8>>,
}

/// The hash preferences of each signer key, in order.
pub open spec fn signer_hash_prefs(keys: Seq<SignerKey>) -> Seq<Option<Seq<u8>>> {
    Seq::new(keys.len(), |i: int| opt_view(keys[i].hash_prefs))
}

/// The fingerprint of each signer key, in order.
pub open spec fn signer_fingerprints(keys: Seq<SignerKey>) -> Seq<Seq<u8>> {
    Seq::new(keys.len(), |i: int| keys[i].fingerprint@)
}

/// The hash algorithm used: the first acceptable one, else SHA-256.
pub open spec fn chosen_hash(hash_algos: Seq<u8>) -> u8 {
    if hash_algos.len() > 0 {
        hash_algos[0]
    } else {
        8
    }
}

/// Configuration of a signing operation.
pub struct Sign {
    pub mode: SignAs,
    /// Acceptable hash algorithms, most preferred first.
    pub hash_algos: Vec<u8>,
    /// Passwords for protected signing keys.
    pub with_key_password: Vec<Vec<u8>>,
    /// Fingerprints of the signing keys.
    pub signers: Vec<Vec<u8>>,
}

/// The decisions that a signing pass works by.
pub struct SignPlan {
    pub mode: SignAs,
    pub hash_algo: u8,
    /// Passwords to try on each signing key, in order.
    pub passwords: Vec<Vec<u8>>,
}

impl Sign {
    /// A signing operation with no keys, binary mode and the default hash
    /// algorithms.
    pub fn new() -> (r: Sign)
        ensures
            r.mode == SignAs::Binary,
            r.hash_algos@ == seq![10u8, 9u8, 8u8],
            r.with_key_password@.len() == 0,
            r.signers@.len() == 0,
    {
        Sign {
            mode: SignAs::Binary,
            hash_algos: default_hash_algorithms(),
            with_key_password: Vec::new(),
            signers: Vec::new(),
        }
    }

    /// Sets the signing mode.
    pub fn mode(self, mode: SignAs) -> (r: Sign)
        ensures
            r.mode == mode,
            r.hash_algos@ == self.hash_algos@,
            r.with_key_password@ == self.with_key_password@,
            r.signers@ == self.signers@,
    {
        Sign { mode, ..self }
    }

    /// Adds a password for protected signing keys.
    pub fn with_key_password(self, password: Vec<u8>) -> (r: Sign)
        ensures
            r.mode == self.mode,
            r.hash_algos@ == self.hash_algos@,
            r.with_key_password@ == self.with_key_password@.push(password),
            r.signers@ == self.signers@,
    {
        let mut s = self;
        s.with_key_password.push(password);
        s
    }

    /// Adds a signing key; the hash algorithms are narrowed to those it
    /// declares.
    pub fn add_signing_key(self, key: &SignerKey) -> (r: Sign)
        ensures
            r.mode == self.mode,
            r.hash_algos@ == retained(
                self.hash_algos@,
                |a: u8| accepts(opt_view(key.hash_prefs), a),
            ),
            r.with_key_password@ == self.with_key_password@,
            views(r.signers@) == views(self.signers@).push(key.fingerprint@),
    {
        let mut s = self;
        s.hash_algos = narrow_ids(&s.hash_algos, &key.hash_prefs);
        let ghost before = s.signers@;
        s.signers.push(key.fingerprint.clone());
        assert(views(s.signers@) =~= views(before).push(key.fingerprint@));
        s
    }

    /// Adds signing keys in order.
    pub fn keys(self, keys: &Vec<SignerKey>) -> (r: Sign)
        ensures
            r.mode == self.mode,
            r.hash_algos@ == narrowed_all(
                self.hash_algos@,
                signer_hash_prefs(keys@),
                list_acceptance(),
            ),
            r.with_key_password@ == self.with_key_password@,
            views(r.signers@) == views(self.signers@) + signer_fingerprints(keys@),
    {
        let ghost h0 = self.hash_algos@;
        let ghost s0 = views(self.signers@);
        let mut s = self;
        let mut i: usize = 0;
        while i < keys.len()
            invariant
                i <= keys.len(),
                s.mode == self.mode,
                s.with_key_password@ == self.with_key_password@,
                s.hash_algos@ == narrowed_all(
                    h0,
                    signer_hash_prefs(keys@.subrange(0, i as int)),
                    list_acceptance(),
                ),
                views(s.signers@) == s0 + signer_fingerprints(keys@.subrange(0, i as int)),
            decreases keys.len() - i,
        {
            let ghost prev = s.hash_algos@;
            s = s.add_signing_key(&keys[i]);
            proof {
                let ps = signer_hash_prefs(keys@.subrange(0, i + 1));
                assert(ps.drop_last() =~= signer_hash_prefs(keys@.subrange(0, i as int)));
                assert(ps.last() == opt_view(keys@[i as int].hash_prefs));
                let p = ps.last();
                lemma_retained_ext(
                    prev,
                    |a: u8| accepts(opt_view(keys@[i as int].hash_prefs), a),
                    |a: u8| list_acceptance()(p, a),
                );
                assert(signer_fingerprints(keys@.subrange(0, i + 1)) =~= signer_fingerprints(
                    keys@.subrange(0, i as int),
                ).push(keys@[i as int].fingerprint@));
                assert(views(s.signers@) =~= s0 + signer_fingerprints(keys@.subrange(0, i + 1)));
            }
            i = i + 1;
        }
        assert(keys@.subrange(0, keys@.len() as int) == keys@);
        s
    }

    /// Decides how the data is signed: at least one signer is needed; the
    /// hash algorithm is the first acceptable one; each signing key is tried
    /// with the given passwords, or with the empty password where none was
    /// given.
    pub fn plan(&self) -> (r: Result<SignPlan, SopError>)
        ensures
            self.signers@.len() == 0 ==> r == Err::<SignPlan, SopError>(SopError::MissingArg),
            self.signers@.len() > 0 ==> (r matches Ok(p) && p.mode == self.mode && p.hash_algo
                == chosen_hash(self.hash_algos@) && views(p.passwords@) == password_candidates(
                self.with_key_password@,
            )),
    {
        if self.signers.len() == 0 {
            return Err(SopError::MissingArg);
        }
        let hash_algo = if self.hash_algos.len() > 0 {
            self.hash_algos[0]
        } else {
            fallback_hash_algorithm()
        };
        Ok(SignPlan { mode: self.mode, hash_algo, passwords: candidate_passwords(&self.with_key_password) })
    }
}

/// Configuration of an inline-signing operation.
pub struct InlineSign {
    pub armor: bool,
    pub sign: Sign,
    pub mode: InlineSignAs,
}

impl InlineSign {
    /// An armored, binary inline-signing operation with no keys.
    pub fn new() -> (r: InlineSign)
        ensures
            r.armor,
            r.mode == InlineSignAs::Binary,
            r.sign.hash_algos@ == seq![10u8, 9u8, 8u8],
            r.sign.with_key_password@.len() == 0,
            r.sign.signers@.len() == 0,
    {
        InlineSign { armor: true, sign: Sign::new(), mode: InlineSignAs::Binary }
    }

    /// Writes binary output instead of armor.
    pub fn no_armor(self) -> (r: InlineSign)
        ensures
            !r.armor,
            r.mode == self.mode,
            r.sign == self.sign,
    {
        InlineSign { armor: false, ..self }
    }

    /// Sets the output form.
    pub fn mode(self, mode: InlineSignAs) -> (r: InlineSign)
        ensures
            r.armor == self.armor,
            r.mode == mode,
            r.sign == self.sign,
    {
        InlineSign { mode, ..self }
    }

    /// Adds signing keys in order.
    pub fn keys(self, keys: &Vec<SignerKey>) -> (r: InlineSign)
        ensures
            r.armor == self.armor,
            r.mode == self.mode,
            r.sign.hash_algos@ == narrowed_all(
                self.sign.hash_algos@,
                signer_hash_prefs(keys@),
                list_acceptance(),
            ),
            r.sign.with_key_password@ == self.sign.with_key_password@,
            views(r.sign.signers@) == views(self.sign.signers@) + signer_fingerprints(keys@),
    {
        InlineSign { armor: self.armor, mode: self.mode, sign: self.sign.keys(keys) }
    }

    /// Adds a password for protected signing keys.
    pub fn with_key_password(self, password: Vec<u8>) -> (r: InlineSign)
        ensures
            r.armor == self.armor,
            r.mode == self.mode,
            r.sign.with_key_password@ == self.sign.with_key_password@.push(password),
            r.sign.hash_algos@ == self.sign.hash_algos@,
            r.sign.signers@ == self.sign.signers@,
    {
        InlineSign {
            armor: self.armor,
            mode: self.mode,
            sign: self.sign.with_key_password(password),
        }
    }

    /// Ends configuration: at least one signer is needed, and the cleartext
    /// form cannot be written unarmored.
    pub fn data(self) -> (r: Result<InlineSign, SopError>)
        ensures
            self.sign.signers@.len() == 0 ==> r == Err::<InlineSign, SopError>(
                SopError::MissingArg,
            ),
            self.sign.signers@.len() > 0 && !self.armor && self.mode == InlineSignAs::ClearSigned
                ==> r == Err::<InlineSign, SopError>(SopError::IncompatibleOptions),
            self.sign.signers@.len() > 0 && !(!self.armor && self.mode
                == InlineSignAs::ClearSigned) ==> r == Ok::<InlineSign, SopError>(self),
    {
        if self.sign.signers.len() == 0 {
            return Err(SopError::MissingArg);
        }
        if !self.armor && self.mode == InlineSignAs::ClearSigned {
            return Err(SopError::IncompatibleOptions);
        }
        Ok(self)
    }
}

/// The positions of `true` in a sequence, in order.
pub open spec fn true_positions(s: Seq<bool>) -> Seq<usize>
    decreases s.len(),
{
    if s.len() == 0 {
        Seq::<usize>::empty()
    } else if s.last() {
        true_positions(s.drop_last()).push((s.len() - 1) as usize)
    } else {
        true_positions(s.drop_last())
    }
}

/// The keys that made a signature, given for each signing key whether one of
/// its passwords worked. A key that could not sign is passed over; where no
/// key signed, the keys are taken to be locked.
pub fn signing_keys_used(signed: &Vec<bool>) -> (r: Result<Vec<usize>, SopError>)
    ensures
        true_positions(signed@).len() == 0 ==> r == Err::<Vec<usize>, SopError>(
            SopError::KeyIsProtected,
        ),
        true_positions(signed@).len() > 0 ==> (r matches Ok(v) && v@ == true_positions(signed@)),
{
    let mut out: Vec<usize> = Vec::new();
    let mut i: usize = 0;
    while i < signed.len()
        invariant
            i <= signed.len(),
            out@ == true_positions(signed@.subrange(0, i as int)),
        decreases signed.len() - i,
    {
        proof {
            let sub = signed@.subrange(0, i + 1);
            assert(sub.drop_last() == signed@.subrange(0, i as int));
            assert(sub.last() == signed@[i as int]);
        }
        if signed[i] {
            out.push(i);
        }
        i = i + 1;
    }
    assert(signed@.subrange(0, signed@.len() as int) == signed@);
    if out.len() == 0 {
        Err(SopError::KeyIsProtected)
    } else {
        Ok(out)
    }
}

} // verus!
