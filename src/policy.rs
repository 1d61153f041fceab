//! Local algorithm policy and password handling, as the OpenPGP engine and
//! the operation interface define them.

use vstd::prelude::*;

use crate::prefs::{AeadPref, Seipd};

verus! {

/// Relies on `rpgpie::policy::PREFERRED_SYMMETRIC_KEY_ALGORITHMS`: AES-256,
/// AES-192, AES-128, by their algorithm IDs.
#[verifier::external_body]
pub(crate) fn default_symmetric_algorithms() -> (r: Vec<u8>)
    ensures
        r@ == seq![9u8, 8u8, 7u8],
{
    rpgpie::policy::PREFERRED_SYMMETRIC_KEY_ALGORITHMS.iter().map(|a| u8::from(*a)).collect()
}

/// Relies on `rpgpie::policy::PREFERRED_AEAD_ALGORITHMS`: OCB over AES-256,
/// AES-192, AES-128, then EAX over the same, by their algorithm IDs.
#[verifier::external_body]
pub(crate) fn default_aead_algorithms() -> (r: Vec<AeadPref>)
    ensures
        r@ == seq![
            AeadPref { sym: 9, aead: 2 },
            AeadPref { sym: 8, aead: 2 },
            AeadPref { sym: 7, aead: 2 },
            AeadPref { sym: 9, aead: 1 },
            AeadPref { sym: 8, aead: 1 },
            AeadPref { sym: 7, aead: 1 },
        ],
{
    rpgpie::policy::PREFERRED_AEAD_ALGORITHMS.iter().map(
        |(s, a)| AeadPref { sym: u8::from(*s), aead: u8::from(*a) },
    ).collect()
}

/// Relies on `rpgpie::policy::PREFERRED_SEIPD_MECHANISMS`: version 2, then
/// version 1.
#[verifier::external_body]
pub(crate) fn default_seipd_mechanisms() -> (r: Vec<Seipd>)
    ensures
        r@ == seq![Seipd::Seipd2, Seipd::Seipd1],
{
    rpgpie::policy::PREFERRED_SEIPD_MECHANISMS.iter().map(
        |m| match m {
            rpgpie::policy::Seipd::SEIPD1 => Seipd::Seipd1,
            rpgpie::policy::Seipd::SEIPD2 => Seipd::Seipd2,
        },
    ).collect()
}

/// Relies on `rpgpie::policy::PREFERRED_HASH_ALGORITHMS`: SHA-512, SHA-384,
/// SHA-256, by their algorithm IDs.
#[verifier::external_body]
pub(crate) fn default_hash_algorithms() -> (r: Vec<u8>)
    ensures
        r@ == seq![10u8, 9u8, 8u8],
{
    rpgpie::policy::PREFERRED_HASH_ALGORITHMS.iter().map(|a| u8::from(*a)).collect()
}

/// Relies on `pgp::crypto::sym::SymmetricKeyAlgorithm::default`: AES-128.
#[verifier::external_body]
pub(crate) fn fallback_symmetric_algorithm() -> (r: u8)
    ensures
        r == 7,
{
    u8::from(pgp::crypto::sym::SymmetricKeyAlgorithm::default())
}

/// Relies on `pgp::crypto::hash::HashAlgorithm::default`: SHA-256.
#[verifier::external_body]
pub(crate) fn fallback_hash_algorithm() -> (r: u8)
    ensures
        r == 8,
{
    u8::from(pgp::crypto::hash::HashAlgorithm::default())
}

/// What the operation interface makes of a password before use: trailing
/// whitespace is dropped.
pub uninterp spec fn normalized_of(password: Seq<u8>) -> Seq<u8>;

/// Relies on `sop::plumbing::PasswordsAreHumanReadable::normalized`: the
/// result is the password with its trailing whitespace cut off, a prefix of
/// it that depends on the password alone.
#[verifier::external_body]
pub(crate) fn normalize_password(password: &Vec<u8>) -> (r: Vec<u8>)
    ensures
        r@ == normalized_of(password@),
        r@.len() <= password@.len(),
        r@ == password@.subrange(0, r@.len() as int),
{
    sop::plumbing::PasswordsAreHumanReadable::normalized(
        &sop::Password::new_unchecked(password.clone()),
    ).to_vec()
}

/// The normalized form of each password, in order.
pub open spec fn all_normalized(passwords: Seq<Vec<u8>>) -> Seq<Seq<u8>> {
    Seq::new(passwords.len(), |i: int| normalized_of(passwords[i]@))
}

/// The passwords that are tried on a protected key: the normalized forms of
/// those given, or the empty password alone where none was given.
pub open spec fn password_candidates(passwords: Seq<Vec<u8>>) -> Seq<Seq<u8>> {
    if passwords.len() == 0 {
        seq![Seq::<u8>::empty()]
    } else {
        all_normalized(passwords)
    }
}

/// The view of each vector of a sequence.
pub open spec fn views(s: Seq<Vec<u8>>) -> Seq<Seq<u8>> {
    Seq::new(s.len(), |i: int| s[i]@)
}

/// Normalizes each password, in order.
pub fn normalize_all(passwords: &Vec<Vec<u8>>) -> (r: Vec<Vec<u8>>)
    ensures
        views(r@) == all_normalized(passwords@),
{
    let mut out: Vec<Vec<u8>> = Vec::new();
    let mut i: usize = 0;
    while i < passwords.len()
        invariant
            i <= passwords.len(),
            out@.len() == i,
            forall|j: int| 0 <= j < i ==> #[trigger] out@[j]@ == normalized_of(passwords@[j]@),
        decreases passwords.len() - i,
    {
        let n = normalize_password(&passwords[i]);
        out.push(n);
        i = i + 1;
    }
    assert(views(out@) =~= all_normalized(passwords@));
    out
}

/// The passwords to try on a protected key, in order.
pub fn candidate_passwords(passwords: &Vec<Vec<u8>>) -> (r: Vec<Vec<u8>>)
    ensures
        views(r@) == password_candidates(passwords@),
{
    if passwords.len() == 0 {
        let mut out: Vec<Vec<u8>> = Vec::new();
        out.push(Vec::new());
        assert(views(out@) =~= seq![Seq::<u8>::empty()]);
        out
    } else {
        normalize_all(passwords)
    }
}

/// Appends copies of byte strings, in order.
pub fn append_all(to: &mut Vec<Vec<u8>>, items: &Vec<Vec<u8>>)
    ensures
        views(final(to)@) == views(old(to)@) + views(items@),
{
    let ghost before = views(to@);
    let mut i: usize = 0;
    while i < items.len()
        invariant
            i <= items.len(),
            views(to@) == before + views(items@.subrange(0, i as int)),
        decreases items.len() - i,
    {
        let c = items[i].clone();
        let ghost prev = to@;
        to.push(c);
        assert(views(to@) =~= views(prev).push(items@[i as int]@));
        assert(views(items@.subrange(0, i + 1)) =~= views(items@.subrange(0, i as int)).push(
            items@[i as int]@,
        ));
        i = i + 1;
    }
    assert(items@.subrange(0, items@.len() as int) == items@);
}

} // verus!
