//! Verification records, and the verify operations that collect them.

use vstd::prelude::*;

use crate::error::SopError;
use crate::policy::{append_all, views};

verus! {

/// How a data signature was made.
#[derive(Clone, Copy, Debug, PartialEq, Eq, Structural)]
pub enum SignatureMode {
    Binary,
    Text,
}

/// Evidence of one signature that validated against a supplied certificate.
pub struct Verification {
    /// Signature creation time, in seconds since the Unix epoch.
    pub created: u64,
    /// Fingerprint of the signing component key, in lowercase hex.
    pub key_fp: String,
    /// Fingerprint of the certificate, in lowercase hex.
    pub cert_fp: String,
    pub mode: SignatureMode,
}

/// The sixteen lowercase hex digits.
pub open spec fn hex_digits() -> Seq<char> {
    seq!['0', '1', '2', '3', '4', '5', '6', '7', '8', '9', 'a', 'b', 'c', 'd', 'e', 'f']
}

/// Two lowercase hex digits for each byte, the high nibble first.
pub open spec fn hex_of(b: Seq<u8>) -> Seq<char>
    decreases b.len(),
{
    if b.len() == 0 {
        Seq::<char>::empty()
    } else {
        hex_of(b.drop_last()) + seq![
            hex_digits()[(b.last() / 16) as int],
            hex_digits()[(b.last() % 16) as int],
        ]
    }
}

/// Relies on `hex::encode`: two lowercase hex digits per byte, high nibble
/// first.
#[verifier::external_body]
fn to_hex(b: &[u8]) -> (r: String)
    ensures
        r@ == hex_of(b@),
{
    hex::encode(b)
}

/// The mode of a data signature by its signature type: 0 binary, 1 text.
pub open spec fn mode_of_type(sig_type: u8) -> Option<SignatureMode> {
    if sig_type == 0 {
        Some(SignatureMode::Binary)
    } else if sig_type == 1 {
        Some(SignatureMode::Text)
    } else {
        None
    }
}

/// Whether a record describes a signature with these facts.
pub open spec fn describes(
    v: Verification,
    created: u64,
    key_fp: Seq<u8>,
    cert_fp: Seq<u8>,
    sig_type: u8,
) -> bool {
    &&& v.created == created
    &&& v.key_fp@ == hex_of(key_fp)
    &&& v.cert_fp@ == hex_of(cert_fp)
    &&& mode_of_type(sig_type) == Some(v.mode)
}

/// Builds the record of a validated data signature; a signature that is not
/// over data, in binary or text mode, gives no record.
pub fn to_verification(created: u64, key_fp: &Vec<u8>, cert_fp: &Vec<u8>, sig_type: u8) -> (r:
    Result<Verification, SopError>)
    ensures
        mode_of_type(sig_type) is None ==> r == Err::<Verification, SopError>(SopError::BadData),
        mode_of_type(sig_type) is Some ==> (r matches Ok(v) && describes(
            v,
            created,
            key_fp@,
            cert_fp@,
            sig_type,
        )),
{
    let mode = if sig_type == 0 {
        SignatureMode::Binary
    } else if sig_type == 1 {
        SignatureMode::Text
    } else {
        return Err(SopError::BadData);
    };
    Ok(
        Verification {
            created,
            key_fp: to_hex(key_fp.as_slice()),
            cert_fp: to_hex(cert_fp.as_slice()),
            mode,
        },
    )
}

/// One signature checked against one component key of one supplied
/// certificate, as the OpenPGP engine reports it.
pub struct SignatureCheck {
    /// Signature creation time, in seconds since the Unix epoch.
    pub created: u64,
    pub sig_type: u8,
    pub key_fp: Vec<u8>,
    pub cert_fp: Vec<u8>,
    /// Whether the key was a valid signing-capable key at the signature's
    /// creation time.
    pub key_valid: bool,
    /// Whether the signature verified cryptographically under the key.
    pub verified: bool,
}

/// Whether a check yields a record.
pub open spec fn accepted(c: SignatureCheck) -> bool {
    c.key_valid && c.verified && mode_of_type(c.sig_type) is Some
}

/// The checks that yield records, in order.
pub open spec fn accepted_checks(cs: Seq<SignatureCheck>) -> Seq<SignatureCheck>
    decreases cs.len(),
{
    if cs.len() == 0 {
        Seq::<SignatureCheck>::empty()
    } else if accepted(cs.last()) {
        accepted_checks(cs.drop_last()).push(cs.last())
    } else {
        accepted_checks(cs.drop_last())
    }
}

/// Whether `vs` holds one record for each accepted check, in order.
pub open spec fn records_for(vs: Seq<Verification>, cs: Seq<SignatureCheck>) -> bool {
    let a = accepted_checks(cs);
    &&& vs.len() == a.len()
    &&& forall|i: int|
        0 <= i < vs.len() ==> describes(
            #[trigger] vs[i],
            a[i].created,
            a[i].key_fp@,
            a[i].cert_fp@,
            a[i].sig_type,
        )
}

/// One record for each check whose key was valid and whose signature
/// verified, in the order of the checks.
pub fn records_of(checks: &Vec<SignatureCheck>) -> (r: Vec<Verification>)
    ensures
        records_for(r@, checks@),
{
    let mut out: Vec<Verification> = Vec::new();
    let mut i: usize = 0;
    while i < checks.len()
        invariant
            i <= checks.len(),
            records_for(out@, checks@.subrange(0, i as int)),
        decreases checks.len() - i,
    {
        let c = &checks[i];
        proof {
            let sub = checks@.subrange(0, i + 1);
            assert(sub.drop_last() == checks@.subrange(0, i as int));
            assert(sub.last() == checks@[i as int]);
        }
        if c.key_valid && c.verified && (c.sig_type == 0 || c.sig_type == 1) {
            let v = to_verification(c.created, &c.key_fp, &c.cert_fp, c.sig_type);
            match v {
                Ok(v) => {
                    out.push(v);
                },
                Err(_) => {},
            }
        }
        i = i + 1;
    }
    assert(checks@.subrange(0, checks@.len() as int) == checks@);
    out
}

/// The records of the checks, where at least one validated; none validating
/// is `NoSignature`.
pub fn collect_verifications(checks: &Vec<SignatureCheck>) -> (r: Result<
    Vec<Verification>,
    SopError,
>)
    ensures
        accepted_checks(checks@).len() == 0 ==> r == Err::<Vec<Verification>, SopError>(
            SopError::NoSignature,
        ),
        accepted_checks(checks@).len() > 0 ==> (r matches Ok(vs) && records_for(vs@, checks@)),
{
    let out = records_of(checks);
    if out.len() == 0 {
        Err(SopError::NoSignature)
    } else {
        Ok(out)
    }
}

/// Configuration of verification against detached signatures.
pub struct Verify {
    /// Fingerprints of the certificates to verify against.
    pub certs: Vec<Vec<u8>>,
}

impl Verify {
    /// A verification with no certificates.
    pub fn new() -> (r: Verify)
        ensures
            r.certs@.len() == 0,
    {
        Verify { certs: Vec::new() }
    }

    /// Adds certificates to verify against.
    pub fn certs(self, certs: &Vec<Vec<u8>>) -> (r: Verify)
        ensures
            views(r.certs@) == views(self.certs@) + views(certs@),
    {
        let mut v = self;
        append_all(&mut v.certs, certs);
        v
    }

    /// Collects the records of the checks made against the data: a
    /// certificate is needed, and at least one signature must validate.
    pub fn data(&self, checks: &Vec<SignatureCheck>) -> (r: Result<Vec<Verification>, SopError>)
        ensures
            self.certs@.len() == 0 ==> r == Err::<Vec<Verification>, SopError>(
                SopError::MissingArg,
            ),
            self.certs@.len() > 0 && accepted_checks(checks@).len() == 0 ==> r == Err::<
                Vec<Verification>,
                SopError,
            >(SopError::NoSignature),
            self.certs@.len() > 0 && accepted_checks(checks@).len() > 0 ==> (r matches Ok(vs)
                && records_for(vs@, checks@)),
    {
        if self.certs.len() == 0 {
            return Err(SopError::MissingArg);
        }
        collect_verifications(checks)
    }
}

/// Configuration of verification of inline-signed messages.
pub struct InlineVerify {
    /// Fingerprints of the certificates to verify against.
    pub certs: Vec<Vec<u8>>,
}

impl InlineVerify {
    /// An inline verification with no certificates.
    pub fn new() -> (r: InlineVerify)
        ensures
            r.certs@.len() == 0,
    {
        InlineVerify { certs: Vec::new() }
    }

    /// Adds certificates to verify against.
    pub fn certs(self, certs: &Vec<Vec<u8>>) -> (r: InlineVerify)
        ensures
            views(r.certs@) == views(self.certs@) + views(certs@),
    {
        let v = Verify { certs: self.certs }.certs(certs);
        InlineVerify { certs: v.certs }
    }

    /// Collects the records of the signatures found in the message: at least
    /// one must validate.
    pub fn message(&self, checks: &Vec<SignatureCheck>) -> (r: Result<
        Vec<Verification>,
        SopError,
    >)
        ensures
            accepted_checks(checks@).len() == 0 ==> r == Err::<Vec<Verification>, SopError>(
                SopError::NoSignature,
            ),
            accepted_checks(checks@).len() > 0 ==> (r matches Ok(vs) && records_for(
                vs@,
                checks@,
            )),
    {
        collect_verifications(checks)
    }
}

} // verus!
