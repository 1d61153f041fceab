use vstd::prelude::*;

verus! {

/// The closed set of failures that an operation can report.
#[derive(Clone, Copy, Debug, PartialEq, Eq, Structural)]
pub enum SopError {
    /// A required credential, password or input was never supplied.
    MissingArg,
    /// An unknown profile name was requested.
    UnsupportedProfile,
    /// The requested options cannot be combined.
    IncompatibleOptions,
    /// The input is malformed or cannot be parsed.
    BadData,
    /// Verification ran, but no signature validated.
    NoSignature,
    /// No candidate could recover the session key of a message.
    CannotDecrypt,
    /// A certificate has no valid encryption-capable component key.
    CertCannotEncrypt,
    /// A key has no component key that can make the signature.
    KeyCannotSign,
    /// No password unlocked any of the protected keys.
    KeyIsProtected,
    /// The hardware token rejected the stored credential.
    AuthenticationFailed,
    /// No credential is stored for the hardware token.
    NoPinConfigured,
    /// The operation is not offered by this implementation.
    NotImplemented,
}

} // verus!
