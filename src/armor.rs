//! Classification of OpenPGP input by its leading byte, and the armor /
//! dearmor operations built on it.

use vstd::prelude::*;

use crate::error::SopError;

verus! {

/// An OpenPGP packet type, as identified by its packet type ID.
#[derive(Clone, Copy, Debug, PartialEq, Eq, Structural)]
pub enum PacketTag {
    PublicKeyEncryptedSessionKey,
    Signature,
    SymKeyEncryptedSessionKey,
    OnePassSignature,
    SecretKey,
    PublicKey,
    SecretSubkey,
    CompressedData,
    SymEncryptedData,
    Marker,
    LiteralData,
    Trust,
    UserId,
    PublicSubkey,
    UserAttribute,
    SymEncryptedProtectedData,
    ModDetectionCode,
    GnupgAeadData,
    Padding,
    /// Unassigned critical packet types, 22 to 39.
    UnassignedCritical(u8),
    /// Unassigned non-critical packet types, 40 to 59.
    UnassignedNonCritical(u8),
    /// Private or experimental packet types, 60 to 63.
    Experimental(u8),
    /// The invalid packet type IDs 0, 15, 16, and anything above 63.
    Invalid(u8),
}

/// The packet type that a packet type ID denotes.
pub open spec fn tag_of_id(id: u8) -> PacketTag {
    if id == 1 {
        PacketTag::PublicKeyEncryptedSessionKey
    } else if id == 2 {
        PacketTag::Signature
    } else if id == 3 {
        PacketTag::SymKeyEncryptedSessionKey
    } else if id == 4 {
        PacketTag::OnePassSignature
    } else if id == 5 {
        PacketTag::SecretKey
    } else if id == 6 {
        PacketTag::PublicKey
    } else if id == 7 {
        PacketTag::SecretSubkey
    } else if id == 8 {
        PacketTag::CompressedData
    } else if id == 9 {
        PacketTag::SymEncryptedData
    } else if id == 10 {
        PacketTag::Marker
    } else if id == 11 {
        PacketTag::LiteralData
    } else if id == 12 {
        PacketTag::Trust
    } else if id == 13 {
        PacketTag::UserId
    } else if id == 14 {
        PacketTag::PublicSubkey
    } else if id == 17 {
        PacketTag::UserAttribute
    } else if id == 18 {
        PacketTag::SymEncryptedProtectedData
    } else if id == 19 {
        PacketTag::ModDetectionCode
    } else if id == 20 {
        PacketTag::GnupgAeadData
    } else if id == 21 {
        PacketTag::Padding
    } else if 22 <= id && id <= 39 {
        PacketTag::UnassignedCritical(id)
    } else if 40 <= id && id <= 59 {
        PacketTag::UnassignedNonCritical(id)
    } else if 60 <= id && id <= 63 {
        PacketTag::Experimental(id)
    } else {
        PacketTag::Invalid(id)
    }
}

/// The packet type ID that a leading byte encodes, if its high bit is set.
///
/// In the legacy format (bit 6 clear) bits 5 to 2 carry the ID; in the
/// OpenPGP format (bit 6 set) bits 5 to 0 do.
pub open spec fn packet_type_id(byte: u8) -> Option<u8> {
    if byte & 0x80 == 0 {
        None
    } else if byte & 0x40 == 0 {
        Some((byte >> 2u8) & 0x0f)
    } else {
        Some(byte & 0x3f)
    }
}

impl PacketTag {
    /// The packet type for a packet type ID.
    pub fn from_id(id: u8) -> (r: PacketTag)
        ensures
            r == tag_of_id(id),
    {
        match id {
            1 => PacketTag::PublicKeyEncryptedSessionKey,
            2 => PacketTag::Signature,
            3 => PacketTag::SymKeyEncryptedSessionKey,
            4 => PacketTag::OnePassSignature,
            5 => PacketTag::SecretKey,
            6 => PacketTag::PublicKey,
            7 => PacketTag::SecretSubkey,
            8 => PacketTag::CompressedData,
            9 => PacketTag::SymEncryptedData,
            10 => PacketTag::Marker,
            11 => PacketTag::LiteralData,
            12 => PacketTag::Trust,
            13 => PacketTag::UserId,
            14 => PacketTag::PublicSubkey,
            17 => PacketTag::UserAttribute,
            18 => PacketTag::SymEncryptedProtectedData,
            19 => PacketTag::ModDetectionCode,
            20 => PacketTag::GnupgAeadData,
            21 => PacketTag::Padding,
            22..=39 => PacketTag::UnassignedCritical(id),
            40..=59 => PacketTag::UnassignedNonCritical(id),
            60..=63 => PacketTag::Experimental(id),
            _ => PacketTag::Invalid(id),
        }
    }
}

/// The label of an armored block, as a caller names it.
#[derive(Clone, Copy, Debug, PartialEq, Eq, Structural)]
pub enum ArmorLabel {
    /// Detect the label from the data.
    Auto,
    Cert,
    Key,
    Message,
    Sig,
}

/// The kind of armor block that is written.
#[derive(Clone, Copy, Debug, PartialEq, Eq, Structural)]
pub enum BlockKind {
    PublicKey,
    PrivateKey,
    Message,
    Signature,
}

/// The label that a leading packet type gives, or `None` where that type
/// cannot start an armorable artifact.
pub open spec fn label_of_tag(tag: PacketTag) -> Option<ArmorLabel> {
    match tag {
        PacketTag::SecretKey => Some(ArmorLabel::Key),
        PacketTag::PublicKey => Some(ArmorLabel::Cert),
        PacketTag::PublicKeyEncryptedSessionKey => Some(ArmorLabel::Message),
        PacketTag::SymKeyEncryptedSessionKey => Some(ArmorLabel::Message),
        PacketTag::OnePassSignature => Some(ArmorLabel::Message),
        PacketTag::Signature => Some(ArmorLabel::Sig),
        _ => None,
    }
}

/// The label detected from a leading byte.
pub open spec fn detected_label(byte: u8) -> Result<ArmorLabel, SopError> {
    match packet_type_id(byte) {
        None => Err(SopError::BadData),
        Some(id) => match label_of_tag(tag_of_id(id)) {
            Some(l) => Ok(l),
            None => Err(SopError::BadData),
        },
    }
}

/// The block kind written for a label other than `Auto`.
pub open spec fn block_of_label(label: ArmorLabel) -> BlockKind {
    match label {
        ArmorLabel::Cert => BlockKind::PublicKey,
        ArmorLabel::Key => BlockKind::PrivateKey,
        ArmorLabel::Message => BlockKind::Message,
        _ => BlockKind::Signature,
    }
}

/// Decodes the packet type from a leading byte; a byte with its high bit
/// clear is not binary OpenPGP data.
pub fn from_encoded_type_id(byte: u8) -> (r: Result<PacketTag, SopError>)
    ensures
        match packet_type_id(byte) {
            None => r == Err::<PacketTag, SopError>(SopError::BadData),
            Some(id) => r == Ok::<PacketTag, SopError>(tag_of_id(id)),
        },
{
    if byte & 0x80 == 0 {
        return Err(SopError::BadData);
    }
    if byte & 0x40 == 0 {
        let id: u8 = (byte >> 2u8) & 0x0f;
        Ok(PacketTag::from_id(id))
    } else {
        let id: u8 = byte & 0x3f;
        Ok(PacketTag::from_id(id))
    }
}

/// Detects the armor label from the leading byte of binary data.
///
/// A leading signature packet always gives `Sig`: from one byte, a stream of
/// detached signatures cannot be told from an old-style signed message.
pub fn encoded_type_id_to_label(byte: u8) -> (r: Result<ArmorLabel, SopError>)
    ensures
        r == detected_label(byte),
{
    let tag = from_encoded_type_id(byte)?;
    match tag {
        PacketTag::SecretKey => Ok(ArmorLabel::Key),
        PacketTag::PublicKey => Ok(ArmorLabel::Cert),
        PacketTag::PublicKeyEncryptedSessionKey | PacketTag::SymKeyEncryptedSessionKey => Ok(
            ArmorLabel::Message,
        ),
        PacketTag::OnePassSignature => Ok(ArmorLabel::Message),
        PacketTag::Signature => Ok(ArmorLabel::Sig),
        _ => Err(SopError::BadData),
    }
}

/// The armor block kind for an explicit label.
pub fn blocktype_try_from(label: ArmorLabel) -> (r: Result<BlockKind, SopError>)
    requires
        label != ArmorLabel::Auto,
    ensures
        r == Ok::<BlockKind, SopError>(block_of_label(label)),
{
    match label {
        ArmorLabel::Cert => Ok(BlockKind::PublicKey),
        ArmorLabel::Key => Ok(BlockKind::PrivateKey),
        ArmorLabel::Message => Ok(BlockKind::Message),
        _ => Ok(BlockKind::Signature),
    }
}

/// What the armor operation does with its input.
#[derive(Clone, Copy, Debug, PartialEq, Eq, Structural)]
pub enum ArmorAction {
    /// The input is empty: nothing is written.
    Nothing,
    /// The input is not binary OpenPGP data: it is copied unchanged.
    PassThrough,
    /// The input is armored as a block of this kind.
    Wrap(BlockKind),
}

/// What the dearmor operation does with its input.
#[derive(Clone, Copy, Debug, PartialEq, Eq, Structural)]
pub enum DearmorAction {
    /// The input is empty: nothing is written.
    Nothing,
    /// The input is already binary: it is copied unchanged.
    PassThrough,
    /// The input is decoded from its armor.
    Decode,
}

/// The armor action for a label and the input's first byte, if any.
pub open spec fn armor_action(label: ArmorLabel, first: Option<u8>) -> Result<ArmorAction, SopError> {
    match first {
        None => Ok(ArmorAction::Nothing),
        Some(b) => if b & 0x80 == 0 {
            Ok(ArmorAction::PassThrough)
        } else if label == ArmorLabel::Auto {
            match detected_label(b) {
                Ok(l) => Ok(ArmorAction::Wrap(block_of_label(l))),
                Err(e) => Err(e),
            }
        } else {
            Ok(ArmorAction::Wrap(block_of_label(label)))
        },
    }
}

/// The dearmor action for the input's first byte, if any.
pub open spec fn dearmor_action(first: Option<u8>) -> DearmorAction {
    match first {
        None => DearmorAction::Nothing,
        Some(b) => if b & 0x80 != 0 {
            DearmorAction::PassThrough
        } else {
            DearmorAction::Decode
        },
    }
}

/// Configuration of the armor operation.
pub struct Armor {
    pub label: ArmorLabel,
}

impl Armor {
    /// An armor operation that detects its label.
    pub fn new() -> (r: Armor)
        ensures
            r.label == ArmorLabel::Auto,
    {
        Armor { label: ArmorLabel::Auto }
    }

    /// Sets the label to write.
    pub fn label(self, label: ArmorLabel) -> (r: Armor)
        ensures
            r.label == label,
    {
        Armor { label }
    }

    /// Decides, from the first byte of the input, how the input is armored.
    pub fn plan(&self, first: Option<u8>) -> (r: Result<ArmorAction, SopError>)
        ensures
            r == armor_action(self.label, first),
    {
        match first {
            None => Ok(ArmorAction::Nothing),
            Some(b) => {
                if b & 0x80 == 0 {
                    return Ok(ArmorAction::PassThrough);
                }
                let label = if self.label == ArmorLabel::Auto {
                    encoded_type_id_to_label(b)?
                } else {
                    self.label
                };
                let kind = blocktype_try_from(label)?;
                Ok(ArmorAction::Wrap(kind))
            },
        }
    }
}

/// What the armor decoder gives for an armored text, or `None` where it
/// fails.
pub uninterp spec fn dearmored_of(text: Seq<u8>) -> Option<Seq<u8>>;

/// Relies on `pgp::armor::Dearmor`: reading it to the end yields the binary
/// payload of the armored text, or an error; the outcome depends on the text
/// alone.
#[verifier::external_body]
fn decode_armor(text: &[u8]) -> (r: Option<Vec<u8>>)
    ensures
        match r {
            Some(v) => dearmored_of(text@) == Some(v@),
            None => dearmored_of(text@) is None,
        },
{
    let mut out = Vec::new();
    match std::io::Read::read_to_end(&mut pgp::armor::Dearmor::new(text), &mut out) {
        Ok(_) => Some(out),
        Err(_) => None,
    }
}

/// The first byte of a byte string, if any.
pub open spec fn first_byte(s: Seq<u8>) -> Option<u8> {
    if s.len() == 0 {
        None
    } else {
        Some(s[0])
    }
}

/// The result of dearmoring a whole input.
pub open spec fn dearmor_result(input: Seq<u8>) -> Result<Seq<u8>, SopError> {
    match dearmor_action(first_byte(input)) {
        DearmorAction::Nothing => Ok(Seq::<u8>::empty()),
        DearmorAction::PassThrough => Ok(input),
        DearmorAction::Decode => match dearmored_of(input) {
            Some(v) => Ok(v),
            None => Err(SopError::BadData),
        },
    }
}

/// Configuration of the dearmor operation.
pub struct Dearmor {}

impl Dearmor {
    /// A dearmor operation.
    pub fn new() -> (r: Dearmor) {
        Dearmor {  }
    }

    /// Decides, from the first byte of the input, how the input is read.
    pub fn plan(&self, first: Option<u8>) -> (r: DearmorAction)
        ensures
            r == dearmor_action(first),
    {
        match first {
            None => DearmorAction::Nothing,
            Some(b) => if b & 0x80 != 0 {
                DearmorAction::PassThrough
            } else {
                DearmorAction::Decode
            },
        }
    }

    /// Dearmors a whole input: binary input is returned unchanged, armored
    /// input is decoded, and an armor that cannot be decoded is `BadData`.
    pub fn data(&self, input: &Vec<u8>) -> (r: Result<Vec<u8>, SopError>)
        ensures
            match r {
                Ok(v) => dearmor_result(input@) == Ok::<Seq<u8>, SopError>(v@),
                Err(e) => dearmor_result(input@) == Err::<Seq<u8>, SopError>(e),
            },
    {
        let first = if input.len() == 0 {
            None
        } else {
            Some(input[0])
        };
        match self.plan(first) {
            DearmorAction::Nothing => Ok(Vec::new()),
            DearmorAction::PassThrough => Ok(input.clone()),
            DearmorAction::Decode => match decode_armor(input.as_slice()) {
                Some(v) => Ok(v),
                None => Err(SopError::BadData),
            },
        }
    }
}

/// Dearmoring binary data gives it back unchanged.
pub proof fn lemma_dearmor_binary_unchanged(input: Seq<u8>)
    requires
        input.len() > 0,
        input[0] & 0x80 != 0,
    ensures
        dearmor_result(input) == Ok::<Seq<u8>, SopError>(input),
{
}

/// Armoring data that is not binary OpenPGP gives it back unchanged, whatever
/// the label.
pub proof fn lemma_armor_text_unchanged(label: ArmorLabel, input: Seq<u8>)
    requires
        input.len() > 0,
        input[0] & 0x80 == 0,
    ensures
        armor_action(label, first_byte(input)) == Ok::<ArmorAction, SopError>(
            ArmorAction::PassThrough,
        ),
{
}

} // verus!
