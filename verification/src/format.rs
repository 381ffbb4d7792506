//! Classification of font data by its four-byte signature.
//!
//! Font containers announce themselves in their first four bytes. The
//! classification looks at nothing else: data shorter than a signature, and
//! data with a signature that is not listed here, is `Unknown` and is stored
//! with the extension `bin`.

use vstd::prelude::*;

verus! {

/// The container format that a font's leading bytes announce.
#[derive(Clone, Copy, Debug, PartialEq, Eq, Structural)]
pub enum FormatTag {
    /// OpenType with CFF outlines: the data starts with `OTTO`.
    OpenType,
    /// TrueType outlines: the data starts with `00 01 00 00`.
    TrueType,
    /// A font collection: the data starts with `ttcf`.
    Collection,
    /// Any other data, and data shorter than a signature.
    Unknown,
}

/// Number of leading bytes that make up a signature.
pub const SIGNATURE_LEN: usize = 4;

/// Whether `bytes` starts with the four bytes `b0 b1 b2 b3`.
pub open spec fn starts_with4(bytes: Seq<u8>, b0: u8, b1: u8, b2: u8, b3: u8) -> bool {
    &&& bytes.len() >= 4
    &&& bytes[0] == b0
    &&& bytes[1] == b1
    &&& bytes[2] == b2
    &&& bytes[3] == b3
}

/// The format announced by `bytes`.
pub open spec fn sniff_spec(bytes: Seq<u8>) -> FormatTag {
    if starts_with4(bytes, 0x4F, 0x54, 0x54, 0x4F) {
        FormatTag::OpenType
    } else if starts_with4(bytes, 0x00, 0x01, 0x00, 0x00) {
        FormatTag::TrueType
    } else if starts_with4(bytes, 0x74, 0x74, 0x63, 0x66) {
        FormatTag::Collection
    } else {
        FormatTag::Unknown
    }
}

/// The signature of `bytes`: its first four bytes, or all of it when it is
/// shorter than that.
pub open spec fn signature(bytes: Seq<u8>) -> Seq<u8> {
    if bytes.len() <= 4 {
        bytes
    } else {
        bytes.subrange(0, 4)
    }
}

impl FormatTag {
    /// The file extension under which data of this format is stored.
    pub open spec fn extension_spec(self) -> Seq<char> {
        match self {
            FormatTag::OpenType => "otf"@,
            FormatTag::TrueType => "ttf"@,
            FormatTag::Collection => "ttc"@,
            FormatTag::Unknown => "bin"@,
        }
    }

    /// The file extension under which data of this format is stored,
    /// without a leading dot.
    pub fn extension(&self) -> (ext: &'static str)
        ensures
            ext@ == self.extension_spec(),
    {
        match self {
            FormatTag::OpenType => "otf",
            FormatTag::TrueType => "ttf",
            FormatTag::Collection => "ttc",
            FormatTag::Unknown => "bin",
        }
    }
}

/// Classifies font data by its signature.
pub fn sniff(bytes: &[u8]) -> (tag: FormatTag)
    ensures
        tag == sniff_spec(bytes@),
{
    if bytes.len() < SIGNATURE_LEN {
        return FormatTag::Unknown;
    }
    let b0: u8 = bytes[0];
    let b1: u8 = bytes[1];
    let b2: u8 = bytes[2];
    let b3: u8 = bytes[3];
    if b0 == 0x4F && b1 == 0x54 && b2 == 0x54 && b3 == 0x4F {
        FormatTag::OpenType
    } else if b0 == 0x00 && b1 == 0x01 && b2 == 0x00 && b3 == 0x00 {
        FormatTag::TrueType
    } else if b0 == 0x74 && b1 == 0x74 && b2 == 0x63 && b3 == 0x66 {
        FormatTag::Collection
    } else {
        FormatTag::Unknown
    }
}

/// The file extension for font data, chosen by its signature.
pub fn sniff_extension(bytes: &[u8]) -> (ext: &'static str)
    ensures
        ext@ == sniff_spec(bytes@).extension_spec(),
{
    sniff(bytes).extension()
}

/// Data shorter than a signature is `Unknown`, whatever it holds.
pub proof fn lemma_short_data_is_unknown(bytes: Seq<u8>)
    requires
        bytes.len() < 4,
    ensures
        sniff_spec(bytes) == FormatTag::Unknown,
        sniff_spec(bytes).extension_spec() == "bin"@,
{
}

/// The classification reads the signature and nothing else: data is
/// classified as its signature alone is.
pub proof fn lemma_sniff_reads_signature_only(bytes: Seq<u8>)
    ensures
        sniff_spec(bytes) == sniff_spec(signature(bytes)),
{
}

/// Two pieces of data with the same signature are classified alike.
pub proof fn lemma_same_signature_same_format(a: Seq<u8>, b: Seq<u8>)
    requires
        signature(a) == signature(b),
    ensures
        sniff_spec(a) == sniff_spec(b),
{
    lemma_sniff_reads_signature_only(a);
    lemma_sniff_reads_signature_only(b);
}

/// Bytes appended to data that already holds a whole signature do not
/// change its classification.
pub proof fn lemma_trailing_bytes_ignored(bytes: Seq<u8>, tail: Seq<u8>)
    requires
        bytes.len() >= 4,
    ensures
        sniff_spec(bytes + tail) == sniff_spec(bytes),
{
}

} // verus!
