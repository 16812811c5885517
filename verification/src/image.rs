//! Recognising and decoding image payloads.

use vstd::prelude::*;
use crate::json::string_view;
use crate::text::{decimal, decimal_text, first_index_of, join2, split_once};

verus! {

/// The eight bytes every PNG file starts with.
pub open spec fn png_signature() -> Seq<u8> {
    seq![0x89u8, 0x50u8, 0x4Eu8, 0x47u8, 0x0Du8, 0x0Au8, 0x1Au8, 0x0Au8]
}

/// The three bytes every JPEG file starts with.
pub open spec fn jpeg_signature() -> Seq<u8> {
    seq![0xFFu8, 0xD8u8, 0xFFu8]
}

/// `RIFF`, the container tag at offset 0 of a WebP file.
pub open spec fn riff_tag() -> Seq<u8> {
    seq![0x52u8, 0x49u8, 0x46u8, 0x46u8]
}

/// `WEBP`, the format tag at offset 8 of a WebP file.
pub open spec fn webp_tag() -> Seq<u8> {
    seq![0x57u8, 0x45u8, 0x42u8, 0x50u8]
}

/// `tag` occurs in `bytes` starting at offset `at`.
pub open spec fn has_bytes_at(bytes: Seq<u8>, at: int, tag: Seq<u8>) -> bool {
    &&& 0 <= at
    &&& at + tag.len() <= bytes.len()
    &&& bytes.subrange(at, at + tag.len()) == tag
}

/// Whether the bytes begin like a PNG file.
pub open spec fn is_png(bytes: Seq<u8>) -> bool {
    has_bytes_at(bytes, 0, png_signature())
}

/// Whether the bytes begin like a JPEG file.
pub open spec fn is_jpeg(bytes: Seq<u8>) -> bool {
    has_bytes_at(bytes, 0, jpeg_signature())
}

/// Whether the bytes begin like a WebP file: `RIFF`, four bytes of length,
/// then `WEBP`.
pub open spec fn is_webp(bytes: Seq<u8>) -> bool {
    has_bytes_at(bytes, 0, riff_tag()) && has_bytes_at(bytes, 8, webp_tag())
}

/// The file extension for an image with the given leading bytes. PNG is tried
/// first, then JPEG, then WebP; anything unrecognised is taken for a PNG.
pub open spec fn image_extension(bytes: Seq<u8>) -> Seq<char> {
    if is_png(bytes) {
        "png"@
    } else if is_jpeg(bytes) {
        "jpg"@
    } else if is_webp(bytes) {
        "webp"@
    } else {
        "png"@
    }
}

/// Sniffs the container format from the magic bytes and names the extension.
pub fn guess_image_extension(bytes: &[u8]) -> (ext: &'static str)
    ensures
        ext@ == image_extension(bytes@),
{
    let n: usize = bytes.len();
    if n >= 8 && bytes[0] == 0x89 && bytes[1] == 0x50 && bytes[2] == 0x4E && bytes[3] == 0x47
        && bytes[4] == 0x0D && bytes[5] == 0x0A && bytes[6] == 0x1A && bytes[7] == 0x0A {
        assert(bytes@.subrange(0, 8) =~= png_signature());
        return "png";
    }
    assert(!is_png(bytes@)) by {
        if is_png(bytes@) {
            let s = bytes@.subrange(0, 8);
            assert(s[0] == 0x89u8 && s[1] == 0x50u8 && s[2] == 0x4Eu8 && s[3] == 0x47u8);
            assert(s[4] == 0x0Du8 && s[5] == 0x0Au8 && s[6] == 0x1Au8 && s[7] == 0x0Au8);
        }
    }
    if n >= 3 && bytes[0] == 0xFF && bytes[1] == 0xD8 && bytes[2] == 0xFF {
        assert(bytes@.subrange(0, 3) =~= jpeg_signature());
        return "jpg";
    }
    assert(!is_jpeg(bytes@)) by {
        if is_jpeg(bytes@) {
            let s = bytes@.subrange(0, 3);
            assert(s[0] == 0xFFu8 && s[1] == 0xD8u8 && s[2] == 0xFFu8);
        }
    }
    if n >= 12 && bytes[0] == 0x52 && bytes[1] == 0x49 && bytes[2] == 0x46 && bytes[3] == 0x46
        && bytes[8] == 0x57 && bytes[9] == 0x45 && bytes[10] == 0x42 && bytes[11] == 0x50 {
        assert(bytes@.subrange(0, 4) =~= riff_tag());
        assert(bytes@.subrange(8, 12) =~= webp_tag());
        return "webp";
    }
    assert(!is_webp(bytes@)) by {
        if is_webp(bytes@) {
            let r = bytes@.subrange(0, 4);
            let w = bytes@.subrange(8, 12);
            assert(r[0] == 0x52u8 && r[1] == 0x49u8 && r[2] == 0x46u8 && r[3] == 0x46u8);
            assert(w[0] == 0x57u8 && w[1] == 0x45u8 && w[2] == 0x42u8 && w[3] == 0x50u8);
        }
    }
    "png"
}

/// Why a text is not base64 in the standard alphabet with padding.
#[derive(Debug, Clone, Copy, PartialEq, Eq)]
pub enum Base64Fault {
    /// A symbol outside the alphabet, or padding where none may stand.
    InvalidByte { offset: usize, byte: u8 },
    /// A count of symbols that no whole number of bytes encodes to.
    InvalidLength { length: usize },
    /// A last symbol with bits set that the decoding would drop.
    InvalidLastSymbol { offset: usize, byte: u8 },
    /// Missing or malformed padding.
    InvalidPadding,
}

/// What `base64`'s standard engine decodes a text to: the bytes, or the
/// fault it reports.
pub uninterp spec fn base64_decoded(text: Seq<char>) -> Result<Seq<u8>, Base64Fault>;

/// What `base64`'s standard engine encodes bytes to.
pub uninterp spec fn base64_encoded(bytes: Seq<u8>) -> Seq<char>;

/// The view of a decoding outcome.
pub open spec fn decoded_view(r: Result<Vec<u8>, Base64Fault>) -> Result<Seq<u8>, Base64Fault> {
    match r {
        Ok(bytes) => Ok(bytes@),
        Err(fault) => Err(fault),
    }
}

/// `Engine::decode` of `base64::engine::general_purpose::STANDARD`: the
/// decoded bytes, or the variant and fields of the `DecodeError` it returns.
#[verifier::external_body]
fn standard_decode(text: &str) -> (r: Result<Vec<u8>, Base64Fault>)
    ensures
        decoded_view(r) == base64_decoded(text@),
{
    match base64::Engine::decode(&base64::engine::general_purpose::STANDARD, text) {
        Ok(bytes) => Ok(bytes),
        Err(base64::DecodeError::InvalidByte(offset, byte)) => Err(
            Base64Fault::InvalidByte { offset, byte },
        ),
        Err(base64::DecodeError::InvalidLength(length)) => Err(
            Base64Fault::InvalidLength { length },
        ),
        Err(base64::DecodeError::InvalidLastSymbol(offset, byte)) => Err(
            Base64Fault::InvalidLastSymbol { offset, byte },
        ),
        Err(base64::DecodeError::InvalidPadding) => Err(Base64Fault::InvalidPadding),
    }
}

/// `Engine::encode` of `base64::engine::general_purpose::STANDARD`. The
/// engine gives up on inputs whose encoded length does not fit in `usize`;
/// the precondition leaves them out.
#[verifier::external_body]
fn standard_encode(bytes: &[u8]) -> (r: String)
    requires
        bytes@.len() / 3 * 4 + 4 <= usize::MAX,
    ensures
        r@ == base64_encoded(bytes@),
{
    base64::Engine::encode(&base64::engine::general_purpose::STANDARD, bytes)
}

/// The text that describes a fault.
pub open spec fn fault_text(fault: Base64Fault) -> Seq<char> {
    match fault {
        Base64Fault::InvalidByte { offset, byte } => "Invalid symbol "@ + decimal_text(
            byte as nat,
        ) + ", offset "@ + decimal_text(offset as nat) + "."@,
        Base64Fault::InvalidLength { length } => "Invalid input length: "@ + decimal_text(
            length as nat,
        ),
        Base64Fault::InvalidLastSymbol { offset, byte } => "Invalid last symbol "@ + decimal_text(
            byte as nat,
        ) + ", offset "@ + decimal_text(offset as nat) + "."@,
        Base64Fault::InvalidPadding => "Invalid padding"@,
    }
}

fn symbol_fault_message(head: &str, offset: usize, byte: u8) -> (r: String)
    ensures
        r@ == head@ + decimal_text(byte as nat) + ", offset "@ + decimal_text(offset as nat)
            + "."@,
{
    let mut out = join2(head, decimal(byte as u64).as_str());
    out.append(", offset ");
    out.append(decimal(offset as u64).as_str());
    out.append(".");
    out
}

impl Base64Fault {
    /// Describes the fault in words.
    pub fn message(&self) -> (r: String)
        ensures
            r@ == fault_text(*self),
    {
        match self {
            Base64Fault::InvalidByte { offset, byte } => symbol_fault_message(
                "Invalid symbol ",
                *offset,
                *byte,
            ),
            Base64Fault::InvalidLength { length } => join2(
                "Invalid input length: ",
                decimal(*length as u64).as_str(),
            ),
            Base64Fault::InvalidLastSymbol { offset, byte } => symbol_fault_message(
                "Invalid last symbol ",
                *offset,
                *byte,
            ),
            Base64Fault::InvalidPadding => "Invalid padding".to_owned(),
        }
    }
}

/// The base64 part of an image text: what follows the first comma, so that
/// a `data:` URI loses its media type header, or the whole text where it
/// holds no comma.
pub open spec fn image_payload(text: Seq<char>) -> Seq<char> {
    match first_index_of(text, ',') {
        Some(i) => text.skip(i + 1),
        None => text,
    }
}

/// What a decoding outcome means for the caller: the bytes, or the message
/// that reports the fault.
pub open spec fn decode_report(decoded: Result<Seq<u8>, Base64Fault>) -> Result<
    Seq<u8>,
    Seq<char>,
> {
    match decoded {
        Ok(bytes) => Ok(bytes),
        Err(fault) => Err("base64 decode: "@ + fault_text(fault)),
    }
}

/// The view of a decoding report.
pub open spec fn report_view(r: Result<Vec<u8>, String>) -> Result<Seq<u8>, Seq<char>> {
    match r {
        Ok(bytes) => Ok(bytes@),
        Err(message) => Err(message@),
    }
}

/// Turns a decoding outcome into the bytes or the message for the caller.
pub fn report_decoding(decoded: Result<Vec<u8>, Base64Fault>) -> (r: Result<Vec<u8>, String>)
    ensures
        report_view(r) == decode_report(decoded_view(decoded)),
{
    match decoded {
        Ok(bytes) => Ok(bytes),
        Err(fault) => Err(join2("base64 decode: ", fault.message().as_str())),
    }
}

/// Decodes an image handed over as base64 text or as a `data:` URI.
pub fn decode_base64_png(s: &str) -> (r: Result<Vec<u8>, String>)
    ensures
        report_view(r) == decode_report(base64_decoded(image_payload(s@))),
{
    let payload = match split_once(s, ',') {
        Some((_, tail)) => tail,
        None => s,
    };
    report_decoding(standard_decode(payload))
}

/// Whether bytes are few enough for their base64 text to have a length.
pub open spec fn encodable(len: nat) -> bool {
    len / 3 * 4 + 4 <= usize::MAX
}

/// The image fetched from a URI, as base64 text; nothing for more bytes
/// than base64 text can have a length for.
pub fn fetched_image(bytes: &[u8]) -> (image: Option<String>)
    ensures
        string_view(image) == if encodable(bytes@.len()) {
            Some(base64_encoded(bytes@))
        } else {
            None
        },
{
    if bytes.len() / 3 <= (usize::MAX - 4) / 4 {
        Some(standard_encode(bytes))
    } else {
        None
    }
}

} // verus!
