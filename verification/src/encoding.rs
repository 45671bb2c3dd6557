//! Turning the bytes of a cue sheet into text: strict UTF-8 first, the
//! single-byte Windows-1252 code page when that fails.

use vstd::prelude::*;
use vstd::utf8::*;

verus! {

/// The encoding under which the bytes of a file were read as text.
#[derive(Clone, Copy, Debug, PartialEq, Eq, Structural)]
pub enum TextEncoding {
    Utf8,
    Windows1252,
}

impl TextEncoding {
    /// The name under which the encoding is reported.
    pub open spec fn name_spec(self) -> Seq<char> {
        match self {
            TextEncoding::Utf8 => "UTF-8"@,
            TextEncoding::Windows1252 => "Windows-1252"@,
        }
    }

    /// The name under which the encoding is reported.
    pub fn name(self) -> (label: &'static str)
        ensures
            label@ == self.name_spec(),
    {
        match self {
            TextEncoding::Utf8 => "UTF-8",
            TextEncoding::Windows1252 => "Windows-1252",
        }
    }
}

/// The longest input, in bytes, that the Windows-1252 decoder is asked to take:
/// it sizes its output buffer at three bytes for each input byte, rounded up to
/// a power of two, and that size has to fit in a `usize`.
pub const MAX_DECODE_LEN: usize = usize::MAX / 8;

/// The character that Windows-1252 assigns to a byte. The code page agrees with
/// Latin-1 except on `0x80..=0x9F`, where it holds punctuation and letters in
/// place of most of the C1 controls.
pub open spec fn windows_1252_char(b: u8) -> char {
    if b < 0x80 || b >= 0xA0 {
        b as char
    } else {
        match b {
            0x80 => '\u{20AC}',
            0x81 => '\u{0081}',
            0x82 => '\u{201A}',
            0x83 => '\u{0192}',
            0x84 => '\u{201E}',
            0x85 => '\u{2026}',
            0x86 => '\u{2020}',
            0x87 => '\u{2021}',
            0x88 => '\u{02C6}',
            0x89 => '\u{2030}',
            0x8A => '\u{0160}',
            0x8B => '\u{2039}',
            0x8C => '\u{0152}',
            0x8D => '\u{008D}',
            0x8E => '\u{017D}',
            0x8F => '\u{008F}',
            0x90 => '\u{0090}',
            0x91 => '\u{2018}',
            0x92 => '\u{2019}',
            0x93 => '\u{201C}',
            0x94 => '\u{201D}',
            0x95 => '\u{2022}',
            0x96 => '\u{2013}',
            0x97 => '\u{2014}',
            0x98 => '\u{02DC}',
            0x99 => '\u{2122}',
            0x9A => '\u{0161}',
            0x9B => '\u{203A}',
            0x9C => '\u{0153}',
            0x9D => '\u{009D}',
            0x9E => '\u{017E}',
            _ => '\u{0178}',
        }
    }
}

/// The text that a byte sequence stands for under Windows-1252: one character
/// for each byte, in order.
pub open spec fn windows_1252_text(bytes: Seq<u8>) -> Seq<char> {
    Seq::new(bytes.len(), |i: int| windows_1252_char(bytes[i]))
}

/// The text that the bytes of a file are read as: their UTF-8 decoding where
/// they are valid UTF-8 as a whole, their Windows-1252 reading otherwise.
pub open spec fn decoded_text(bytes: Seq<u8>) -> Seq<char> {
    if valid_utf8(bytes) {
        decode_utf8(bytes)
    } else {
        windows_1252_text(bytes)
    }
}

/// The encoding under which the bytes of a file are read.
pub open spec fn detected_encoding(bytes: Seq<u8>) -> TextEncoding {
    if valid_utf8(bytes) {
        TextEncoding::Utf8
    } else {
        TextEncoding::Windows1252
    }
}

/// Trusted: `core::str::from_utf8`. It succeeds exactly on well-formed UTF-8,
/// and the string slice it then returns consists of the very bytes it was
/// given.
#[verifier::external_body]
fn strict_utf8(bytes: &[u8]) -> (text: Option<&str>)
    ensures
        text is Some <==> valid_utf8(bytes@),
        text matches Some(s) ==> s@ == decode_utf8(bytes@),
{
    match core::str::from_utf8(bytes) {
        Ok(s) => Some(s),
        Err(_) => None,
    }
}

/// Trusted: `encoding_rs::Encoding::decode_without_bom_handling`, called on
/// `encoding_rs::WINDOWS_1252`. The decoder copies ASCII bytes and looks every
/// other byte up in the code page's table, which has no unassigned entry, so
/// the text has one character for each byte and nothing is replaced. The bound
/// on the length keeps the decoder's buffer size computation from overflowing.
#[verifier::external_body]
fn windows_1252_decode(bytes: &[u8]) -> (text: String)
    requires
        bytes@.len() <= MAX_DECODE_LEN,
    ensures
        text@ == windows_1252_text(bytes@),
{
    let (decoded, _replaced) = encoding_rs::WINDOWS_1252.decode_without_bom_handling(bytes);
    decoded.into_owned()
}

/// Reads bytes as text. Well-formed UTF-8 is decoded as such; anything else is
/// read byte by byte as Windows-1252, which assigns a character to every byte,
/// so the function always has a text to return. The tag says which of the two
/// it was.
pub fn decode_with_fallback(bytes: &[u8]) -> (decoded: (String, TextEncoding))
    requires
        bytes@.len() <= MAX_DECODE_LEN,
    ensures
        decoded.0@ == decoded_text(bytes@),
        decoded.1 == detected_encoding(bytes@),
        valid_utf8(bytes@) ==> decoded.1 == TextEncoding::Utf8 && encode_utf8(decoded.0@)
            == bytes@,
        !valid_utf8(bytes@) ==> decoded.1 == TextEncoding::Windows1252 && decoded.0@.len()
            == bytes@.len(),
{
    match strict_utf8(bytes) {
        Some(s) => {
            proof {
                decode_utf8_encode_utf8(bytes@);
            }
            (s.to_owned(), TextEncoding::Utf8)
        },
        None => (windows_1252_decode(bytes), TextEncoding::Windows1252),
    }
}

} // verus!
