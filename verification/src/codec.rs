use vstd::prelude::*;
use vstd::utf8::*;
use base64::Engine as _;

verus! {

/// What `base64::engine::general_purpose::STANDARD.decode` gives for the UTF-8
/// bytes of `text`: the decoded bytes, or the text of the `DecodeError`.
pub uninterp spec fn base64_standard_decode(text: Seq<char>) -> Result<Seq<u8>, Seq<char>>;

/// What `base64::engine::general_purpose::STANDARD.encode` gives for `data`.
pub uninterp spec fn base64_standard_encode(data: Seq<u8>) -> Seq<char>;

/// The text that `std::string::FromUtf8Error` displays for `bytes`, when they are
/// not valid UTF-8.
pub uninterp spec fn utf8_error_text(bytes: Seq<u8>) -> Seq<char>;

/// One bit step of the reflected CRC-32 register with polynomial `0xEDB88320`.
pub open spec fn crc32_bit(c: u32) -> u32 {
    if c & 1 == 1 { (c >> 1) ^ 0xEDB8_8320u32 } else { c >> 1 }
}

/// The CRC-32 register after taking in the byte `b`, low bit first.
pub open spec fn crc32_byte(c: u32, b: u8) -> u32 {
    let x = c ^ (b as u32);
    crc32_bit(crc32_bit(crc32_bit(crc32_bit(crc32_bit(crc32_bit(crc32_bit(crc32_bit(x))))))))
}

/// The CRC-32 register after taking in `data`, starting from all ones.
pub open spec fn crc32_register(data: Seq<u8>) -> u32
    decreases data.len(),
{
    if data.len() == 0 {
        0xFFFF_FFFFu32
    } else {
        crc32_byte(crc32_register(data.drop_last()), data.last())
    }
}

/// The CRC-32/ISO-HDLC checksum of `data` (width 32, polynomial `0x04C11DB7`
/// reflected, initial value and final xor all ones).
pub open spec fn crc32_iso_hdlc(data: Seq<u8>) -> u32 {
    crc32_register(data) ^ 0xFFFF_FFFFu32
}

/// A character of the standard base64 alphabet, or the padding `=`.
pub open spec fn is_base64_char(c: char) -> bool {
    ||| ('A' as u32) <= (c as u32) <= ('Z' as u32)
    ||| ('a' as u32) <= (c as u32) <= ('z' as u32)
    ||| ('0' as u32) <= (c as u32) <= ('9' as u32)
    ||| c == '+'
    ||| c == '/'
    ||| c == '='
}

/// A successful decoding that gives `bytes`.
pub open spec fn decoded_as(bytes: Seq<u8>) -> Result<Seq<u8>, Seq<char>> {
    Ok(bytes)
}

/// Builds a `String` from its characters with `String::from_iter`; the string holds
/// exactly those characters.
#[verifier::external_body]
pub(crate) fn string_of(chars: &[char]) -> (s: String)
    ensures
        s@ == chars@,
{
    String::from_iter(chars)
}

/// Decodes `text` with the standard base64 alphabet and padding through
/// `base64::engine::general_purpose::STANDARD.decode`. The result, bytes or the
/// displayed error, is the named `base64_standard_decode` of the text; nothing more
/// is claimed of the crate here.
#[verifier::external_body]
pub(crate) fn base64_decode(text: &[char]) -> (r: Result<Vec<u8>, String>)
    ensures
        match r {
            Ok(bytes) => base64_standard_decode(text@) matches Ok(b) && b == bytes@,
            Err(e) => base64_standard_decode(text@) matches Err(m) && m == e@,
        },
{
    let input = String::from_iter(text);
    match base64::engine::general_purpose::STANDARD.decode(input) {
        Ok(bytes) => Ok(bytes),
        Err(e) => Err(e.to_string()),
    }
}

/// Encodes the UTF-8 bytes of `text` with `base64::engine::general_purpose::STANDARD.encode`.
/// The claim: the result is the named `base64_standard_encode` of those bytes, and
/// decoding it with the same engine gives the bytes back (the padded, canonical
/// output of `encode` is what `decode` accepts; the crate tests and fuzzes exactly
/// this round trip); and the output is made of the standard alphabet `A-Z`,
/// `a-z`, `0-9`, `+`, `/` and the padding `=`.
#[verifier::external_body]
pub(crate) fn base64_encode(text: &str) -> (r: String)
    ensures
        r@ == base64_standard_encode(encode_utf8(text@)),
        base64_standard_decode(r@) == decoded_as(encode_utf8(text@)),
        forall|i: int| 0 <= i < r@.len() ==> is_base64_char(#[trigger] r@[i]),
{
    base64::engine::general_purpose::STANDARD.encode(text)
}

/// `String::from_utf8`: succeeds exactly on valid UTF-8, and then holds the decoded
/// characters; on failure the displayed `FromUtf8Error` is the named `utf8_error_text`.
#[verifier::external_body]
pub(crate) fn utf8_decode(bytes: Vec<u8>) -> (r: Result<String, String>)
    ensures
        r is Ok <==> valid_utf8(bytes@),
        r matches Ok(s) ==> s@ == decode_utf8(bytes@),
        r matches Err(e) ==> e@ == utf8_error_text(bytes@),
{
    match String::from_utf8(bytes) {
        Ok(s) => Ok(s),
        Err(e) => Err(e.to_string()),
    }
}

/// `crc::Crc::<u32>::new(&crc::CRC_32_ISO_HDLC).checksum(data)`: the result is the
/// CRC-32/ISO-HDLC checksum of the bytes, as the crate's catalogue entry
/// `CRC_32_ISO_HDLC` defines it (width 32, polynomial `0x04c11db7`, reflected in
/// and out, initial value and final xor `0xffffffff`).
#[verifier::external_body]
pub(crate) fn crc32_checksum(data: &[u8]) -> (r: u32)
    ensures
        r == crc32_iso_hdlc(data@),
{
    let crc = crc::Crc::<u32>::new(&crc::CRC_32_ISO_HDLC);
    crc.checksum(data)
}

} // verus!
