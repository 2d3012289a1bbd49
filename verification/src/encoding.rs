//! Encodings that other crates and the standard library compute, with what is relied on.
use crate::error::Base64Error;
use crate::text::texts;
use base64::Engine;
use vstd::prelude::*;
use vstd::utf8::{decode_utf8, encode_utf8, valid_utf8};

verus! {

/// The standard base64 text of some bytes, with padding.
pub uninterp spec fn base64_text(bytes: Seq<u8>) -> Seq<char>;

/// The bytes that a standard base64 text stands for, or why it stands for none.
pub uninterp spec fn base64_bytes(text: Seq<char>) -> Result<Seq<u8>, Base64Error>;

/// The SHA-256 digest of some bytes.
pub uninterp spec fn sha256_digest(bytes: Seq<u8>) -> Seq<u8>;

/// The words of a command line in the syntax of a POSIX shell, unless a quote stays open.
pub uninterp spec fn shell_line(text: Seq<char>) -> Option<Seq<Seq<char>>>;

/// Text in UTF-8, with U+FFFD in place of what is not.
pub uninterp spec fn lossy_utf8(bytes: Seq<u8>) -> Seq<char>;

/// The words with which bytes that are not UTF-8 are refused.
pub uninterp spec fn utf8_fault(bytes: Seq<u8>) -> Seq<char>;

/// The base64 text of this many bytes can be held in memory.
pub open spec fn encodable(length: nat) -> bool {
    (length + 2) / 3 * 4 <= isize::MAX
}

/// What a byte of UTF-8 becomes inside a JSON string.
pub open spec fn json_escape(b: u8) -> Seq<u8> {
    if b == 0x22 || b == 0x5c {
        seq![0x5c, b]
    } else if b == 0x08 {
        seq![0x5c, 0x62]
    } else if b == 0x09 {
        seq![0x5c, 0x74]
    } else if b == 0x0a {
        seq![0x5c, 0x6e]
    } else if b == 0x0c {
        seq![0x5c, 0x66]
    } else if b == 0x0d {
        seq![0x5c, 0x72]
    } else if b < 0x20 {
        seq![0x5c, 0x75, 0x30, 0x30, hex_byte(b / 16), hex_byte(b % 16)]
    } else {
        seq![b]
    }
}

/// The byte of a hexadecimal digit, in lower case.
pub open spec fn hex_byte(d: u8) -> u8 {
    if d < 10 {
        (48 + d) as u8
    } else {
        (87 + d) as u8
    }
}

/// The inside of the JSON string of a text in UTF-8.
pub open spec fn json_inside(bytes: Seq<u8>) -> Seq<u8>
    decreases bytes.len(),
{
    if bytes.len() == 0 {
        Seq::empty()
    } else {
        json_inside(bytes.drop_last()) + json_escape(bytes.last())
    }
}

/// The JSON string of a text.
pub open spec fn json_string(text: Seq<char>) -> Seq<u8> {
    seq![0x22u8] + json_inside(encode_utf8(text)) + seq![0x22u8]
}

/// `base64::engine::general_purpose::STANDARD.encode`: the base64 text of the bytes, from which
/// decoding gives them back. The length of the text must not overflow.
#[verifier::external_body]
pub(crate) fn encode_base64(bytes: &[u8]) -> (r: String)
    requires
        encodable(bytes@.len()),
    ensures
        r@ == base64_text(bytes@),
        (base64_bytes(r@) == Ok::<Seq<u8>, Base64Error>(bytes@)),
{
    base64::engine::general_purpose::STANDARD.encode(bytes)
}

/// `base64::engine::general_purpose::STANDARD.decode`: the bytes that the text stands for, or
/// the crate's reason why there are none.
#[verifier::external_body]
pub(crate) fn decode_base64(text: &str) -> (r: Result<Vec<u8>, Base64Error>)
    ensures
        match r {
            Ok(bytes) => (base64_bytes(text@) == Ok::<Seq<u8>, Base64Error>(bytes@)),
            Err(e) => (base64_bytes(text@) == Err::<Seq<u8>, Base64Error>(e)),
        },
{
    base64::engine::general_purpose::STANDARD.decode(text).map_err(|e| match e {
        base64::DecodeError::InvalidByte(index, byte) => Base64Error::InvalidByte { index, byte },
        base64::DecodeError::InvalidLength(length) => Base64Error::InvalidLength { length },
        base64::DecodeError::InvalidLastSymbol(index, byte) => {
            Base64Error::InvalidLastSymbol { index, byte }
        },
        base64::DecodeError::InvalidPadding => Base64Error::InvalidPadding,
    })
}

/// `sha2::Sha256::digest`: the digest of the bytes, 32 bytes long.
#[verifier::external_body]
pub(crate) fn digest_sha256(bytes: &[u8]) -> (r: Vec<u8>)
    ensures
        r@ == sha256_digest(bytes@),
        r@.len() == 32,
{
    <sha2::Sha256 as sha2::Digest>::digest(bytes).to_vec()
}

/// `shell_words::split`: the words of the line, or nothing where a quote stays open.
#[verifier::external_body]
pub(crate) fn split_shell_line(text: &str) -> (r: Option<Vec<String>>)
    ensures
        match r {
            Some(words) => shell_line(text@) == Some(texts(words@)),
            None => shell_line(text@) is None,
        },
{
    shell_words::split(text).ok()
}

/// `serde_json::to_vec` of a string: the string between quotes, escaped where JSON needs it.
/// Writing a string to memory does not fail.
#[verifier::external_body]
pub(crate) fn json_bytes(text: &str) -> (r: Vec<u8>)
    ensures
        r@ == json_string(text@),
{
    serde_json::to_vec(text).expect("a string has a JSON form")
}

/// `std::str::from_utf8`: the text, exactly where the bytes are UTF-8, else the words of the
/// error.
#[verifier::external_body]
pub(crate) fn text_from_utf8(bytes: &[u8]) -> (r: Result<String, String>)
    ensures
        match r {
            Ok(text) => valid_utf8(bytes@) && text@ == decode_utf8(bytes@),
            Err(message) => !valid_utf8(bytes@) && message@ == utf8_fault(bytes@),
        },
{
    match std::str::from_utf8(bytes) {
        Ok(text) => Ok(text.to_owned()),
        Err(e) => Err(format!("{e}")),
    }
}

/// `String::from_utf8_lossy`: the text of the bytes, which is exact where they are UTF-8.
#[verifier::external_body]
pub(crate) fn text_from_utf8_lossy(bytes: &[u8]) -> (r: String)
    ensures
        r@ == lossy_utf8(bytes@),
        valid_utf8(bytes@) ==> r@ == decode_utf8(bytes@),
{
    String::from_utf8_lossy(bytes).into_owned()
}

/// `rand::random::<u64>`: any number at all.
#[verifier::external_body]
pub(crate) fn random_u64() -> (r: u64) {
    rand::random::<u64>()
}

/// `rand::random::<u128>`: any number at all.
#[verifier::external_body]
pub(crate) fn random_u128() -> (r: u128) {
    rand::random::<u128>()
}

/// The bytes of a text in UTF-8.
pub fn text_bytes(text: &str) -> (r: Vec<u8>)
    ensures
        r@ == encode_utf8(text@),
{
    let mut r: Vec<u8> = Vec::new();
    r.extend_from_slice(text.as_bytes());
    assert(r@ =~= encode_utf8(text@));
    r
}

} // verus!
