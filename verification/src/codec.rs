//! Hexadecimal and base64 encoding of binary data, as the `hex` and `base64` crates do it.

use vstd::prelude::*;
use vstd::utf8::*;

use base64::Engine;

verus! {

/// Errors of decoding a hexadecimal string.
#[derive(Clone, Copy, Debug, PartialEq, Eq, Structural)]
pub enum HexDecodeError {
    /// The byte at `index` is no hexadecimal digit; `c` is the byte as character.
    InvalidHexCharacter { c: char, index: usize },
    /// The number of digits is odd.
    OddLength,
}

/// Errors of decoding a base64 string.
#[derive(Clone, Copy, Debug, PartialEq, Eq, Structural)]
pub enum Base64DecodeError {
    /// An invalid byte was found at the given offset.
    InvalidByte(usize, u8),
    /// The number of base64 symbols is invalid.
    InvalidLength(usize),
    /// The last symbol at the given offset encodes bits that would be discarded.
    InvalidLastSymbol(usize, u8),
    /// The padding is absent or incorrect.
    InvalidPadding,
}

/// The result of a decoding, with the bytes taken by their view.
pub open spec fn bytes_result<E>(r: Result<Vec<u8>, E>) -> Result<Seq<u8>, E> {
    match r {
        Ok(v) => Ok(v@),
        Err(e) => Err(e),
    }
}

/// The lowercase hexadecimal digit of the value `v` (`0 <= v < 16`).
pub open spec fn hex_digit(v: int) -> char {
    if v < 10 {
        (v + 48) as char
    } else {
        (v - 10 + 97) as char
    }
}

/// The lowercase hexadecimal encoding of `bytes`: two digits per byte, high nibble first.
pub open spec fn hex_encode_spec(bytes: Seq<u8>) -> Seq<char> {
    Seq::new(
        2 * bytes.len(),
        |i: int|
            if i % 2 == 0 {
                hex_digit(bytes[i / 2] as int / 16)
            } else {
                hex_digit(bytes[i / 2] as int % 16)
            },
    )
}

/// The value of the hexadecimal digit `b` (either case), if it is one.
pub open spec fn hex_value(b: u8) -> Option<int> {
    if 48 <= b <= 57 {
        Some(b - 48)
    } else if 97 <= b <= 102 {
        Some(b - 97 + 10)
    } else if 65 <= b <= 70 {
        Some(b - 65 + 10)
    } else {
        None
    }
}

/// Position of the first byte in `bytes` from `start` on that is no hexadecimal digit (or
/// the length if there is none).
pub open spec fn first_non_hex(bytes: Seq<u8>, start: int) -> int
    decreases bytes.len() - start,
{
    if start >= bytes.len() || start < 0 {
        bytes.len() as int
    } else if hex_value(bytes[start]) is None {
        start
    } else {
        first_non_hex(bytes, start + 1)
    }
}

/// The bytes a valid hexadecimal text `bytes` (of even length) encodes.
pub open spec fn hex_decoded_bytes(bytes: Seq<u8>) -> Seq<u8> {
    Seq::new(
        bytes.len() / 2,
        |i: int|
            (hex_value(bytes[2 * i]).unwrap() * 16 + hex_value(bytes[2 * i + 1]).unwrap()) as u8,
    )
}

/// Result of decoding the hexadecimal text `bytes`: an odd length is refused first, then the
/// first byte that is no hexadecimal digit.
pub open spec fn hex_decode_spec(bytes: Seq<u8>) -> Result<Seq<u8>, HexDecodeError> {
    if bytes.len() % 2 != 0 {
        Err(HexDecodeError::OddLength)
    } else if first_non_hex(bytes, 0) < bytes.len() {
        let k = first_non_hex(bytes, 0);
        Err(HexDecodeError::InvalidHexCharacter { c: bytes[k] as char, index: k as usize })
    } else {
        Ok(hex_decoded_bytes(bytes))
    }
}

/// The base64 symbol of the 6-bit value `v` in the standard alphabet.
pub open spec fn base64_symbol(v: int) -> char {
    if v < 26 {
        (v + 65) as char
    } else if v < 52 {
        (v - 26 + 97) as char
    } else if v < 62 {
        (v - 52 + 48) as char
    } else if v == 62 {
        '+'
    } else {
        '/'
    }
}

/// The standard base64 encoding (RFC 4648, with `=` padding) of `b`.
pub open spec fn base64_encode_spec(b: Seq<u8>) -> Seq<char>
    decreases b.len(),
{
    if b.len() == 0 {
        seq![]
    } else {
        let b0 = b[0] as int;
        let b1 = if b.len() > 1 { b[1] as int } else { 0 };
        let b2 = if b.len() > 2 { b[2] as int } else { 0 };
        let c0 = base64_symbol(b0 / 4);
        let c1 = base64_symbol((b0 % 4) * 16 + b1 / 16);
        let c2 = if b.len() > 1 { base64_symbol((b1 % 16) * 4 + b2 / 64) } else { '=' };
        let c3 = if b.len() > 2 { base64_symbol(b2 % 64) } else { '=' };
        if b.len() <= 3 {
            seq![c0, c1, c2, c3]
        } else {
            seq![c0, c1, c2, c3] + base64_encode_spec(b.skip(3))
        }
    }
}

/// A successful base64 decoding that gives `v`.
pub open spec fn base64_ok(v: Seq<u8>) -> Result<Seq<u8>, Base64DecodeError> {
    Ok(v)
}

/// A failed base64 decoding with the error `e`.
pub open spec fn base64_err(e: Base64DecodeError) -> Result<Seq<u8>, Base64DecodeError> {
    Err(e)
}

/// A successful hexadecimal decoding that gives `v`.
pub open spec fn hex_ok(v: Seq<u8>) -> Result<Seq<u8>, HexDecodeError> {
    Ok(v)
}

/// A failed hexadecimal decoding with the error `e`.
pub open spec fn hex_err(e: HexDecodeError) -> Result<Seq<u8>, HexDecodeError> {
    Err(e)
}

/// Result of decoding the base64 text `input` (its UTF-8 bytes) with the standard engine of
/// the `base64` crate (standard alphabet, canonical padding required).
pub uninterp spec fn base64_standard_decode(input: Seq<u8>) -> Result<Seq<u8>, Base64DecodeError>;

/// Calls `hex::encode`: the lowercase hexadecimal digits of each byte, high nibble first
/// (as the crate's documentation and source state).
#[verifier::external_body]
pub(crate) fn hex_encode(data: &[u8]) -> (r: String)
    ensures
        r@ == hex_encode_spec(data@),
{
    hex::encode(data)
}

/// Calls `hex::decode` on the UTF-8 bytes of `text`. As the crate's source shows, an odd
/// length is refused, then the first byte that is no digit (of either case); otherwise each
/// pair of digits gives one byte.
#[verifier::external_body]
pub(crate) fn hex_decode(text: &str) -> (r: Result<Vec<u8>, HexDecodeError>)
    ensures
        bytes_result(r) == hex_decode_spec(encode_utf8(text@)),
{
    match hex::decode(text) {
        Ok(v) => Ok(v),
        Err(hex::FromHexError::InvalidHexCharacter { c, index }) => Err(
            HexDecodeError::InvalidHexCharacter { c, index },
        ),
        Err(_) => Err(HexDecodeError::OddLength),
    }
}

/// Calls `base64::engine::general_purpose::STANDARD.encode`: the padded standard base64
/// encoding of `data`, which the same engine decodes back to `data`. The crate panics if the
/// length of the encoding overflows `usize`, which `requires` leaves out.
#[verifier::external_body]
pub(crate) fn base64_encode(data: &[u8]) -> (r: String)
    requires
        data@.len() / 3 * 4 + 4 <= usize::MAX,
    ensures
        r@ == base64_encode_spec(data@),
        base64_standard_decode(encode_utf8(r@)) == base64_ok(data@),
{
    base64::engine::general_purpose::STANDARD.encode(data)
}

/// Calls `base64::engine::general_purpose::STANDARD.decode` on the UTF-8 bytes of `text`.
/// What it returns is named by `base64_standard_decode`.
#[verifier::external_body]
pub(crate) fn base64_decode(text: &str) -> (r: Result<Vec<u8>, Base64DecodeError>)
    ensures
        bytes_result(r) == base64_standard_decode(encode_utf8(text@)),
{
    match base64::engine::general_purpose::STANDARD.decode(text) {
        Ok(v) => Ok(v),
        Err(base64::DecodeError::InvalidByte(i, b)) => Err(Base64DecodeError::InvalidByte(i, b)),
        Err(base64::DecodeError::InvalidLength(n)) => Err(Base64DecodeError::InvalidLength(n)),
        Err(base64::DecodeError::InvalidLastSymbol(i, b)) => Err(
            Base64DecodeError::InvalidLastSymbol(i, b),
        ),
        Err(base64::DecodeError::InvalidPadding) => Err(Base64DecodeError::InvalidPadding),
    }
}

/// Calls `std::str::from_utf8`: as its documentation says, the bytes are accepted as text
/// exactly if they are valid UTF-8, and the text is then the one they encode.
#[verifier::external_body]
pub(crate) fn utf8_text(bytes: &[u8]) -> (r: Option<&str>)
    ensures
        r is Some <==> valid_utf8(bytes@),
        r matches Some(s) ==> s@ == decode_utf8(bytes@),
{
    std::str::from_utf8(bytes).ok()
}

/// Errors of reading a value from the bytes of an XML text.
#[derive(Clone, Copy, Debug, PartialEq, Eq, Structural)]
pub enum BytesError<E> {
    /// The bytes are no valid UTF-8.
    InvalidUtf8,
    /// The text could not be decoded.
    Decode(E),
}

/// The UTF-8 encoding of the concatenation of two texts is the concatenation of their encodings.
pub proof fn lemma_encode_utf8_append(a: Seq<char>, b: Seq<char>)
    ensures
        encode_utf8(a + b) == encode_utf8(a) + encode_utf8(b),
    decreases a.len(),
{
    if a.len() == 0 {
        assert(a + b =~= b);
        assert(encode_utf8(a) =~= Seq::<u8>::empty());
        assert(encode_utf8(a) + encode_utf8(b) =~= encode_utf8(b));
    } else {
        assert((a + b).drop_first() =~= a.drop_first() + b);
        assert((a + b)[0] == a[0]);
        lemma_encode_utf8_append(a.drop_first(), b);
        assert(encode_utf8(a + b) =~= encode_utf8(a) + encode_utf8(b));
    }
}

/// Every ASCII character is encoded by one byte in UTF-8.
pub proof fn lemma_encode_utf8_ascii_len(s: Seq<char>)
    requires
        forall|i: int| 0 <= i < s.len() ==> (#[trigger] s[i] as u32) < 128,
    ensures
        encode_utf8(s).len() == s.len(),
    decreases s.len(),
{
    if s.len() > 0 {
        assert(s[0] as u32 <= 0x7F);
        lemma_encode_utf8_ascii_len(s.drop_first());
    }
}

/// The UTF-8 encoding of an ASCII text holds the character codes themselves.
pub proof fn lemma_encode_utf8_hex(s: Seq<char>)
    requires
        forall|i: int| 0 <= i < s.len() ==> (#[trigger] s[i] as u32) < 128,
    ensures
        encode_utf8(s).len() == s.len(),
        forall|i: int| 0 <= i < s.len() ==> #[trigger] encode_utf8(s)[i] as u32 == s[i] as u32,
    decreases s.len(),
{
    if s.len() > 0 {
        lemma_encode_utf8_hex(s.drop_first());
        let v = s[0] as u32;
        assert(v < 128);
        assert(((v & 0x7F) as u8) as u32 == v) by (bit_vector)
            requires
                v < 128,
        ;
        assert forall|i: int| 0 <= i < s.len() implies #[trigger] encode_utf8(s)[i] as u32
            == s[i] as u32 by {
            if i > 0 {
                assert(encode_utf8(s)[i] == encode_utf8(s.drop_first())[i - 1]);
                assert(s.drop_first()[i - 1] == s[i]);
            }
        }
    }
}

} // verus!
