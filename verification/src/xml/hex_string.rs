use vstd::prelude::*;
use vstd::utf8::*;

use crate::codec::{bytes_result, hex_decode, hex_decode_spec, hex_encode_spec, utf8_text, BytesError, HexDecodeError};
use super::hex_binary::law_hex_roundtrip;

verus! {

/// A string representation of hex binary data (`xs:hexBinary`).
///
/// This type stores the hex-encoded string directly without decoding.
/// The `len()` method returns the byte length of the decoded data,
/// not the length of the hex string.
#[derive(Debug)]
pub struct HexString(pub String);

impl View for HexString {
    type V = Seq<char>;

    open spec fn view(&self) -> Seq<char> {
        self.0@
    }
}

impl HexString {
    /// Creates a new `HexString` from a string.
    pub fn new(s: String) -> (r: HexString)
        ensures
            r@ == s@,
    {
        HexString(s)
    }

    /// Returns the byte length of the decoded data, not the length of the string:
    /// each pair of hex digits represents one byte.
    pub fn len(&self) -> (r: usize)
        ensures
            r == (encode_utf8(self@).len() as usize) / 2,
    {
        self.0.as_str().len() / 2
    }

    /// Reads the text from the bytes of an XML value; it is kept as it is.
    ///
    /// # Errors
    ///
    /// Returns [`BytesError::InvalidUtf8`] if the bytes are no UTF-8 text.
    pub fn deserialize_bytes(bytes: &[u8]) -> (r: Result<HexString, BytesError<()>>)
        ensures
            valid_utf8(bytes@) ==> (r matches Ok(t) && t@ == decode_utf8(bytes@)),
            !valid_utf8(bytes@) ==> r == Err::<HexString, BytesError<()>>(BytesError::InvalidUtf8),
    {
        match utf8_text(bytes) {
            Some(s) => Ok(HexString(s.to_string())),
            None => Err(BytesError::InvalidUtf8),
        }
    }

    /// Writes the text as the text of an XML value, as it is.
    pub fn serialize_bytes(&self) -> (r: &str)
        ensures
            r@ == self@,
    {
        self.0.as_str()
    }

    /// Returns `true` if the hex string is empty.
    pub fn is_empty(&self) -> (r: bool)
        ensures
            r == (self@.len() == 0),
    {
        self.0.as_str().is_empty()
    }

    /// Returns the hex string as a string slice.
    pub fn as_str(&self) -> (r: &str)
        ensures
            r@ == self@,
    {
        self.0.as_str()
    }

    /// Decodes the hex string into bytes.
    ///
    /// # Errors
    ///
    /// Returns an error if the hex string is invalid.
    pub fn decode(&self) -> (r: Result<Vec<u8>, HexDecodeError>)
        ensures
            bytes_result(r) == hex_decode_spec(encode_utf8(self@)),
    {
        hex_decode(self.0.as_str())
    }
}

/// The length that [`HexString::len`] computes is the length of the decoded data: whenever
/// the text decodes, it decodes to that many bytes.
pub proof fn law_hex_len_matches_decode(s: Seq<char>)
    ensures
        hex_decode_spec(encode_utf8(s)) matches Ok(v) ==> v.len() == encode_utf8(s).len() / 2,
{
}

/// The hexadecimal encoding of `b` has the length of `b` as [`HexString::len`] computes it.
pub proof fn law_hex_len_of_encoding(b: Seq<u8>)
    ensures
        encode_utf8(hex_encode_spec(b)).len() / 2 == b.len(),
{
    law_hex_roundtrip(b);
}

impl std::convert::AsRef<str> for HexString {
    fn as_ref(&self) -> (r: &str)
        ensures
            r@ == self@,
    {
        self.0.as_str()
    }
}

impl From<String> for HexString {
    fn from(s: String) -> (r: HexString) {
        HexString(s)
    }
}

impl vstd::std_specs::convert::FromSpecImpl<String> for HexString {
    open spec fn obeys_from_spec() -> bool {
        true
    }

    open spec fn from_spec(v: String) -> HexString {
        HexString(v)
    }
}

impl From<HexString> for String {
    fn from(s: HexString) -> (r: String) {
        s.0
    }
}

impl vstd::std_specs::convert::FromSpecImpl<HexString> for String {
    open spec fn obeys_from_spec() -> bool {
        true
    }

    open spec fn from_spec(v: HexString) -> String {
        v.0
    }
}

} // verus!
