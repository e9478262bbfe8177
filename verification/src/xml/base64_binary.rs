use vstd::prelude::*;
use vstd::utf8::*;

use crate::codec::{
    base64_decode, base64_encode, base64_encode_spec, base64_standard_decode, utf8_text,
    Base64DecodeError, BytesError, base64_ok, base64_err,
};

verus! {

/// A binary representation of base64 binary data (`xs:base64Binary`).
///
/// This type stores the decoded binary data directly as `Vec<u8>`.
#[derive(Debug)]
pub struct Base64Binary(pub Vec<u8>);

impl View for Base64Binary {
    type V = Seq<u8>;

    open spec fn view(&self) -> Seq<u8> {
        self.0@
    }
}

impl Base64Binary {
    /// Creates a new `Base64Binary` from a vector of bytes.
    pub fn new(data: Vec<u8>) -> (r: Base64Binary)
        ensures
            r@ == data@,
    {
        Base64Binary(data)
    }

    /// Creates a new `Base64Binary` from a base64-encoded string.
    ///
    /// # Errors
    ///
    /// Returns an error if the base64 string is invalid.
    pub fn from_base64(s: &str) -> (r: Result<Base64Binary, Base64DecodeError>)
        ensures
            r matches Ok(b) ==> base64_standard_decode(encode_utf8(s@)) == base64_ok(b@),
            r matches Err(e) ==> base64_standard_decode(encode_utf8(s@)) == base64_err(e),
    {
        match base64_decode(s) {
            Ok(v) => Ok(Base64Binary(v)),
            Err(e) => Err(e),
        }
    }

    /// Encodes the binary data as a base64 string.
    pub fn to_base64(&self) -> (r: String)
        requires
            self@.len() / 3 * 4 + 4 <= usize::MAX,
        ensures
            r@ == base64_encode_spec(self@),
            base64_standard_decode(encode_utf8(r@)) == base64_ok(self@),
    {
        base64_encode(self.0.as_slice())
    }

    /// Reads the binary data from the bytes of an XML text: the bytes must be UTF-8 text
    /// that is valid standard base64.
    ///
    /// # Errors
    ///
    /// Returns [`BytesError::InvalidUtf8`] if the bytes are no UTF-8 text, and the decoding
    /// error if the text is no valid base64.
    pub fn deserialize_bytes(bytes: &[u8]) -> (r: Result<Base64Binary, BytesError<Base64DecodeError>>)
        ensures
            !valid_utf8(bytes@) ==> r == Err::<Base64Binary, BytesError<Base64DecodeError>>(
                BytesError::InvalidUtf8,
            ),
            valid_utf8(bytes@) ==> match base64_standard_decode(bytes@) {
                Ok(v) => (r matches Ok(b) && b@ == v),
                Err(e) => r == Err::<Base64Binary, BytesError<Base64DecodeError>>(
                    BytesError::Decode(e),
                ),
            },
    {
        let s = match utf8_text(bytes) {
            Some(s) => s,
            None => return Err(BytesError::InvalidUtf8),
        };
        proof {
            decode_utf8_encode_utf8(bytes@);
        }
        match Self::from_base64(s) {
            Ok(b) => Ok(b),
            Err(e) => Err(BytesError::Decode(e)),
        }
    }

    /// Writes the binary data as the text of an XML value: its standard base64 encoding.
    pub fn serialize_bytes(&self) -> (r: String)
        requires
            self@.len() / 3 * 4 + 4 <= usize::MAX,
        ensures
            r@ == base64_encode_spec(self@),
    {
        self.to_base64()
    }

    /// Returns the binary data as a slice.
    pub fn as_slice(&self) -> (r: &[u8])
        ensures
            r@ == self@,
    {
        self.0.as_slice()
    }
}

impl std::ops::Deref for Base64Binary {
    type Target = Vec<u8>;

    fn deref(&self) -> (r: &Vec<u8>)
        ensures
            r@ == self@,
    {
        &self.0
    }
}

impl std::convert::AsRef<[u8]> for Base64Binary {
    fn as_ref(&self) -> (r: &[u8])
        ensures
            r@ == self@,
    {
        self.0.as_slice()
    }
}

impl From<Vec<u8>> for Base64Binary {
    fn from(data: Vec<u8>) -> (r: Base64Binary) {
        Base64Binary(data)
    }
}

impl vstd::std_specs::convert::FromSpecImpl<Vec<u8>> for Base64Binary {
    open spec fn obeys_from_spec() -> bool {
        true
    }

    open spec fn from_spec(v: Vec<u8>) -> Base64Binary {
        Base64Binary(v)
    }
}

impl From<Base64Binary> for Vec<u8> {
    fn from(b: Base64Binary) -> (r: Vec<u8>) {
        b.0
    }
}

impl vstd::std_specs::convert::FromSpecImpl<Base64Binary> for Vec<u8> {
    open spec fn obeys_from_spec() -> bool {
        true
    }

    open spec fn from_spec(v: Base64Binary) -> Vec<u8> {
        v.0
    }
}

} // verus!
