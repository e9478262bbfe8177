use vstd::prelude::*;
use vstd::utf8::*;

use crate::codec::{
    first_non_hex, hex_decode, hex_decode_spec, hex_decoded_bytes, hex_encode, hex_encode_spec,
    hex_value, lemma_encode_utf8_hex, utf8_text, BytesError, HexDecodeError, hex_ok, hex_err,
};

verus! {

/// A binary representation of hex binary data (`xs:hexBinary`).
///
/// This type stores the decoded binary data directly as `Vec<u8>`.
#[derive(Debug)]
pub struct HexBinary(pub Vec<u8>);

impl View for HexBinary {
    type V = Seq<u8>;

    open spec fn view(&self) -> Seq<u8> {
        self.0@
    }
}

impl HexBinary {
    /// Creates a new `HexBinary` from a vector of bytes.
    pub fn new(data: Vec<u8>) -> (r: HexBinary)
        ensures
            r@ == data@,
    {
        HexBinary(data)
    }

    /// Creates a new `HexBinary` from a hex-encoded string.
    ///
    /// # Errors
    ///
    /// Returns an error if the hex string is invalid.
    pub fn from_hex(s: &str) -> (r: Result<HexBinary, HexDecodeError>)
        ensures
            r matches Ok(b) ==> hex_decode_spec(encode_utf8(s@)) == hex_ok(b@),
            r matches Err(e) ==> hex_decode_spec(encode_utf8(s@)) == hex_err(e),
    {
        match hex_decode(s) {
            Ok(v) => Ok(HexBinary(v)),
            Err(e) => Err(e),
        }
    }

    /// Encodes the binary data as a hex string.
    pub fn to_hex(&self) -> (r: String)
        ensures
            r@ == hex_encode_spec(self@),
            hex_decode_spec(encode_utf8(r@)) == hex_ok(self@),
    {
        proof {
            law_hex_roundtrip(self@);
        }
        hex_encode(self.0.as_slice())
    }

    /// Reads the binary data from the bytes of an XML text: the bytes must be UTF-8 text of
    /// hexadecimal digits.
    ///
    /// # Errors
    ///
    /// Returns [`BytesError::InvalidUtf8`] if the bytes are no UTF-8 text, and the decoding
    /// error if the text is no valid hexadecimal data.
    pub fn deserialize_bytes(bytes: &[u8]) -> (r: Result<HexBinary, BytesError<HexDecodeError>>)
        ensures
            !valid_utf8(bytes@) ==> r == Err::<HexBinary, BytesError<HexDecodeError>>(
                BytesError::InvalidUtf8,
            ),
            valid_utf8(bytes@) ==> match hex_decode_spec(bytes@) {
                Ok(v) => (r matches Ok(b) && b@ == v),
                Err(e) => r == Err::<HexBinary, BytesError<HexDecodeError>>(BytesError::Decode(e)),
            },
    {
        let s = match utf8_text(bytes) {
            Some(s) => s,
            None => return Err(BytesError::InvalidUtf8),
        };
        proof {
            decode_utf8_encode_utf8(bytes@);
        }
        match Self::from_hex(s) {
            Ok(b) => Ok(b),
            Err(e) => Err(BytesError::Decode(e)),
        }
    }

    /// Writes the binary data as the text of an XML value: its lowercase hexadecimal digits.
    pub fn serialize_bytes(&self) -> (r: String)
        ensures
            r@ == hex_encode_spec(self@),
    {
        self.to_hex()
    }

    /// Returns the binary data as a slice.
    pub fn as_slice(&self) -> (r: &[u8])
        ensures
            r@ == self@,
    {
        self.0.as_slice()
    }
}

impl std::ops::Deref for HexBinary {
    type Target = Vec<u8>;

    fn deref(&self) -> (r: &Vec<u8>)
        ensures
            r@ == self@,
    {
        &self.0
    }
}

impl std::convert::AsRef<[u8]> for HexBinary {
    fn as_ref(&self) -> (r: &[u8])
        ensures
            r@ == self@,
    {
        self.0.as_slice()
    }
}

impl From<Vec<u8>> for HexBinary {
    fn from(data: Vec<u8>) -> (r: HexBinary) {
        HexBinary(data)
    }
}

impl vstd::std_specs::convert::FromSpecImpl<Vec<u8>> for HexBinary {
    open spec fn obeys_from_spec() -> bool {
        true
    }

    open spec fn from_spec(v: Vec<u8>) -> HexBinary {
        HexBinary(v)
    }
}

impl From<HexBinary> for Vec<u8> {
    fn from(h: HexBinary) -> (r: Vec<u8>) {
        h.0
    }
}

impl vstd::std_specs::convert::FromSpecImpl<HexBinary> for Vec<u8> {
    open spec fn obeys_from_spec() -> bool {
        true
    }

    open spec fn from_spec(v: HexBinary) -> Vec<u8> {
        v.0
    }
}

/// Decoding the hexadecimal encoding of some bytes gives the same bytes back.
pub proof fn law_hex_roundtrip(bytes: Seq<u8>)
    ensures
        hex_decode_spec(encode_utf8(hex_encode_spec(bytes))) == hex_ok(bytes),
{
    let s = hex_encode_spec(bytes);
    assert forall|i: int| 0 <= i < s.len() implies (#[trigger] s[i] as u32) < 128 by {
        let v = if i % 2 == 0 { bytes[i / 2] as int / 16 } else { bytes[i / 2] as int % 16 };
        assert(0 <= v < 16);
    }
    lemma_encode_utf8_hex(s);
    let e = encode_utf8(s);
    assert(e.len() == 2 * bytes.len());
    assert forall|i: int| 0 <= i < e.len() implies #[trigger] hex_value(e[i]) == Some(
        if i % 2 == 0 { bytes[i / 2] as int / 16 } else { bytes[i / 2] as int % 16 },
    ) by {
        let v = if i % 2 == 0 { bytes[i / 2] as int / 16 } else { bytes[i / 2] as int % 16 };
        assert(0 <= v < 16);
        assert(e[i] as u32 == s[i] as u32);
    }
    lemma_no_non_hex(e, 0);
    assert forall|i: int| 0 <= i < bytes.len() implies #[trigger] hex_decoded_bytes(e)[i]
        == bytes[i] by {
        assert(hex_value(e[2 * i]) == Some(bytes[i] as int / 16));
        assert(hex_value(e[2 * i + 1]) == Some(bytes[i] as int % 16));
    }
    assert(hex_decoded_bytes(e) =~= bytes);
}

/// If every byte is a hexadecimal digit, the search for a non-digit ends at the end.
proof fn lemma_no_non_hex(e: Seq<u8>, start: int)
    requires
        0 <= start <= e.len(),
        forall|i: int| 0 <= i < e.len() ==> (#[trigger] hex_value(e[i])) is Some,
    ensures
        first_non_hex(e, start) == e.len(),
    decreases e.len() - start,
{
    if start < e.len() {
        assert(hex_value(e[start]) is Some);
        lemma_no_non_hex(e, start + 1);
    }
}

} // verus!
