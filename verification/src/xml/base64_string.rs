use vstd::prelude::*;
use vstd::utf8::*;

use crate::codec::{
    base64_decode, base64_encode_spec, base64_standard_decode, base64_symbol, bytes_result,
    lemma_encode_utf8_append, lemma_encode_utf8_ascii_len, utf8_text, Base64DecodeError, BytesError,
};

verus! {

/// A string representation of base64 binary data (`xs:base64Binary`).
///
/// This type stores the base64-encoded string directly without decoding.
/// The `len()` method returns the byte length of the decoded data,
/// not the length of the base64 string.
#[derive(Debug)]
pub struct Base64String(pub String);

impl View for Base64String {
    type V = Seq<char>;

    open spec fn view(&self) -> Seq<char> {
        self.0@
    }
}

/// `s` without its trailing `=` characters.
pub open spec fn trim_padding(s: Seq<char>) -> Seq<char>
    decreases s.len(),
{
    if s.len() > 0 && s.last() == '=' {
        trim_padding(s.drop_last())
    } else {
        s
    }
}

/// Number of bytes that the base64 text `s` decodes to: three bytes for each four
/// characters that are no padding (measured in UTF-8 bytes).
pub open spec fn base64_decoded_len(s: Seq<char>) -> nat {
    (encode_utf8(trim_padding(s)).len() * 3) / 4
}

impl Base64String {
    /// Creates a new `Base64String` from a string.
    pub fn new(s: String) -> (r: Base64String)
        ensures
            r@ == s@,
    {
        Base64String(s)
    }

    /// Returns the byte length of the decoded data, not the length of the string.
    pub fn len(&self) -> (r: usize)
        requires
            encode_utf8(self@).len() <= usize::MAX,
            encode_utf8(trim_padding(self@)).len() * 3 <= usize::MAX,
        ensures
            r == base64_decoded_len(self@),
    {
        let s = self.0.as_str();
        let n = s.unicode_len();
        let total = s.len();
        let mut k: usize = 0;
        let ghost chars = s@;
        assert(chars.take(n as int) =~= chars);
        assert(chars.skip(n as int) =~= Seq::<char>::empty());
        while k < n && s.get_char(n - 1 - k) == '='
            invariant
                k <= n,
                n == chars.len(),
                chars == s@,
                trim_padding(chars) == trim_padding(chars.take(n - k)),
                forall|i: int| n - k <= i < n ==> chars[i] == '=',
            decreases n - k,
        {
            assert(chars.take(n - k).drop_last() =~= chars.take(n - k - 1));
            k = k + 1;
        }
        proof {
            let t = chars.take(n - k);
            let pad = chars.skip(n - k);
            assert(chars =~= t + pad);
            if n - k > 0 {
                assert(t.last() != '=');
            }
            assert(trim_padding(t) == t);
            assert forall|i: int| 0 <= i < pad.len() implies (#[trigger] pad[i] as u32) < 128 by {
                assert(pad[i] == chars[n - k + i]);
            }
            lemma_encode_utf8_ascii_len(pad);
            lemma_encode_utf8_append(t, pad);
            assert(encode_utf8(chars).len() == total);
        }
        ((total - k) * 3) / 4
    }

    /// Reads the text from the bytes of an XML value; it is kept as it is.
    ///
    /// # Errors
    ///
    /// Returns [`BytesError::InvalidUtf8`] if the bytes are no UTF-8 text.
    pub fn deserialize_bytes(bytes: &[u8]) -> (r: Result<Base64String, BytesError<()>>)
        ensures
            valid_utf8(bytes@) ==> (r matches Ok(t) && t@ == decode_utf8(bytes@)),
            !valid_utf8(bytes@) ==> r == Err::<Base64String, BytesError<()>>(BytesError::InvalidUtf8),
    {
        match utf8_text(bytes) {
            Some(s) => Ok(Base64String(s.to_string())),
            None => Err(BytesError::InvalidUtf8),
        }
    }

    /// Writes the text as the text of an XML value, as it is.
    pub fn serialize_bytes(&self) -> (r: &str)
        ensures
            r@ == self@,
    {
        self.0.as_str()
    }

    /// Returns `true` if the base64 string is empty.
    pub fn is_empty(&self) -> (r: bool)
        ensures
            r == (self@.len() == 0),
    {
        self.0.as_str().is_empty()
    }

    /// Returns the base64 string as a string slice.
    pub fn as_str(&self) -> (r: &str)
        ensures
            r@ == self@,
    {
        self.0.as_str()
    }

    /// Decodes the base64 string into bytes.
    ///
    /// # Errors
    ///
    /// Returns an error if the base64 string is invalid.
    pub fn decode(&self) -> (r: Result<Vec<u8>, Base64DecodeError>)
        ensures
            bytes_result(r) == base64_standard_decode(encode_utf8(self@)),
    {
        base64_decode(self.0.as_str())
    }
}

/// Every base64 symbol is an ASCII character other than the padding `=`.
proof fn lemma_base64_symbol(v: int)
    requires
        0 <= v < 64,
    ensures
        base64_symbol(v) != '=',
        (base64_symbol(v) as u32) < 128,
{
}

/// Removing the padding only looks at the end: a prefix before a text that does not start
/// with padding is kept.
proof fn lemma_trim_padding_prefix(x: Seq<char>, y: Seq<char>)
    requires
        y.len() > 0,
        y[0] != '=',
    ensures
        trim_padding(x + y) == x + trim_padding(y),
    decreases y.len(),
{
    if y.last() == '=' {
        assert(y.len() > 1);
        assert((x + y).drop_last() =~= x + y.drop_last());
        lemma_trim_padding_prefix(x, y.drop_last());
    } else {
        assert((x + y).last() == y.last());
    }
}

/// The base64 encoding of `b` without its padding: four symbols for each full group of three
/// bytes, and one more symbol than bytes for a last partial group; all of them ASCII.
proof fn lemma_encoding_unpadded(b: Seq<u8>)
    ensures
        trim_padding(base64_encode_spec(b)).len() == if b.len() % 3 == 0 {
            b.len() / 3 * 4
        } else {
            b.len() / 3 * 4 + b.len() % 3 + 1
        },
        forall|i: int|
            0 <= i < trim_padding(base64_encode_spec(b)).len() ==> (#[trigger] trim_padding(
                base64_encode_spec(b),
            )[i] as u32) < 128,
    decreases b.len(),
{
    let e = base64_encode_spec(b);
    if b.len() == 0 {
        assert(e.len() == 0);
    } else {
        let b0 = b[0] as int;
        let b1 = if b.len() > 1 { b[1] as int } else { 0 };
        let b2 = if b.len() > 2 { b[2] as int } else { 0 };
        lemma_base64_symbol(b0 / 4);
        lemma_base64_symbol((b0 % 4) * 16 + b1 / 16);
        lemma_base64_symbol((b1 % 16) * 4 + b2 / 64);
        lemma_base64_symbol(b2 % 64);
        let chunk = seq![
            base64_symbol(b0 / 4),
            base64_symbol((b0 % 4) * 16 + b1 / 16),
            if b.len() > 1 { base64_symbol((b1 % 16) * 4 + b2 / 64) } else { '=' },
            if b.len() > 2 { base64_symbol(b2 % 64) } else { '=' },
        ];
        if b.len() <= 3 {
            assert(e == chunk);
            if b.len() == 1 {
                assert(chunk.drop_last().drop_last() =~= chunk.take(2));
                assert(trim_padding(chunk) == trim_padding(chunk.drop_last()));
                assert(trim_padding(chunk.drop_last()) == trim_padding(chunk.drop_last().drop_last()));
                assert(trim_padding(chunk.take(2)) == chunk.take(2));
            } else if b.len() == 2 {
                assert(trim_padding(chunk) == trim_padding(chunk.drop_last()));
                assert(trim_padding(chunk.drop_last()) == chunk.drop_last());
            } else {
                assert(trim_padding(chunk) == chunk);
            }
        } else {
            let rest = b.skip(3);
            let er = base64_encode_spec(rest);
            assert(e == chunk + er);
            lemma_encoding_unpadded(rest);
            let r0 = rest[0] as int;
            let r1 = if rest.len() > 1 { rest[1] as int } else { 0 };
            lemma_base64_symbol(r0 / 4);
            assert(er[0] == base64_symbol(r0 / 4));
            lemma_trim_padding_prefix(chunk, er);
            assert(rest.len() == b.len() - 3);
            let t = trim_padding(er);
            assert forall|i: int| 0 <= i < (chunk + t).len() implies #[trigger] ((chunk + t)[i] as u32)
                < 128 by {
                if i >= 4 {
                    assert((chunk + t)[i] == t[i - 4]);
                }
            }
        }
    }
}

/// A base64 encoding has the length of the encoded data: for any bytes `b`, the length that
/// [`Base64String::len`] computes from their padded standard encoding is the number of bytes.
pub proof fn law_base64_len_of_encoding(b: Seq<u8>)
    ensures
        base64_decoded_len(base64_encode_spec(b)) == b.len(),
{
    let t = trim_padding(base64_encode_spec(b));
    lemma_encoding_unpadded(b);
    lemma_encode_utf8_ascii_len(t);
    let n = b.len() as int;
    let q = n / 3;
    let r = n % 3;
    assert(n == 3 * q + r);
    if r == 0 {
        assert(t.len() == 4 * q);
        assert((4 * q * 3) / 4 == 3 * q);
    } else {
        assert(t.len() == 4 * q + r + 1);
        assert(((4 * q + r + 1) * 3) / 4 == 3 * q + r);
    }
}

impl std::convert::AsRef<str> for Base64String {
    fn as_ref(&self) -> (r: &str)
        ensures
            r@ == self@,
    {
        self.0.as_str()
    }
}

impl From<String> for Base64String {
    fn from(s: String) -> (r: Base64String) {
        Base64String(s)
    }
}

impl vstd::std_specs::convert::FromSpecImpl<String> for Base64String {
    open spec fn obeys_from_spec() -> bool {
        true
    }

    open spec fn from_spec(v: String) -> Base64String {
        Base64String(v)
    }
}

impl From<Base64String> for String {
    fn from(s: Base64String) -> (r: String) {
        s.0
    }
}

impl vstd::std_specs::convert::FromSpecImpl<Base64String> for String {
    open spec fn obeys_from_spec() -> bool {
        true
    }

    open spec fn from_spec(v: Base64String) -> String {
        v.0
    }
}

} // verus!
