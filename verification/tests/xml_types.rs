use xsd_parser::codec::{BytesError, HexDecodeError};
use xsd_parser::xml::{Base64Binary, Base64String, HexBinary, HexString};

#[test]
fn hex_binary_roundtrip() {
    let b = HexBinary::new(vec![1, 2, 3, 15, 16, 255]);
    let s = b.to_hex();
    assert_eq!(s, "0102030f10ff");
    let back = HexBinary::from_hex(&s).unwrap();
    assert_eq!(back.0, vec![1, 2, 3, 15, 16, 255]);
}

#[test]
fn base64_string_len() {
    let s = Base64String::new("aGVsbG8=".to_string());
    assert_eq!(s.len(), 5);
    assert!(!s.is_empty());
    assert_eq!(s.decode().unwrap(), b"hello".to_vec());
    let b = Base64Binary::new(b"hello".to_vec());
    assert_eq!(b.to_base64(), "aGVsbG8=");
    let h = HexString::new("0a0B".to_string());
    assert_eq!(h.len(), 2);
    assert_eq!(h.decode().unwrap(), vec![10, 11]);
}

#[test]
fn hex_decode_errors() {
    assert!(matches!(HexBinary::from_hex("abc"), Err(HexDecodeError::OddLength)));
    assert!(matches!(
        HexBinary::from_hex("0g"),
        Err(HexDecodeError::InvalidHexCharacter { c: 'g', index: 1 })
    ));
    assert_eq!(HexBinary::from_hex("0A0b").unwrap().as_slice(), &[10, 11]);
    assert!(HexString::new(String::new()).is_empty());
    assert_eq!(HexString::new("0a0b0c".to_string()).as_str(), "0a0b0c");
}

#[test]
fn base64_decode_errors() {
    assert!(Base64Binary::from_base64("a").is_err());
    assert!(Base64Binary::from_base64("aGVsbG8").is_err());
    assert!(Base64String::new("!!!!".to_string()).decode().is_err());
    assert_eq!(Base64Binary::from_base64("").unwrap().as_slice(), &[] as &[u8]);
}

#[test]
fn encoded_lengths_match_decoded_lengths() {
    for n in 0..10usize {
        let bytes: Vec<u8> = (0..n as u8).collect();
        let b64 = Base64Binary::new(bytes.clone()).to_base64();
        assert_eq!(Base64String::new(b64.clone()).len(), n);
        assert_eq!(Base64Binary::from_base64(&b64).unwrap().as_slice(), bytes.as_slice());
        let hex = HexBinary::new(bytes.clone()).to_hex();
        assert_eq!(HexString::new(hex.clone()).len(), n);
        assert_eq!(HexString::new(hex).decode().unwrap(), bytes);
    }
}

#[test]
fn values_are_read_from_and_written_as_xml_text() {
    let b = Base64Binary::deserialize_bytes(b"aGVsbG8=").unwrap();
    assert_eq!(b.as_slice(), b"hello");
    assert_eq!(b.serialize_bytes(), "aGVsbG8=");
    assert!(matches!(Base64Binary::deserialize_bytes(&[0xff, 0xfe]), Err(BytesError::InvalidUtf8)));
    assert!(matches!(Base64Binary::deserialize_bytes(b"a"), Err(BytesError::Decode(_))));
    let h = HexBinary::deserialize_bytes(b"ff00").unwrap();
    assert_eq!(h.as_slice(), &[255, 0]);
    assert_eq!(h.serialize_bytes(), "ff00");
    assert!(matches!(HexBinary::deserialize_bytes(b"f"), Err(BytesError::Decode(HexDecodeError::OddLength))));
    assert!(matches!(HexBinary::deserialize_bytes(&[0xc3]), Err(BytesError::InvalidUtf8)));
    let s = HexString::deserialize_bytes("0a".as_bytes()).unwrap();
    assert_eq!(s.serialize_bytes(), "0a");
    let s = Base64String::deserialize_bytes("é=".as_bytes()).unwrap();
    assert_eq!(s.as_str(), "é=");
    assert!(Base64String::deserialize_bytes(&[0x80]).is_err());
}

#[test]
fn binary_types_convert_and_deref() {
    let h: HexBinary = vec![0xde, 0xad].into();
    assert_eq!(h.len(), 2);
    assert_eq!(h[1], 0xad);
    let r: &[u8] = h.as_ref();
    assert_eq!(r, &[0xde, 0xad]);
    let v: Vec<u8> = h.into();
    assert_eq!(v, vec![0xde, 0xad]);

    let b = Base64Binary::from(vec![104, 105]);
    assert_eq!(b.to_base64(), "aGk=");
    assert!(!b.is_empty());
    let r: &[u8] = b.as_ref();
    assert_eq!(r, b"hi");
    assert_eq!(Vec::<u8>::from(b), b"hi".to_vec());
}

#[test]
fn string_types_convert() {
    let h = HexString::from("0aff".to_string());
    let r: &str = h.as_ref();
    assert_eq!(r, "0aff");
    assert_eq!(String::from(h), "0aff");

    let b: Base64String = "aGk=".to_string().into();
    let r: &str = b.as_ref();
    assert_eq!(r, "aGk=");
    let s: String = b.into();
    assert_eq!(s, "aGk=");
}
