//! Types that store binary XML data (`xs:hexBinary` and `xs:base64Binary`).

pub mod base64_binary;
pub mod base64_string;
pub mod hex_binary;
pub mod hex_string;

pub use self::base64_binary::Base64Binary;
pub use self::base64_string::Base64String;
pub use self::hex_binary::HexBinary;
pub use self::hex_string::HexString;
