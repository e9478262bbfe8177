[package]
name = "xsd_parser"
version = "0.1.0"
edition = "2021"
publish = false

[dependencies]
base64 = "0.22"
hex = "0.4"
url = "2"
quote = "1"
proc-macro2 = "1"
