[package]
name = "mrtd_crypto"
version = "0.1.0"
edition = "2021"
publish = false

[dependencies]
ruint = { version = "=1.20.1", features = ["subtle"] }
rand = "=0.8.8"
sha1 = "=0.10.7"
sha2 = "=0.10.9"
subtle = "=2.6.1"
hex = "=0.4.3"
