[package]
name = "otp_kit"
version = "0.1.0"
edition = "2021"
publish = false

[dependencies]
base32 = "*"
hmac = "*"
sha1 = "*"
sha2 = "*"
urlencoding = "*"
