//! One-time-password tokens: counter-based (HOTP) and time-based (TOTP)
//! generators, together with the `otpauth://` key-URI serializer that
//! provisioning apps consume.

pub mod algorithm;
pub mod decimal;
pub mod encoding;
pub mod error;
pub mod hotp;
pub mod totp;
pub mod utils;

pub use algorithm::Algorithm;
pub use error::OTPError;
pub use hotp::HOTP;
pub use totp::TOTP;
pub use utils::{generate_hotp_token, to_key_uri, KeyUriOptions, KeyUriType};
