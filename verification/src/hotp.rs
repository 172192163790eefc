//! The counter-based token generator.

use crate::algorithm::Algorithm;
use crate::encoding::{base32_decode_rfc4648, base32_rfc4648, decode_rfc4648, encode_rfc4648};
use crate::error::OTPError;
use crate::utils::{
    generate_hotp_token, hotp_token, spec_issuer_view, spec_key_uri, to_key_uri, KeyUriOptions,
    KeyUriType,
};
use vstd::prelude::*;

verus! {

/// A counter-based token generator: an algorithm tag, the raw secret bytes,
/// and the token width. Immutable once constructed; the caller owns and
/// increments the counter.
#[derive(Debug, Clone)]
pub struct HOTP {
    pub algorithm: Algorithm,
    pub secret: Vec<u8>,
    /// The number of digits a token will have. Usually 6 or 8.
    pub digits: u32,
}

impl HOTP {
    /// Binds an algorithm, a raw secret and a token width.
    pub fn new(algorithm: Algorithm, secret: Vec<u8>, digits: u32) -> (r: Self)
        ensures
            r.algorithm == algorithm,
            r.secret@ == secret@,
            r.digits == digits,
    {
        HOTP { algorithm, secret, digits }
    }

    /// Decodes an unpadded RFC 4648 base32 secret and binds it with the
    /// defaults: Sha1, 6 digits.
    pub fn from_base32(secret: &str) -> (r: Result<Self, OTPError>)
        ensures
            base32_decode_rfc4648(secret@) matches Some(b) ==> (r matches Ok(g) && g.algorithm
                is Sha1 && g.secret@ == b && g.digits == 6),
            base32_decode_rfc4648(secret@) is None ==> (r matches Err(e) && e
                is Base32DecodeError),
    {
        match decode_rfc4648(secret) {
            Some(bytes) => Ok(HOTP::new(Algorithm::Sha1, bytes, 6)),
            None => Err(OTPError::Base32DecodeError),
        }
    }

    /// The token for this counter: always the same digit string for the same
    /// generator and counter.
    pub fn generate_token(&self, counter: u64) -> (r: Result<String, OTPError>)
        ensures
            r is Ok,
            r matches Ok(t) ==> t@ == hotp_token(self.algorithm, self.secret@, counter, self.digits),
    {
        generate_hotp_token(&self.algorithm, self.secret.as_slice(), counter, self.digits)
    }

    /// Serializes this generator, the given counter and the label parts as an
    /// `otpauth://hotp/` key URI.
    pub fn to_key_uri(&self, account_name: String, issuer: Option<String>, counter: u64) -> (r:
        Result<String, OTPError>)
        ensures
            r is Ok,
            r matches Ok(u) ==> u@ == spec_key_uri(
                KeyUriType::HOTP,
                base32_rfc4648(self.secret@),
                Some(counter),
                None,
                Some(self.algorithm),
                Some(self.digits),
                account_name@,
                spec_issuer_view(issuer),
            ),
    {
        let secret = encode_rfc4648(self.secret.as_slice());
        to_key_uri(
            KeyUriOptions {
                uri_type: KeyUriType::HOTP,
                secret,
                counter: Some(counter),
                period: None,
                algorithm: Some(self.algorithm),
                digits: Some(self.digits),
                account_name,
                issuer,
            },
        )
    }
}

} // verus!
