//! The time-based token generator.

use crate::algorithm::Algorithm;
use crate::encoding::{base32_decode_rfc4648, base32_rfc4648, decode_rfc4648, encode_rfc4648};
use crate::error::OTPError;
use crate::utils::{
    generate_hotp_token, hotp_token, spec_issuer_view, spec_key_uri, to_key_uri, KeyUriOptions,
    KeyUriType,
};
use vstd::prelude::*;

verus! {

/// A time-based token generator: a counter-based generator whose counter is
/// derived from a timestamp as `floor(epoch / period)`.
#[derive(Debug, Clone)]
pub struct TOTP {
    pub algorithm: Algorithm,
    pub secret: Vec<u8>,
    pub digits: u32,
    /// The time-step length in seconds. Commonly 30.
    pub period: u64,
}

/// The time-based token: the counter-based token at counter
/// `floor(epoch / period)`.
pub open spec fn totp_token(
    algorithm: Algorithm,
    secret: Seq<u8>,
    digits: u32,
    period: u64,
    epoch: u64,
) -> Seq<char>
    recommends
        period > 0,
{
    hotp_token(algorithm, secret, (epoch / period) as u64, digits)
}

/// Law: a time-based token equals the counter-based token for the same
/// algorithm, secret and width at the derived counter `floor(epoch / period)`,
/// for every timestamp and every nonzero period.
pub proof fn lemma_totp_matches_hotp(
    algorithm: Algorithm,
    secret: Seq<u8>,
    digits: u32,
    period: u64,
    epoch: u64,
)
    requires
        period > 0,
    ensures
        totp_token(algorithm, secret, digits, period, epoch) == hotp_token(
            algorithm,
            secret,
            (epoch / period) as u64,
            digits,
        ),
{
}

impl TOTP {
    /// Binds an algorithm, a raw secret, a token width and a period.
    pub fn new(algorithm: Algorithm, secret: Vec<u8>, digits: u32, period: u64) -> (r: Self)
        ensures
            r.algorithm == algorithm,
            r.secret@ == secret@,
            r.digits == digits,
            r.period == period,
    {
        TOTP { algorithm, secret, digits, period }
    }

    /// Decodes an unpadded RFC 4648 base32 secret and binds it with the
    /// defaults: Sha1, 6 digits, a 30-second period.
    pub fn from_base32(secret: &str) -> (r: Result<Self, OTPError>)
        ensures
            base32_decode_rfc4648(secret@) matches Some(b) ==> (r matches Ok(g) && g.algorithm
                is Sha1 && g.secret@ == b && g.digits == 6 && g.period == 30),
            base32_decode_rfc4648(secret@) is None ==> (r matches Err(e) && e
                is Base32DecodeError),
    {
        match decode_rfc4648(secret) {
            Some(bytes) => Ok(TOTP::new(Algorithm::Sha1, bytes, 6, 30)),
            None => Err(OTPError::Base32DecodeError),
        }
    }

    /// The token for this timestamp. A zero period cannot derive a counter
    /// and is reported as a typed error rather than a division fault.
    pub fn generate_token(&self, epoch: u64) -> (r: Result<String, OTPError>)
        ensures
            r is Ok <==> self.period != 0,
            r matches Ok(t) ==> t@ == totp_token(
                self.algorithm,
                self.secret@,
                self.digits,
                self.period,
                epoch,
            ),
            r matches Err(e) ==> e matches OTPError::Error(m) && m@
                == "period must not be zero"@,
    {
        if self.period == 0 {
            return Err(OTPError::new(String::from_str("period must not be zero")));
        }
        let counter = epoch / self.period;
        generate_hotp_token(&self.algorithm, self.secret.as_slice(), counter, self.digits)
    }

    /// Serializes this generator and the label parts as an `otpauth://totp/`
    /// key URI; the period is always rendered.
    pub fn to_key_uri(&self, account_name: String, issuer: Option<String>) -> (r: Result<
        String,
        OTPError,
    >)
        ensures
            r is Ok,
            r matches Ok(u) ==> u@ == spec_key_uri(
                KeyUriType::TOTP,
                base32_rfc4648(self.secret@),
                None,
                Some(self.period),
                Some(self.algorithm),
                Some(self.digits),
                account_name@,
                spec_issuer_view(issuer),
            ),
    {
        let secret = encode_rfc4648(self.secret.as_slice());
        to_key_uri(
            KeyUriOptions {
                uri_type: KeyUriType::TOTP,
                secret,
                counter: None,
                period: Some(self.period),
                algorithm: Some(self.algorithm),
                digits: Some(self.digits),
                account_name,
                issuer,
            },
        )
    }
}

} // verus!
