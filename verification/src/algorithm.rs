//! The hash-algorithm selector: a dispatch tag over the three supported
//! keyed-hash variants, and the trusted wrappers around the HMAC crate.

use crate::error::OTPError;
use hmac::{Hmac, KeyInit, Mac};
use sha1::Sha1;
use sha2::{Sha256, Sha512};
use vstd::prelude::*;

verus! {

/// The hash function that keys the HMAC computation. The tag fully determines
/// the digest length: 20 bytes for Sha1, 32 for Sha256, 64 for Sha512.
#[derive(Debug, Clone, Copy)]
pub enum Algorithm {
    Sha1,
    Sha256,
    Sha512,
}

/// The HMAC-SHA-1 digest of `msg` keyed by `key`; a pure function of its
/// arguments, computed by the hmac crate.
pub uninterp spec fn hmac_sha1(key: Seq<u8>, msg: Seq<u8>) -> Seq<u8>;

/// The HMAC-SHA-256 digest of `msg` keyed by `key`.
pub uninterp spec fn hmac_sha256(key: Seq<u8>, msg: Seq<u8>) -> Seq<u8>;

/// The HMAC-SHA-512 digest of `msg` keyed by `key`.
pub uninterp spec fn hmac_sha512(key: Seq<u8>, msg: Seq<u8>) -> Seq<u8>;

/// Relies on hmac::Hmac::<sha1::Sha1>: new_from_slice accepts keys of any
/// length (short keys are zero-padded, long keys hashed, so it always returns
/// Ok), and the finalized MAC is a 20-byte digest that depends on the key and
/// message alone.
#[verifier::external_body]
fn hmac_sha1_digest(key: &[u8], msg: &[u8]) -> (r: Vec<u8>)
    ensures
        r@ == hmac_sha1(key@, msg@),
        r@.len() == 20,
{
    let mut mac = <Hmac<Sha1> as KeyInit>::new_from_slice(key)
        .expect("HMAC accepts keys of any length");
    mac.update(msg);
    mac.finalize().into_bytes().to_vec()
}

/// Relies on hmac::Hmac::<sha2::Sha256>, as for the Sha1 variant; the digest
/// is 32 bytes.
#[verifier::external_body]
fn hmac_sha256_digest(key: &[u8], msg: &[u8]) -> (r: Vec<u8>)
    ensures
        r@ == hmac_sha256(key@, msg@),
        r@.len() == 32,
{
    let mut mac = <Hmac<Sha256> as KeyInit>::new_from_slice(key)
        .expect("HMAC accepts keys of any length");
    mac.update(msg);
    mac.finalize().into_bytes().to_vec()
}

/// Relies on hmac::Hmac::<sha2::Sha512>, as for the Sha1 variant; the digest
/// is 64 bytes.
#[verifier::external_body]
fn hmac_sha512_digest(key: &[u8], msg: &[u8]) -> (r: Vec<u8>)
    ensures
        r@ == hmac_sha512(key@, msg@),
        r@.len() == 64,
{
    let mut mac = <Hmac<Sha512> as KeyInit>::new_from_slice(key)
        .expect("HMAC accepts keys of any length");
    mac.update(msg);
    mac.finalize().into_bytes().to_vec()
}

/// The keyed digest that `algorithm` names, over `key` and `msg`.
pub open spec fn hmac_bytes(algorithm: Algorithm, key: Seq<u8>, msg: Seq<u8>) -> Seq<u8> {
    match algorithm {
        Algorithm::Sha1 => hmac_sha1(key, msg),
        Algorithm::Sha256 => hmac_sha256(key, msg),
        Algorithm::Sha512 => hmac_sha512(key, msg),
    }
}

/// The digest length that each algorithm tag determines.
pub open spec fn digest_len(algorithm: Algorithm) -> nat {
    match algorithm {
        Algorithm::Sha1 => 20,
        Algorithm::Sha256 => 32,
        Algorithm::Sha512 => 64,
    }
}

/// The upper-case name under which the algorithm appears in a key URI.
pub open spec fn spec_uri_name(algorithm: Algorithm) -> Seq<char> {
    match algorithm {
        Algorithm::Sha1 => "SHA1"@,
        Algorithm::Sha256 => "SHA256"@,
        Algorithm::Sha512 => "SHA512"@,
    }
}

impl Algorithm {
    /// Computes the HMAC digest of `data` keyed by `key`, using the hash
    /// function this tag names. The HMAC construction accepts keys of any
    /// length, so the call always succeeds; the Result shape is kept so that
    /// a keyed-hash incompatibility would surface as HmacKeyLengthError
    /// rather than a panic.
    pub fn digest(&self, key: &[u8], data: &[u8]) -> (r: Result<Vec<u8>, OTPError>)
        ensures
            r is Ok,
            r matches Ok(h) ==> h@ == hmac_bytes(*self, key@, data@) && h@.len() == digest_len(
                *self,
            ),
    {
        match self {
            Algorithm::Sha1 => Ok(hmac_sha1_digest(key, data)),
            Algorithm::Sha256 => Ok(hmac_sha256_digest(key, data)),
            Algorithm::Sha512 => Ok(hmac_sha512_digest(key, data)),
        }
    }

    /// The upper-case algorithm name, as rendered into a key URI.
    pub fn uri_name(&self) -> (r: String)
        ensures
            r@ == spec_uri_name(*self),
    {
        match self {
            Algorithm::Sha1 => String::from_str("SHA1"),
            Algorithm::Sha256 => String::from_str("SHA256"),
            Algorithm::Sha512 => String::from_str("SHA512"),
        }
    }
}

} // verus!
