use otp_kit::{Algorithm, OTPError, HOTP, TOTP};

fn sha1_seed() -> Vec<u8> {
    b"12345678901234567890".to_vec()
}

fn sha256_seed() -> Vec<u8> {
    b"12345678901234567890123456789012".to_vec()
}

fn sha512_seed() -> Vec<u8> {
    b"1234567890123456789012345678901234567890123456789012345678901234".to_vec()
}

#[test]
fn hotp_rfc4226_vectors() {
    let hotp = HOTP::new(Algorithm::Sha1, sha1_seed(), 6);
    let expected = [
        "755224", "287082", "359152", "969429", "338314", "254676", "287922", "162583", "399871",
        "520489",
    ];
    for (counter, want) in expected.iter().enumerate() {
        assert_eq!(hotp.generate_token(counter as u64).unwrap(), *want);
    }
}

#[test]
fn totp_rfc6238_sha1_vectors() {
    let totp = TOTP::new(Algorithm::Sha1, sha1_seed(), 8, 30);
    assert_eq!(totp.generate_token(59).unwrap(), "94287082");
    assert_eq!(totp.generate_token(1111111109).unwrap(), "07081804");
    assert_eq!(totp.generate_token(1111111111).unwrap(), "14050471");
    assert_eq!(totp.generate_token(1234567890).unwrap(), "89005924");
    assert_eq!(totp.generate_token(2000000000).unwrap(), "69279037");
    assert_eq!(totp.generate_token(20000000000).unwrap(), "65353130");
}

#[test]
fn totp_rfc6238_sha256_vectors() {
    let totp = TOTP::new(Algorithm::Sha256, sha256_seed(), 8, 30);
    assert_eq!(totp.generate_token(59).unwrap(), "46119246");
    assert_eq!(totp.generate_token(1111111109).unwrap(), "68084774");
    assert_eq!(totp.generate_token(1234567890).unwrap(), "91819424");
}

#[test]
fn totp_rfc6238_sha512_vectors() {
    let totp = TOTP::new(Algorithm::Sha512, sha512_seed(), 8, 30);
    assert_eq!(totp.generate_token(59).unwrap(), "90693936");
    assert_eq!(totp.generate_token(1111111109).unwrap(), "25091201");
    assert_eq!(totp.generate_token(1234567890).unwrap(), "93441116");
}

#[test]
fn generate_is_deterministic() {
    let hotp = HOTP::new(Algorithm::Sha256, sha256_seed(), 8);
    let first = hotp.generate_token(424242).unwrap();
    let second = hotp.generate_token(424242).unwrap();
    assert_eq!(first, second);
    let totp = TOTP::new(Algorithm::Sha512, sha512_seed(), 6, 30);
    assert_eq!(
        totp.generate_token(1111111109).unwrap(),
        totp.generate_token(1111111109).unwrap()
    );
}

#[test]
fn token_width_equals_digits() {
    for digits in 6..=10u32 {
        let hotp = HOTP::new(Algorithm::Sha1, sha1_seed(), digits);
        for counter in 0..20u64 {
            assert_eq!(hotp.generate_token(counter).unwrap().len(), digits as usize);
        }
    }
}

#[test]
fn token_width_beyond_ten_digits_is_zero_padded() {
    let hotp = HOTP::new(Algorithm::Sha1, sha1_seed(), 12);
    let token = hotp.generate_token(0).unwrap();
    assert_eq!(token.len(), 12);
    assert!(token.starts_with("00"));
}

#[test]
fn totp_equals_hotp_at_derived_counter() {
    let period = 30u64;
    let totp = TOTP::new(Algorithm::Sha1, sha1_seed(), 8, period);
    let hotp = HOTP::new(Algorithm::Sha1, sha1_seed(), 8);
    for epoch in [0u64, 29, 30, 59, 60, 1111111109, 20000000000] {
        assert_eq!(
            totp.generate_token(epoch).unwrap(),
            hotp.generate_token(epoch / period).unwrap()
        );
    }
}

#[test]
fn from_base32_decodes_the_secret() {
    let hotp = HOTP::from_base32("GEZDGNBVGY3TQOJQGEZDGNBVGY3TQOJQ").unwrap();
    assert_eq!(hotp.generate_token(0).unwrap(), "755224");
    let totp = TOTP::from_base32("GEZDGNBVGY3TQOJQGEZDGNBVGY3TQOJQ").unwrap();
    assert_eq!(totp.generate_token(59).unwrap(), "287082");
}

#[test]
fn from_base32_rejects_invalid_text() {
    assert!(matches!(
        HOTP::from_base32("not-base32!!"),
        Err(OTPError::Base32DecodeError)
    ));
    assert!(matches!(
        TOTP::from_base32("not-base32!!"),
        Err(OTPError::Base32DecodeError)
    ));
}

#[test]
fn zero_period_is_a_typed_error() {
    let totp = TOTP::new(Algorithm::Sha1, sha1_seed(), 6, 0);
    match totp.generate_token(59) {
        Err(OTPError::Error(message)) => assert_eq!(message, "period must not be zero"),
        other => panic!("expected a typed division error, got {:?}", other),
    }
}

#[test]
fn free_generate_and_error_wrapper() {
    let token =
        otp_kit::generate_hotp_token(&Algorithm::Sha1, b"12345678901234567890", 0, 6).unwrap();
    assert_eq!(token, "755224");
    assert!(matches!(OTPError::new("boom".to_string()), OTPError::Error(m) if m == "boom"));
}
