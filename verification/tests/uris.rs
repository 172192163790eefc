use otp_kit::{to_key_uri, Algorithm, KeyUriOptions, KeyUriType, OTPError, HOTP, TOTP};

fn sha1_seed() -> Vec<u8> {
    b"12345678901234567890".to_vec()
}

#[test]
fn hotp_key_uri_renders_every_part() {
    let hotp = HOTP::new(Algorithm::Sha1, sha1_seed(), 6);
    let uri = hotp
        .to_key_uri("alice".to_string(), Some("Example".to_string()), 5)
        .unwrap();
    assert_eq!(
        uri,
        "otpauth://hotp/Example:alice?secret=GEZDGNBVGY3TQOJQGEZDGNBVGY3TQOJQ&counter=5&algorithm=SHA1&digits=6&issuer=Example"
    );
}

#[test]
fn totp_key_uri_renders_every_part() {
    let totp = TOTP::new(Algorithm::Sha256, sha1_seed(), 8, 60);
    let uri = totp.to_key_uri("alice".to_string(), None).unwrap();
    assert_eq!(
        uri,
        "otpauth://totp/alice?secret=GEZDGNBVGY3TQOJQGEZDGNBVGY3TQOJQ&period=60&algorithm=SHA256&digits=8"
    );
}

#[test]
fn key_uri_percent_encodes_label_and_issuer() {
    let hotp = HOTP::new(Algorithm::Sha1, sha1_seed(), 6);
    let uri = hotp
        .to_key_uri(
            "alice bob@example.com".to_string(),
            Some("ACME Co".to_string()),
            1,
        )
        .unwrap();
    assert_eq!(
        uri,
        "otpauth://hotp/ACME%20Co:alice%20bob%40example.com?secret=GEZDGNBVGY3TQOJQGEZDGNBVGY3TQOJQ&counter=1&algorithm=SHA1&digits=6&issuer=ACME%20Co"
    );
}

#[test]
fn key_uri_shape_matches_the_scheme() {
    let hotp = HOTP::new(Algorithm::Sha1, sha1_seed(), 6);
    let uri = hotp
        .to_key_uri("alice".to_string(), None, 0)
        .unwrap();
    assert!(uri.starts_with("otpauth://hotp/"));
    assert!(uri.contains('?'));
    assert!(uri.contains("secret="));
    assert!(uri.contains("counter="));
    let secret_param: &str = uri
        .split('?')
        .nth(1)
        .unwrap()
        .split('&')
        .find(|p| p.starts_with("secret="))
        .unwrap();
    assert!(secret_param["secret=".len()..]
        .chars()
        .all(|c| c.is_ascii_uppercase() || ('2'..='7').contains(&c)));
}

#[test]
fn totp_uri_without_period_omits_the_parameter() {
    let options = KeyUriOptions {
        uri_type: KeyUriType::TOTP,
        secret: "GEZDGNBVGY3TQOJQ".to_string(),
        counter: None,
        period: None,
        algorithm: Some(Algorithm::Sha1),
        digits: Some(6),
        account_name: "alice".to_string(),
        issuer: None,
    };
    let uri = to_key_uri(options).unwrap();
    assert!(uri.starts_with("otpauth://totp/"));
    assert!(!uri.contains("period="));
    assert_eq!(
        uri,
        "otpauth://totp/alice?secret=GEZDGNBVGY3TQOJQ&algorithm=SHA1&digits=6"
    );
}

#[test]
fn hotp_uri_without_counter_is_an_error() {
    let options = KeyUriOptions {
        uri_type: KeyUriType::HOTP,
        secret: "GEZDGNBVGY3TQOJQ".to_string(),
        counter: None,
        period: None,
        algorithm: None,
        digits: None,
        account_name: "alice".to_string(),
        issuer: None,
    };
    match to_key_uri(options) {
        Err(OTPError::ToKeyUriError(message)) => {
            assert_eq!(message, "counter to be a number when options.type is 'hotp'.")
        },
        other => panic!("expected a key-uri error, got {:?}", other),
    }
}

#[test]
fn minimal_options_render_only_the_secret() {
    let options = KeyUriOptions {
        uri_type: KeyUriType::HOTP,
        secret: "GEZDGNBVGY3TQOJQ".to_string(),
        counter: Some(0),
        period: None,
        algorithm: None,
        digits: None,
        account_name: "alice".to_string(),
        issuer: None,
    };
    assert_eq!(
        to_key_uri(options).unwrap(),
        "otpauth://hotp/alice?secret=GEZDGNBVGY3TQOJQ&counter=0"
    );
}
