use attestation_verifier::payload::{AttestationPayload, Platform};
use attestation_verifier::text::{is_blank_str, str_eq};
use attestation_verifier::validator::{validate_payload, AttestationRequest, ValidationError};

fn payload(platform: &str, integrity_token: &str, device_key: &str, nonce: &str) -> AttestationPayload {
    AttestationPayload {
        platform: platform.to_string(),
        integrity_token: integrity_token.to_string(),
        device_key: device_key.to_string(),
        nonce: nonce.to_string(),
    }
}

#[test]
fn valid_payload_passes() {
    assert_eq!(validate_payload(&payload("web", "token", "dev", "n1")), Ok(()));
    assert_eq!(validate_payload(&payload("ios", "a", "b", "c")), Ok(()));
    assert_eq!(validate_payload(&payload("android", " a ", "\tb", "c\n")), Ok(()));
}

#[test]
fn empty_integrity_token_is_missing() {
    assert_eq!(
        validate_payload(&payload("web", "", "dev", "n1")),
        Err(ValidationError::MissingIntegrityToken)
    );
}

#[test]
fn empty_device_key_is_missing() {
    assert_eq!(
        validate_payload(&payload("web", "token", "", "n1")),
        Err(ValidationError::MissingDeviceKey)
    );
}

#[test]
fn empty_nonce_is_missing() {
    assert_eq!(
        validate_payload(&payload("web", "token", "dev", "")),
        Err(ValidationError::MissingNonce)
    );
}

#[test]
fn unknown_platform_is_rejected() {
    for tag in ["windows", "", "IOS", "Web", " web", "web ", "ios\n", "androidx"] {
        assert_eq!(
            validate_payload(&payload(tag, "token", "dev", "n1")),
            Err(ValidationError::UnknownPlatform),
            "tag {:?}",
            tag
        );
    }
}

#[test]
fn whitespace_only_fields_are_missing() {
    for blank in [" ", "   ", "\t", "\n", "\r\n", " \t \n ", "\u{a0}", "\u{2003}\u{3000}", "\u{85}\u{1680}"] {
        assert_eq!(
            validate_payload(&payload("web", blank, "dev", "n1")),
            Err(ValidationError::MissingIntegrityToken)
        );
        assert_eq!(
            validate_payload(&payload("web", "token", blank, "n1")),
            Err(ValidationError::MissingDeviceKey)
        );
        assert_eq!(
            validate_payload(&payload("web", "token", "dev", blank)),
            Err(ValidationError::MissingNonce)
        );
    }
}

#[test]
fn first_failing_check_is_reported() {
    assert_eq!(
        validate_payload(&payload("windows", "", "", "")),
        Err(ValidationError::MissingIntegrityToken)
    );
    assert_eq!(
        validate_payload(&payload("windows", "token", " ", "")),
        Err(ValidationError::MissingDeviceKey)
    );
    assert_eq!(
        validate_payload(&payload("windows", "token", "dev", "\t")),
        Err(ValidationError::MissingNonce)
    );
    assert_eq!(
        validate_payload(&payload("windows", "token", "dev", "n1")),
        Err(ValidationError::UnknownPlatform)
    );
}

#[test]
fn zero_width_space_is_no_whitespace() {
    assert_eq!(validate_payload(&payload("web", "\u{200b}", "\u{feff}", "\u{180e}")), Ok(()));
}

#[test]
fn reasons_are_the_wire_strings() {
    assert_eq!(ValidationError::MissingIntegrityToken.reason(), "missing_integrity_token");
    assert_eq!(ValidationError::MissingDeviceKey.reason(), "missing_device_key");
    assert_eq!(ValidationError::MissingNonce.reason(), "missing_nonce");
    assert_eq!(ValidationError::UnknownPlatform.reason(), "unknown_platform");
}

#[test]
fn platform_tags_round_trip() {
    for platform in [Platform::Ios, Platform::Android, Platform::Web] {
        assert_eq!(Platform::parse(platform.tag()), Some(platform));
    }
    assert_eq!(Platform::Ios.tag(), "ios");
    assert_eq!(Platform::Android.tag(), "android");
    assert_eq!(Platform::Web.tag(), "web");
    assert_eq!(Platform::parse("macos"), None);
}

#[test]
fn request_keeps_the_payload() {
    let request = AttestationRequest::from_payload(payload("android", " tok ", "key", "n-1")).unwrap();
    assert_eq!(request.platform(), Platform::Android);
    assert_eq!(request.integrity_token(), " tok ");
    assert_eq!(request.device_key(), "key");
    assert_eq!(request.nonce(), "n-1");
    let copy = request.clone();
    assert_eq!(copy, request);
}

#[test]
fn request_is_refused_as_the_payload_is() {
    let cases = [
        payload("web", "", "dev", "n1"),
        payload("web", "token", "  ", "n1"),
        payload("web", "token", "dev", "\n"),
        payload("desktop", "token", "dev", "n1"),
    ];
    for case in cases {
        let verdict = validate_payload(&case);
        assert!(verdict.is_err());
        assert_eq!(AttestationRequest::from_payload(case.clone()).map(|_| ()), verdict);
    }
}

fn listed_as_whitespace(c: char) -> bool {
    matches!(
        u32::from(c),
        0x09..=0x0d
            | 0x20
            | 0x85
            | 0xa0
            | 0x1680
            | 0x2000..=0x200a
            | 0x2028
            | 0x2029
            | 0x202f
            | 0x205f
            | 0x3000
    )
}

#[test]
fn whitespace_is_what_std_trims() {
    let mut listed = 0;
    for code in 0..=0x10ffffu32 {
        if let Some(c) = char::from_u32(code) {
            assert_eq!(listed_as_whitespace(c), c.is_whitespace(), "U+{:04X}", code);
            if listed_as_whitespace(c) {
                listed += 1;
                let padded = format!("{}x{}", c, c);
                assert_eq!(padded.trim(), "x", "U+{:04X}", code);
                assert!(is_blank_str(&c.to_string()), "U+{:04X}", code);
            } else if code < 0x3100 {
                assert!(!is_blank_str(&c.to_string()), "U+{:04X}", code);
            }
        }
    }
    assert_eq!(listed, 25);
    assert!(is_blank_str(""));
    assert!(!is_blank_str(" x "));
}

#[test]
fn strings_compare_by_characters() {
    assert!(str_eq("", ""));
    assert!(str_eq("web", "web"));
    assert!(!str_eq("web", "Web"));
    assert!(!str_eq("web", "web "));
}
