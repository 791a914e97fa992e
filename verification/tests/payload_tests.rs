use certificates::encoding::json_escape;
use certificates::numbers::{parse_u64_decimal, u64_to_decimal};
use certificates::payload::{canonical_certificate_data, encrypted_certificate_data};
use certificates::render::template_json;
use certificates::CertificateTemplate;

#[test]
fn template_json_encodes_bytes_as_lowercase_hex() {
    let t = CertificateTemplate {
        template_kind: "svg-template".to_string(),
        template: vec![0x00, 0x0f, 0xf0, 0xff, 0x5a],
    };
    assert_eq!(
        template_json(&t),
        "{\"template_kind\":\"svg-template\",\"template\":\"000ff0ff5a\"}"
    );
    let empty = CertificateTemplate { template_kind: "k".to_string(), template: vec![] };
    assert_eq!(template_json(&empty), "{\"template_kind\":\"k\",\"template\":\"\"}");
}

#[test]
fn json_escaping_handles_quotes_backslashes_and_controls() {
    assert_eq!(json_escape("plain"), "plain");
    assert_eq!(json_escape("a\"b"), "a\\\"b");
    assert_eq!(json_escape("a\\b"), "a\\\\b");
    assert_eq!(json_escape("a\nb\tc"), "a\\u000ab\\u0009c");
    assert_eq!(json_escape("héllo ✓"), "héllo ✓");
}

#[test]
fn decimal_rendering_and_parsing_round_trip() {
    assert_eq!(u64_to_decimal(0), "0");
    assert_eq!(u64_to_decimal(7), "7");
    assert_eq!(u64_to_decimal(1203), "1203");
    assert_eq!(u64_to_decimal(u64::MAX), "18446744073709551615");
    assert_eq!(parse_u64_decimal("/1203", 1), Some(1203));
    assert_eq!(parse_u64_decimal("18446744073709551615", 0), Some(u64::MAX));
    assert_eq!(parse_u64_decimal("18446744073709551616", 0), None);
    assert_eq!(parse_u64_decimal("12a", 0), None);
    assert_eq!(parse_u64_decimal("", 0), None);
}

#[test]
fn canonical_document_has_the_fixed_shape() {
    let fields = vec![
        ("winner".to_string(), "Team \"Qbit\"".to_string()),
        ("place".to_string(), "1".to_string()),
    ];
    let doc = canonical_certificate_data("Qbit", "svg-template", "<svg/>", &fields);
    assert_eq!(
        doc,
        "{\"issued_for_display_name\":\"Qbit\",\
         \"certificate_template_kind\":\"svg-template\",\
         \"certificate_template\":\"<svg/>\",\
         \"certificate_fields\":{\"winner\":\"Team \\\"Qbit\\\"\",\"place\":\"1\"}}"
    );
}

#[test]
fn sealed_payload_carries_a_tag_and_decrypts_to_the_document() {
    let nonce = [7u8; 24];
    let key = [42u8; 32];
    let fields = vec![("winner".to_string(), "Qbit".to_string())];
    let doc = canonical_certificate_data("Qbit", "svg-template", "<svg/>", &fields);
    let sealed = encrypted_certificate_data("Qbit", "svg-template", "<svg/>", &fields, &nonce, &key)
        .unwrap();
    assert_eq!(sealed.len(), doc.len() + 16);
    assert_ne!(&sealed[..doc.len()], doc.as_bytes());
    let n = sodiumoxide::crypto::secretbox::Nonce::from_slice(&nonce).unwrap();
    let k = sodiumoxide::crypto::secretbox::Key::from_slice(&key).unwrap();
    let opened = sodiumoxide::crypto::secretbox::open(&sealed, &n, &k).unwrap();
    assert_eq!(opened, doc.as_bytes());
}
