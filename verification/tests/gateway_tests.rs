use certificates::{
    Certificate, CertificateStatus, CertificateTemplate, CertificatesContract, IssuerProfile,
    Web4Request, Web4Response,
};
use std::collections::HashMap;

fn resolve(c: &CertificatesContract, path: &str) -> String {
    match c.web4_get(Web4Request { path: path.to_string(), preloads: HashMap::new() }) {
        Web4Response::Body { content_type, body } => {
            assert_eq!(content_type, "text/html; charset=UTF-8");
            String::from_utf8(body).unwrap()
        }
        _ => panic!("expected an inline body"),
    }
}

fn populated_contract() -> CertificatesContract {
    let owner = "center".to_string();
    let issuer = "alice".to_string();
    let mut c = CertificatesContract::new(owner.clone());
    c.register_issuer(&owner, issuer.clone(), IssuerProfile { display_name: "Qbit".to_string() })
        .unwrap();
    c.register_certificate_template(
        &issuer,
        CertificateTemplate {
            template_kind: "svg-template".to_string(),
            template: vec![0x00, 0xff, 0x10],
        },
    )
    .unwrap();
    c.issue_certificates(
        &issuer,
        vec![Certificate {
            issuer_account_id: "alice".to_string(),
            status: CertificateStatus::New,
            certificate_template_id: 0,
            encrypted_certificate_data: vec![0xab, 0xcd],
            certificate_encryption_nonce: vec![],
            certificate_encryption_recovery: Some(vec![0x5a]),
        }],
    )
    .unwrap();
    c
}

#[test]
fn root_path_serves_welcome_document() {
    let c = CertificatesContract::new("center".to_string());
    let page = resolve(&c, "/");
    assert_eq!(
        page,
        "<h1>Welcome to Certification on NEAR</h1>\
         <p>Reach out to <a href=\"https://t.me/frolvlad\">https://t.me/frolvlad</a> \
         for more details about this project</p>"
    );
}

#[test]
fn non_numeric_path_serves_invalid_id_document() {
    let c = populated_contract();
    for path in ["/abc", "", "abc", "/0x1", "/-1", "/ 0", "/1a", "//", "/+5"] {
        let page = resolve(&c, path);
        assert!(page.contains("Invalid certificate ID"), "path {path:?}");
    }
}

#[test]
fn missing_certificate_serves_not_found_document() {
    let c = populated_contract();
    let page = resolve(&c, "/999");
    assert!(page.contains("Certificate Not Found"));
}

#[test]
fn certificate_path_serves_viewer_page() {
    let c = populated_contract();
    let page = resolve(&c, "/0");
    assert!(page.contains("<h1>Certificate #0</h1>"));
    // the template bytes appear hex encoded, not as raw bytes
    assert!(page.contains("{\"template_kind\":\"svg-template\",\"template\":\"00ff10\"}"));
    assert!(page.contains("\"status\":{\"kind\":\"NEW\"}"));
    assert!(page.contains("\"certificate_template_id\":\"0\""));
    assert!(page.contains("\"encrypted_certificate_data\":\"abcd\""));
    assert!(page.contains("\"certificate_encryption_recovery\":\"5a\""));
}

#[test]
fn leading_zeros_resolve_to_the_same_id() {
    let c = populated_contract();
    let page = resolve(&c, "/000");
    assert!(page.contains("<h1>Certificate #0</h1>"));
}

#[test]
fn overflowing_id_serves_invalid_id_document() {
    let c = populated_contract();
    // one past u64::MAX
    let page = resolve(&c, "/18446744073709551616");
    assert!(page.contains("Invalid certificate ID"));
    let page = resolve(&c, &format!("/{}", u64::MAX));
    assert!(page.contains("Certificate Not Found"));
}
