use certificates::{
    Certificate, CertificateStatus, CertificateTemplate, CertificatesContract, ContractError,
    IssuerProfile, Web4Request, Web4Response,
};
use std::collections::HashMap;

fn owner() -> String {
    "certification-center".to_string()
}

fn alice() -> String {
    "alice".to_string()
}

fn fresh_contract() -> CertificatesContract {
    CertificatesContract::new(owner())
}

fn contract_with_issuer() -> CertificatesContract {
    let mut c = fresh_contract();
    c.register_issuer(
        &owner(),
        alice(),
        IssuerProfile { display_name: "Qbit".to_string() },
    )
    .unwrap();
    c
}

fn template() -> CertificateTemplate {
    CertificateTemplate {
        template_kind: "svg-template".to_string(),
        template: b"<svg>{{name}}</svg>".to_vec(),
    }
}

fn draft(issuer: &str, template_id: u64) -> Certificate {
    Certificate {
        issuer_account_id: issuer.to_string(),
        status: CertificateStatus::New,
        certificate_template_id: template_id,
        encrypted_certificate_data: vec![0xde, 0xad, 0xbe, 0xef],
        certificate_encryption_nonce: vec![0x01, 0x02],
        certificate_encryption_recovery: None,
    }
}

fn resolve(c: &CertificatesContract, path: &str) -> String {
    match c.web4_get(Web4Request { path: path.to_string(), preloads: HashMap::new() }) {
        Web4Response::Body { content_type, body } => {
            assert_eq!(content_type, "text/html; charset=UTF-8");
            String::from_utf8(body).unwrap()
        }
        _ => panic!("expected an inline body"),
    }
}

#[test]
fn test_end_to_end() {
    let mut c = fresh_contract();
    c.register_issuer(
        &owner(),
        alice(),
        IssuerProfile { display_name: "Qbit".to_string() },
    )
    .unwrap();
    assert!(c.is_issuer(&alice()));

    let template_id = c.register_certificate_template(&alice(), template()).unwrap();
    assert_eq!(template_id, 0);

    let ids = c.issue_certificates(&alice(), vec![draft("alice", 0)]).unwrap();
    assert_eq!(ids, vec![0]);

    let cert = c.get_certificate(0).unwrap();
    assert_eq!(cert.status, CertificateStatus::New);
    assert_eq!(cert.issuer_account_id, "alice");

    c.revoke_certificates(&alice(), vec![0], "fraud".to_string()).unwrap();
    let cert = c.get_certificate(0).unwrap();
    assert_eq!(cert.status, CertificateStatus::Revoked { reason: "fraud".to_string() });

    let page = resolve(&c, "/0");
    assert!(page.contains("Certificate #0"));
    // the serialized template: kind escaped, content in lowercase hex
    assert!(page.contains(
        "{\"template_kind\":\"svg-template\",\"template\":\"3c7376673e7b7b6e616d657d7d3c2f7376673e\"}"
    ));
    // the serialized certificate with the overwritten status
    assert!(page.contains("\"issuer_account_id\":\"alice\""));
    assert!(page.contains("\"status\":{\"kind\":\"REVOKED\",\"reason\":\"fraud\"}"));
    assert!(page.contains("\"encrypted_certificate_data\":\"deadbeef\""));
    assert!(page.contains("\"certificate_encryption_nonce\":\"0102\""));
    assert!(page.contains("\"certificate_encryption_recovery\":null"));
}

#[test]
fn unregistered_identity_cannot_register_template_or_issue() {
    let mut c = fresh_contract();
    let err = c.register_certificate_template(&alice(), template()).unwrap_err();
    assert_eq!(err, ContractError::Unauthorized);
    let err = c.issue_certificates(&alice(), vec![draft("alice", 0)]).unwrap_err();
    assert_eq!(err, ContractError::Unauthorized);
    // no state change is observable
    assert!(c.get_certificate(0).is_none());
    let mut c2 = contract_with_issuer();
    assert_eq!(c2.register_certificate_template(&alice(), template()).unwrap(), 0);
}

#[test]
fn non_owner_cannot_register_issuer() {
    let mut c = fresh_contract();
    let err = c
        .register_issuer(&alice(), alice(), IssuerProfile { display_name: "Qbit".to_string() })
        .unwrap_err();
    assert_eq!(err, ContractError::Unauthorized);
    assert!(!c.is_issuer(&alice()));
}

#[test]
fn register_issuer_overwrites_profile() {
    let mut c = contract_with_issuer();
    c.register_issuer(
        &owner(),
        alice(),
        IssuerProfile { display_name: "Qbit Labs".to_string() },
    )
    .unwrap();
    assert!(c.is_issuer(&alice()));
}

#[test]
fn mismatched_draft_aborts_whole_batch() {
    let mut c = contract_with_issuer();
    c.register_certificate_template(&alice(), template()).unwrap();
    let err = c
        .issue_certificates(&alice(), vec![draft("alice", 0), draft("bob", 0)])
        .unwrap_err();
    assert_eq!(err, ContractError::IssuerMismatch);
    // nothing from the batch was persisted, not even the valid first draft
    assert!(c.get_certificate(0).is_none());
    assert!(c.get_certificate(1).is_none());
}

#[test]
fn mismatch_reported_even_when_an_earlier_draft_has_a_dangling_template() {
    let mut c = contract_with_issuer();
    c.register_certificate_template(&alice(), template()).unwrap();
    // first draft names the caller but references template 9; second draft
    // names another issuer: the whole batch checks issuers first
    let err = c
        .issue_certificates(&alice(), vec![draft("alice", 9), draft("bob", 0)])
        .unwrap_err();
    assert_eq!(err, ContractError::IssuerMismatch);
    assert!(c.get_certificate(0).is_none());
}

#[test]
fn draft_with_missing_template_aborts_whole_batch() {
    let mut c = contract_with_issuer();
    let err = c.issue_certificates(&alice(), vec![draft("alice", 7)]).unwrap_err();
    assert_eq!(err, ContractError::NotFound);
    assert!(c.get_certificate(0).is_none());
}

#[test]
fn template_ids_are_dense_and_zero_based() {
    let mut c = contract_with_issuer();
    for k in 0..3u64 {
        let id = c.register_certificate_template(&alice(), template()).unwrap();
        assert_eq!(id, k);
    }
}

#[test]
fn issue_assigns_consecutive_ids_from_previous_count() {
    let mut c = contract_with_issuer();
    c.register_certificate_template(&alice(), template()).unwrap();
    let first = c
        .issue_certificates(&alice(), vec![draft("alice", 0), draft("alice", 0)])
        .unwrap();
    assert_eq!(first, vec![0, 1]);
    let second = c
        .issue_certificates(&alice(), vec![draft("alice", 0), draft("alice", 0), draft("alice", 0)])
        .unwrap();
    assert_eq!(second, vec![2, 3, 4]);
}

#[test]
fn revoke_nonexistent_id_aborts_and_modifies_nothing() {
    let mut c = contract_with_issuer();
    c.register_certificate_template(&alice(), template()).unwrap();
    c.issue_certificates(&alice(), vec![draft("alice", 0), draft("alice", 0)]).unwrap();
    let err = c
        .revoke_certificates(&alice(), vec![0, 99], "fraud".to_string())
        .unwrap_err();
    assert_eq!(err, ContractError::NotFound);
    assert_eq!(c.get_certificate(0).unwrap().status, CertificateStatus::New);
    assert_eq!(c.get_certificate(1).unwrap().status, CertificateStatus::New);
}

#[test]
fn issuer_cannot_revoke_anothers_certificate_but_owner_can() {
    let mut c = contract_with_issuer();
    c.register_issuer(&owner(), "bob".to_string(), IssuerProfile {
        display_name: "Bob".to_string(),
    })
    .unwrap();
    c.register_certificate_template(&alice(), template()).unwrap();
    c.issue_certificates(&alice(), vec![draft("alice", 0)]).unwrap();
    let err = c
        .revoke_certificates(&"bob".to_string(), vec![0], "spite".to_string())
        .unwrap_err();
    assert_eq!(err, ContractError::Unauthorized);
    assert_eq!(c.get_certificate(0).unwrap().status, CertificateStatus::New);
    c.revoke_certificates(&owner(), vec![0], "policy".to_string()).unwrap();
    assert_eq!(
        c.get_certificate(0).unwrap().status,
        CertificateStatus::Revoked { reason: "policy".to_string() }
    );
}

#[test]
fn re_revocation_overwrites_reason() {
    let mut c = contract_with_issuer();
    c.register_certificate_template(&alice(), template()).unwrap();
    c.issue_certificates(&alice(), vec![draft("alice", 0)]).unwrap();
    c.revoke_certificates(&alice(), vec![0], "first".to_string()).unwrap();
    c.revoke_certificates(&alice(), vec![0], "second".to_string()).unwrap();
    assert_eq!(
        c.get_certificate(0).unwrap().status,
        CertificateStatus::Revoked { reason: "second".to_string() }
    );
}

#[test]
fn get_beyond_count_is_absent() {
    let mut c = contract_with_issuer();
    assert!(c.get_certificate(0).is_none());
    c.register_certificate_template(&alice(), template()).unwrap();
    c.issue_certificates(&alice(), vec![draft("alice", 0)]).unwrap();
    assert!(c.get_certificate(0).is_some());
    assert!(c.get_certificate(1).is_none());
    assert!(c.get_certificate(u64::MAX).is_none());
}

#[test]
fn error_messages_distinguish_kinds() {
    let m1 = ContractError::Unauthorized.message();
    let m2 = ContractError::IssuerMismatch.message();
    let m3 = ContractError::NotFound.message();
    assert!(m1 != m2 && m2 != m3 && m1 != m3);
    assert!(m3.contains("exist"));
}
