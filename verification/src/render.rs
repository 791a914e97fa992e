//! The serialized forms served by the gateway: JSON documents for templates
//! and certificates, and the HTML page that embeds them.
//!
//! Byte blobs appear as lowercase hex strings; ids appear as decimal strings;
//! a status is a tagged object, `{"kind":"NEW"}` or
//! `{"kind":"REVOKED","reason":...}`.

use vstd::prelude::*;
use vstd::string::StrSliceExecFns;
use vstd::string::StringExecFns;

use crate::encoding::{hex_encode, json_escape, spec_hex, spec_json_escape};
use crate::numbers::{spec_decimal, u64_to_decimal};
use crate::types::{Certificate, CertificateStatus, CertificateTemplate};

verus! {

/// The JSON document for a template.
pub open spec fn spec_template_json(t: CertificateTemplate) -> Seq<char> {
    "{\"template_kind\":\""@ + spec_json_escape(t.template_kind@) + "\",\"template\":\""@
        + spec_hex(t.template@) + "\"}"@
}

/// The JSON object for a certificate status.
pub open spec fn spec_status_json(s: CertificateStatus) -> Seq<char> {
    match s {
        CertificateStatus::New => "{\"kind\":\"NEW\"}"@,
        CertificateStatus::Revoked { reason } => "{\"kind\":\"REVOKED\",\"reason\":\""@
            + spec_json_escape(reason@) + "\"}"@,
    }
}

/// The JSON value for optional key-recovery bytes: `null` when absent.
pub open spec fn spec_recovery_json(o: Option<Vec<u8>>) -> Seq<char> {
    match o {
        Option::None => "null"@,
        Option::Some(b) => "\""@ + spec_hex(b@) + "\""@,
    }
}

/// The JSON document for a certificate.
pub open spec fn spec_certificate_json(c: Certificate) -> Seq<char> {
    "{\"issuer_account_id\":\""@ + spec_json_escape(c.issuer_account_id@) + "\",\"status\":"@
        + spec_status_json(c.status) + ",\"certificate_template_id\":\""@ + spec_decimal(
        c.certificate_template_id as nat,
    ) + "\",\"encrypted_certificate_data\":\""@ + spec_hex(c.encrypted_certificate_data@)
        + "\",\"certificate_encryption_nonce\":\""@ + spec_hex(c.certificate_encryption_nonce@)
        + "\",\"certificate_encryption_recovery\":"@ + spec_recovery_json(
        c.certificate_encryption_recovery,
    ) + "}"@
}

/// The viewer page for certificate `id`: a fixed HTML skeleton around the
/// decimal id, the template's JSON form and the certificate's JSON form.
pub open spec fn spec_certificate_page(
    id: u64,
    t: CertificateTemplate,
    c: Certificate,
) -> Seq<char> {
    "<!DOCTYPE html><html><head><meta charset=\"utf-8\"><title>Certificate Viewer</title></head><body><h1>Certificate #"@
        + spec_decimal(id as nat) + "</h1><script>const certificateTemplate = "@
        + spec_template_json(t) + ";const certificate = "@ + spec_certificate_json(c)
        + ";</script></body></html>"@
}

/// Serializes a template as JSON.
pub fn template_json(t: &CertificateTemplate) -> (r: String)
    ensures
        r@ == spec_template_json(*t),
{
    let mut out = String::from_str("{\"template_kind\":\"");
    out.append(json_escape(t.template_kind.as_str()).as_str());
    out.append("\",\"template\":\"");
    out.append(hex_encode(t.template.as_slice()).as_str());
    out.append("\"}");
    proof {
        assert(out@ =~= spec_template_json(*t));
    }
    out
}

/// Serializes a certificate status as JSON.
pub fn status_json(s: &CertificateStatus) -> (r: String)
    ensures
        r@ == spec_status_json(*s),
{
    match s {
        CertificateStatus::New => String::from_str("{\"kind\":\"NEW\"}"),
        CertificateStatus::Revoked { reason } => {
            let mut out = String::from_str("{\"kind\":\"REVOKED\",\"reason\":\"");
            out.append(json_escape(reason.as_str()).as_str());
            out.append("\"}");
            proof {
                assert(out@ =~= spec_status_json(*s));
            }
            out
        },
    }
}

/// Serializes a certificate as JSON.
pub fn certificate_json(c: &Certificate) -> (r: String)
    ensures
        r@ == spec_certificate_json(*c),
{
    let mut out = String::from_str("{\"issuer_account_id\":\"");
    out.append(json_escape(c.issuer_account_id.as_str()).as_str());
    out.append("\",\"status\":");
    out.append(status_json(&c.status).as_str());
    out.append(",\"certificate_template_id\":\"");
    out.append(u64_to_decimal(c.certificate_template_id).as_str());
    out.append("\",\"encrypted_certificate_data\":\"");
    out.append(hex_encode(c.encrypted_certificate_data.as_slice()).as_str());
    out.append("\",\"certificate_encryption_nonce\":\"");
    out.append(hex_encode(c.certificate_encryption_nonce.as_slice()).as_str());
    out.append("\",\"certificate_encryption_recovery\":");
    match &c.certificate_encryption_recovery {
        Option::None => {
            out.append("null");
        },
        Option::Some(b) => {
            out.append("\"");
            out.append(hex_encode(b.as_slice()).as_str());
            out.append("\"");
        },
    }
    out.append("}");
    proof {
        assert(out@ =~= spec_certificate_json(*c));
    }
    out
}

/// Builds the viewer page for certificate `id`.
pub fn certificate_page(id: u64, t: &CertificateTemplate, c: &Certificate) -> (r: String)
    ensures
        r@ == spec_certificate_page(id, *t, *c),
{
    let mut out = String::from_str(
        "<!DOCTYPE html><html><head><meta charset=\"utf-8\"><title>Certificate Viewer</title></head><body><h1>Certificate #",
    );
    out.append(u64_to_decimal(id).as_str());
    out.append("</h1><script>const certificateTemplate = ");
    out.append(template_json(t).as_str());
    out.append(";const certificate = ");
    out.append(certificate_json(c).as_str());
    out.append(";</script></body></html>");
    proof {
        assert(out@ =~= spec_certificate_page(id, *t, *c));
    }
    out
}

} // verus!
