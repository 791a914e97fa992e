//! The encrypted-payload contract of the submission side: the canonical JSON
//! document describing the attested facts, and its authenticated symmetric
//! encryption. The registry itself never reads these payloads; whoever
//! submits certificates produces them, and the encryption key never reaches
//! the ledger.

use vstd::prelude::*;
use vstd::string::StrSliceExecFns;
use vstd::string::StringExecFns;
use vstd::utf8::encode_utf8;

use crate::encoding::{json_escape, spec_json_escape};

verus! {

/// One `"key":"value"` member of the certificate-fields object.
pub open spec fn spec_field_entry(k: Seq<char>, v: Seq<char>) -> Seq<char> {
    "\""@ + spec_json_escape(k) + "\":\""@ + spec_json_escape(v) + "\""@
}

/// The members of the certificate-fields object, comma separated, in input
/// order.
pub open spec fn spec_fields_json(fields: Seq<(String, String)>) -> Seq<char>
    decreases fields.len(),
{
    if fields.len() == 0 {
        Seq::empty()
    } else if fields.len() == 1 {
        spec_field_entry(fields[0].0@, fields[0].1@)
    } else {
        spec_fields_json(fields.drop_last()) + ","@ + spec_field_entry(
            fields.last().0@,
            fields.last().1@,
        )
    }
}

/// The canonical JSON document that is encrypted into
/// `encrypted_certificate_data`: who the certificate is issued for, the
/// template kind, the template (or a URL to it), and the key-value pairs to
/// fill the template with.
pub open spec fn spec_canonical_certificate_data(
    issued_for_display_name: Seq<char>,
    certificate_template_kind: Seq<char>,
    certificate_template: Seq<char>,
    certificate_fields: Seq<(String, String)>,
) -> Seq<char> {
    "{\"issued_for_display_name\":\""@ + spec_json_escape(issued_for_display_name)
        + "\",\"certificate_template_kind\":\""@ + spec_json_escape(certificate_template_kind)
        + "\",\"certificate_template\":\""@ + spec_json_escape(certificate_template)
        + "\",\"certificate_fields\":{"@ + spec_fields_json(certificate_fields) + "}}"@
}

/// The field names are pairwise distinct, as in a mapping.
pub open spec fn spec_fields_unique(fields: Seq<(String, String)>) -> bool {
    forall|i: int, j: int|
        0 <= i < j < fields.len() ==> (#[trigger] fields[i]).0@ != (#[trigger] fields[j]).0@
}

/// Builds the canonical certificate-data document. The fields stand for a
/// mapping, so their names must be pairwise distinct; they appear in input
/// order.
pub fn canonical_certificate_data(
    issued_for_display_name: &str,
    certificate_template_kind: &str,
    certificate_template: &str,
    certificate_fields: &Vec<(String, String)>,
) -> (r: String)
    requires
        spec_fields_unique(certificate_fields@),
    ensures
        r@ == spec_canonical_certificate_data(
            issued_for_display_name@,
            certificate_template_kind@,
            certificate_template@,
            certificate_fields@,
        ),
{
    let mut out = String::from_str("{\"issued_for_display_name\":\"");
    out.append(json_escape(issued_for_display_name).as_str());
    out.append("\",\"certificate_template_kind\":\"");
    out.append(json_escape(certificate_template_kind).as_str());
    out.append("\",\"certificate_template\":\"");
    out.append(json_escape(certificate_template).as_str());
    out.append("\",\"certificate_fields\":{");
    let mut i: usize = 0;
    let ghost fields: Seq<(String, String)> = certificate_fields@;
    let ghost head: Seq<char> = out@;
    while i < certificate_fields.len()
        invariant
            i <= fields.len(),
            fields == certificate_fields@,
            out@ == head + spec_fields_json(fields.take(i as int)),
        decreases fields.len() - i,
    {
        if i > 0 {
            out.append(",");
        }
        out.append("\"");
        out.append(json_escape(certificate_fields[i].0.as_str()).as_str());
        out.append("\":\"");
        out.append(json_escape(certificate_fields[i].1.as_str()).as_str());
        out.append("\"");
        proof {
            assert(fields.take(i + 1).drop_last() =~= fields.take(i as int));
            assert(fields.take(i + 1).last() == fields[i as int]);
            assert(out@ =~= head + spec_fields_json(fields.take(i + 1)));
        }
        i += 1;
    }
    proof {
        assert(fields.take(fields.len() as int) =~= fields);
    }
    out.append("}}");
    proof {
        assert(out@ =~= spec_canonical_certificate_data(
            issued_for_display_name@,
            certificate_template_kind@,
            certificate_template@,
            certificate_fields@,
        ));
    }
    out
}

/// What the authenticated symmetric encryption returns for a message, nonce
/// and key: a function of those three arguments alone.
pub uninterp spec fn spec_sealed_box(m: Seq<u8>, nonce: Seq<u8>, key: Seq<u8>) -> Seq<u8>;

/// Relies on sodiumoxide's `crypto::secretbox::seal`: authenticated
/// symmetric encryption, deterministic in the message, the 24-byte nonce and
/// the 32-byte key; the ciphertext is the message length plus a 16-byte tag.
#[verifier::external_body]
fn seal_box(message: &[u8], nonce: &[u8], key: &[u8]) -> (r: Vec<u8>)
    requires
        nonce@.len() == 24,
        key@.len() == 32,
        message@.len() + 16 <= usize::MAX,
    ensures
        r@ == spec_sealed_box(message@, nonce@, key@),
        r@.len() == message@.len() + 16,
{
    let n = sodiumoxide::crypto::secretbox::Nonce::from_slice(nonce).unwrap();
    let k = sodiumoxide::crypto::secretbox::Key::from_slice(key).unwrap();
    sodiumoxide::crypto::secretbox::seal(message, &n, &k)
}

/// Builds the canonical certificate-data document and seals it with the
/// given nonce and key, as the submission side does before calling
/// `issue_certificates`. The field names must be pairwise distinct, as in a
/// mapping. Returns `None` only when the document is too large for the
/// sealed form to fit in memory.
pub fn encrypted_certificate_data(
    issued_for_display_name: &str,
    certificate_template_kind: &str,
    certificate_template: &str,
    certificate_fields: &Vec<(String, String)>,
    nonce: &[u8],
    key: &[u8],
) -> (r: Option<Vec<u8>>)
    requires
        spec_fields_unique(certificate_fields@),
        nonce@.len() == 24,
        key@.len() == 32,
    ensures
        ({
            let doc = encode_utf8(
                spec_canonical_certificate_data(
                    issued_for_display_name@,
                    certificate_template_kind@,
                    certificate_template@,
                    certificate_fields@,
                ),
            );
            &&& (r matches Some(c) ==> c@ == spec_sealed_box(doc, nonce@, key@) && c@.len()
                == doc.len() + 16)
            &&& (r is None <==> doc.len() + 16 > usize::MAX)
        }),
{
    let doc = canonical_certificate_data(
        issued_for_display_name,
        certificate_template_kind,
        certificate_template,
        certificate_fields,
    );
    let message = doc.as_str().as_bytes_vec();
    if message.len() > usize::MAX - 16 {
        return None;
    }
    Some(seal_box(message.as_slice(), nonce, key))
}

} // verus!
