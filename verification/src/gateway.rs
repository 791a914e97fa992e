//! The read-only path-addressed gateway: it composes the template store and
//! the certificate ledger into rendered HTML responses and never writes.

use std::collections::HashMap;

use vstd::prelude::*;
use vstd::string::StrSliceExecFns;
use vstd::string::StringExecFns;
use vstd::utf8::encode_utf8;

use crate::contract::CertificatesContract;
use crate::numbers::{parse_u64_decimal, spec_all_digits, spec_digits_value};
use crate::render::{certificate_page, spec_certificate_page};

verus! {

/// A request to the gateway: the path to resolve and any responses already
/// pre-fetched for it. The paths served here never ask for preloads, but the
/// field is part of the request shape.
pub struct Web4Request {
    pub path: String,
    pub preloads: HashMap<String, Web4Response>,
}

/// A gateway response: exactly one of an inline body with its content type, a
/// redirect to an external body URL, or a set of URLs to pre-fetch before
/// asking again.
pub enum Web4Response {
    Body { content_type: String, body: Vec<u8> },
    BodyUrl { body_url: String },
    PreloadUrls { preload_urls: Vec<String> },
}

/// The fixed welcome document served at the root path.
pub open spec fn spec_welcome_page() -> Seq<char> {
    "<h1>Welcome to Certification on NEAR</h1><p>Reach out to <a href=\"https://t.me/frolvlad\">https://t.me/frolvlad</a> for more details about this project</p>"@
}

/// The fixed document served when a certificate id has no certificate.
pub open spec fn spec_not_found_page() -> Seq<char> {
    "<h1>Certificate Not Found</h1><p>Go to the <a href=\"/\">home page</a></p>"@
}

/// The fixed document served when the path is not `/` and not `/` followed by
/// a decimal certificate id.
pub open spec fn spec_invalid_id_page() -> Seq<char> {
    "<h1>Invalid certificate ID</h1><p>Go to the <a href=\"/\">home page</a></p>"@
}

/// `r` is an inline HTML body holding exactly the text `text`.
pub open spec fn spec_is_html_body(r: Web4Response, text: Seq<char>) -> bool {
    &&& r matches Web4Response::Body { content_type, body }
    &&& content_type@ == "text/html; charset=UTF-8"@
    &&& body@ == encode_utf8(text)
}

/// The path addresses a certificate: `/` followed by one or more decimal
/// digits whose value fits in a `u64`.
pub open spec fn spec_path_is_id(path: Seq<char>) -> bool {
    &&& path.len() >= 2
    &&& path[0] == '/'
    &&& spec_all_digits(path.skip(1))
    &&& spec_digits_value(path.skip(1)) <= u64::MAX
}

/// The certificate id a path addresses.
pub open spec fn spec_path_id(path: Seq<char>) -> nat {
    spec_digits_value(path.skip(1))
}

impl CertificatesContract {
    /// Resolves a path to a rendered response, reading but never changing
    /// the stores.
    ///
    /// `/` serves the fixed welcome document. `/` followed by a decimal id
    /// serves the viewer page embedding that certificate and its template, or
    /// the fixed not-found document when no such certificate (or, for a state
    /// not reached through the operations of this registry, no such template)
    /// exists. Every other path serves the fixed invalid-id document.
    pub fn web4_get(&self, request: Web4Request) -> (r: Web4Response)
        ensures
            request.path@ == "/"@ ==> spec_is_html_body(r, spec_welcome_page()),
            request.path@ != "/"@ && !spec_path_is_id(request.path@) ==> spec_is_html_body(
                r,
                spec_invalid_id_page(),
            ),
            request.path@ != "/"@ && spec_path_is_id(request.path@) && spec_path_id(request.path@)
                >= self.certificates@.len() ==> spec_is_html_body(r, spec_not_found_page()),
            request.path@ != "/"@ && spec_path_is_id(request.path@) && spec_path_id(request.path@)
                < self.certificates@.len() ==> {
                let id = spec_path_id(request.path@);
                let cert = self.certificates@[id as int];
                if cert.certificate_template_id < self.certificate_templates@.len() {
                    spec_is_html_body(
                        r,
                        spec_certificate_page(
                            id as u64,
                            self.certificate_templates@[cert.certificate_template_id as int],
                            cert,
                        ),
                    )
                } else {
                    spec_is_html_body(r, spec_not_found_page())
                }
            },
    {
        let path = request.path.as_str();
        let root = String::from_str("/");
        if request.path.eq(&root) {
            return Web4Response::Body {
                content_type: String::from_str("text/html; charset=UTF-8"),
                body:
                    "<h1>Welcome to Certification on NEAR</h1><p>Reach out to <a href=\"https://t.me/frolvlad\">https://t.me/frolvlad</a> for more details about this project</p>".as_bytes_vec(),
            };
        }
        let n = path.unicode_len();
        let mut is_id = false;
        let mut id: u64 = 0;
        if n >= 2 && path.get_char(0) == '/' {
            match parse_u64_decimal(path, 1) {
                Some(v) => {
                    is_id = true;
                    id = v;
                },
                None => {},
            }
        }
        if !is_id {
            return Web4Response::Body {
                content_type: String::from_str("text/html; charset=UTF-8"),
                body:
                    "<h1>Invalid certificate ID</h1><p>Go to the <a href=\"/\">home page</a></p>".as_bytes_vec(),
            };
        }
        match self.get_certificate(id) {
            Some(certificate) => {
                let tid = certificate.certificate_template_id;
                if tid < (self.certificate_templates.len() as u64) {
                    let template = &self.certificate_templates[tid as usize];
                    let page = certificate_page(id, template, certificate);
                    Web4Response::Body {
                        content_type: String::from_str("text/html; charset=UTF-8"),
                        body: page.as_str().as_bytes_vec(),
                    }
                } else {
                    Web4Response::Body {
                        content_type: String::from_str("text/html; charset=UTF-8"),
                        body:
                            "<h1>Certificate Not Found</h1><p>Go to the <a href=\"/\">home page</a></p>".as_bytes_vec(),
                    }
                }
            },
            None => Web4Response::Body {
                content_type: String::from_str("text/html; charset=UTF-8"),
                body:
                    "<h1>Certificate Not Found</h1><p>Go to the <a href=\"/\">home page</a></p>".as_bytes_vec(),
            },
        }
    }
}

} // verus!
