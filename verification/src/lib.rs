//! Certificate registry: issuer authorization, append-only template and
//! certificate stores, and a path-addressed read-only rendering gateway.
//!
//! State-changing operations take the caller's identity as an explicit
//! argument; the surrounding execution environment is expected to
//! authenticate the caller before handing it in.

pub mod contract;
pub mod encoding;
pub mod gateway;
pub mod numbers;
pub mod payload;
pub mod render;
pub mod types;

pub use contract::CertificatesContract;
pub use gateway::{Web4Request, Web4Response};
pub use types::{
    Certificate, CertificateStatus, CertificateTemplate, ContractError, IssuerProfile,
};
