//! A small certification authority: it signs leaf certificates from incoming
//! PKCS#10 certificate signing requests with a single pre-provisioned CA
//! identity, and exposes the CA's own certificate.

pub mod crypto;
pub mod digest;
pub mod envelope;
pub mod errors;
pub mod issuer;
pub mod keystore;
pub mod pem;
