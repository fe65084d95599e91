//! Error taxonomy: fatal startup failures and per-request pipeline failures.

use vstd::prelude::*;

verus! {

/// A per-request failure of the issuance pipeline, by stage. Each variant
/// carries a human-readable diagnostic.
#[derive(Debug)]
pub enum IssueError {
    /// the request body was not valid base64
    DecodeError(String),
    /// the decoded bytes were not a PEM-encoded PKCS#10 request
    ParseError(String),
    /// the certificate structure could not be put together or encoded
    BuildError(String),
    /// the CA key's family is unsupported for signing, or signing failed
    SigningError(String),
}

impl IssueError {
    /// The diagnostic text carried by this error.
    pub open spec fn spec_message(self) -> Seq<char> {
        match self {
            IssueError::DecodeError(m) => m@,
            IssueError::ParseError(m) => m@,
            IssueError::BuildError(m) => m@,
            IssueError::SigningError(m) => m@,
        }
    }

    /// Surrenders the diagnostic text.
    pub fn into_message(self) -> (r: String)
        ensures
            r@ == self.spec_message(),
    {
        match self {
            IssueError::DecodeError(m) => m,
            IssueError::ParseError(m) => m,
            IssueError::BuildError(m) => m,
            IssueError::SigningError(m) => m,
        }
    }
}

/// A fatal failure while loading the CA identity at startup.
#[derive(Debug)]
pub enum StartupError {
    /// the CA certificate bytes did not hold a parseable PEM certificate
    CertificateParse(String),
    /// the CA key bytes did not hold a parseable PEM/PKCS#8 private key
    KeyParse(String),
    /// re-encoding the CA certificate to PEM failed
    CertificateEncode(String),
}

impl StartupError {
    /// The diagnostic text carried by this error.
    pub open spec fn spec_message(self) -> Seq<char> {
        match self {
            StartupError::CertificateParse(m) => m@,
            StartupError::KeyParse(m) => m@,
            StartupError::CertificateEncode(m) => m@,
        }
    }

    /// Surrenders the diagnostic text.
    pub fn into_message(self) -> (r: String)
        ensures
            r@ == self.spec_message(),
    {
        match self {
            StartupError::CertificateParse(m) => m,
            StartupError::KeyParse(m) => m,
            StartupError::CertificateEncode(m) => m,
        }
    }
}

} // verus!
