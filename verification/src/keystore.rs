//! The CA identity, loaded once at startup and immutable afterwards.

use vstd::prelude::*;

use crate::crypto;
use crate::digest::KeyKind;
use crate::errors::StartupError;
use crate::pem;
use openssl::pkey::{PKey, Private};
use openssl::x509::X509;

verus! {

/// The CA identity: its certificate, a fixed PEM rendering of that
/// certificate, its private key, and the key's algorithm family. The private
/// key is assumed to correspond to the certificate's public key; a mismatch
/// cannot be detected here. Loaded once at startup, then only read.
pub struct CaKeyStore {
    pub certificate: X509,
    pub certificate_pem: Vec<u8>,
    pub private_key: PKey<Private>,
    pub key_kind: KeyKind,
}

impl CaKeyStore {
    /// Well-formed: the stored PEM rendering of the CA certificate is
    /// non-empty.
    pub open spec fn wf(self) -> bool {
        self.certificate_pem@.len() > 0
    }

    /// Parses the CA certificate and private key from PEM bytes read from
    /// storage, keeps a fixed PEM rendering of the certificate, and records
    /// the key's algorithm family. Malformed material is a fatal startup
    /// error.
    pub fn load(cert_pem: &[u8], key_pem: &[u8]) -> (r: Result<CaKeyStore, StartupError>)
        ensures
            (r matches Err(e) && e is CertificateParse) <==> !crypto::cert_accepted(cert_pem@),
            (r matches Err(e) && e is KeyParse) <==> (crypto::cert_accepted(cert_pem@)
                && !crypto::key_accepted(key_pem@)),
            r matches Ok(s) ==> crypto::cert_accepted(cert_pem@)
                && crypto::key_accepted(key_pem@) && s.wf()
                && s.key_kind == crypto::key_family_of(key_pem@),
            r matches Err(e) ==> e.spec_message().len() > 0,
    {
        if cert_pem.len() > crypto::MAX_PEM_INPUT {
            proof {
                reveal_strlit("the CA certificate PEM is too large");
            }
            return Err(
                StartupError::CertificateParse("the CA certificate PEM is too large".to_owned()),
            );
        }
        if pem::contains_encryption_marker(cert_pem) {
            proof {
                reveal_strlit("the CA certificate PEM declares an encrypted body");
            }
            return Err(
                StartupError::CertificateParse(
                    "the CA certificate PEM declares an encrypted body".to_owned(),
                ),
            );
        }
        let certificate = match crypto::parse_certificate(cert_pem) {
            Ok(c) => c,
            Err(m) => {
                return Err(StartupError::CertificateParse(m));
            },
        };
        if key_pem.len() > crypto::MAX_PEM_INPUT {
            proof {
                reveal_strlit("the CA private key PEM is too large");
            }
            return Err(StartupError::KeyParse("the CA private key PEM is too large".to_owned()));
        }
        let (private_key, key_kind) = match crypto::parse_private_key(key_pem) {
            Ok(k) => k,
            Err(m) => {
                return Err(StartupError::KeyParse(m));
            },
        };
        let certificate_pem = match crypto::certificate_to_pem(&certificate) {
            Ok(p) => p,
            Err(m) => {
                return Err(StartupError::CertificateEncode(m));
            },
        };
        Ok(CaKeyStore { certificate, certificate_pem, private_key, key_kind })
    }
}

} // verus!
