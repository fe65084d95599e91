//! The issuance pipeline: decode, parse, build, select a digest, sign,
//! encode; and the CA-certificate read-out.

use vstd::prelude::*;

use crate::crypto;
use crate::crypto::CertificateDraft;
use crate::digest;
use crate::digest::spec_select_digest;
use crate::envelope::OperationResult;
use crate::errors::IssueError;
use crate::keystore::CaKeyStore;
use crate::pem;
use openssl::x509::{X509, X509Req};

verus! {

/// Serial number assigned to every issued certificate. A fixed serial is a
/// deliberate, inherited policy choice; a production CA must never reuse a
/// serial under the same issuer and would allocate them instead.
pub const SERIAL_NUMBER: u32 = 1;

/// Length of the validity window of an issued certificate: 365 days, in
/// seconds.
pub const VALIDITY_SECONDS: i64 = 365 * 86400;

/// The construction invariants of an issued certificate: serial number
/// assigned, issuer name taken from this CA certificate's subject, subject
/// name, public key and structure version copied from this request,
/// validity running from one captured instant for exactly the validity
/// window, and exactly one subject-key-identifier extension, built while
/// the request's public key was the one in place.
pub open spec fn draft_well_built(m: crypto::DraftModel, csr: X509Req, ca_cert: X509) -> bool {
    &&& m.serial == Some(SERIAL_NUMBER)
    &&& m.issuer_subject_of == Some(ca_cert)
    &&& m.subject_of == Some(csr)
    &&& m.public_key_of == Some(csr)
    &&& m.version_of == Some(csr)
    &&& (m.not_before_unix matches Some(s) && m.not_after_unix matches Some(e) && e == s
        + VALIDITY_SECONDS)
    &&& m.subject_key_ids.len() == 1
    &&& m.subject_key_ids[0] == Some(csr)
}

/// The validity span of a fully built draft, in seconds.
pub open spec fn validity_span_seconds(m: crypto::DraftModel) -> int {
    m.not_after_unix.unwrap() - m.not_before_unix.unwrap()
}

/// A well-built draft's validity starts at the captured issuance instant
/// and ends exactly 365 days, in seconds, after it.
pub proof fn lemma_validity_span(m: crypto::DraftModel, csr: X509Req, ca_cert: X509)
    requires
        draft_well_built(m, csr, ca_cert),
    ensures
        validity_span_seconds(m) == VALIDITY_SECONDS,
        m.not_before_unix.unwrap() <= m.not_after_unix.unwrap(),
{
}

/// Builds the unsigned certificate: assigns the serial number, sets the
/// issuer to the CA certificate's subject, copies subject, public key and
/// structure version from the request, sets the validity window from one
/// captured instant, and attaches the subject-key-identifier extension
/// (after the public key, so the identifier is derived from it).
pub fn prepare_draft(csr: &X509Req, ca_cert: &X509) -> (r: Result<CertificateDraft, IssueError>)
    ensures
        r matches Ok(d) ==> draft_well_built(d@, *csr, *ca_cert) && d@.signed_with is None,
        r matches Err(e) ==> e is BuildError && e.spec_message().len() > 0,
{
    let mut d = match crypto::new_draft() {
        Ok(d) => d,
        Err(m) => {
            return Err(IssueError::BuildError(m));
        },
    };
    if let Err(m) = crypto::set_serial(&mut d, SERIAL_NUMBER) {
        return Err(IssueError::BuildError(m));
    }
    if let Err(m) = crypto::set_issuer_from(&mut d, ca_cert) {
        return Err(IssueError::BuildError(m));
    }
    if let Err(m) = crypto::set_subject_from(&mut d, csr) {
        return Err(IssueError::BuildError(m));
    }
    if let Err(m) = crypto::set_public_key_from(&mut d, csr) {
        return Err(IssueError::BuildError(m));
    }
    if let Err(m) = crypto::set_version_from(&mut d, csr) {
        return Err(IssueError::BuildError(m));
    }
    let now = match crypto::current_unix_time() {
        Ok(t) => t,
        Err(m) => {
            return Err(IssueError::BuildError(m));
        },
    };
    if now > i64::MAX - VALIDITY_SECONDS {
        proof {
            reveal_strlit("the validity window does not fit in a timestamp");
        }
        return Err(
            IssueError::BuildError(
                "the validity window does not fit in a timestamp".to_owned(),
            ),
        );
    }
    if let Err(m) = crypto::set_not_before_unix(&mut d, now) {
        return Err(IssueError::BuildError(m));
    }
    if let Err(m) = crypto::set_not_after_unix(&mut d, now + VALIDITY_SECONDS) {
        return Err(IssueError::BuildError(m));
    }
    if let Err(m) = crypto::append_subject_key_identifier(&mut d) {
        return Err(IssueError::BuildError(m));
    }
    Ok(d)
}

/// The deterministic stages accept the request: the text decodes as
/// base64, the decoded bytes carry no encrypted-PEM header, and they parse
/// as a PKCS#10 request.
pub open spec fn request_well_formed(csr_base64: Seq<char>) -> bool {
    match crypto::base64_decoded(csr_base64) {
        Some(der) => crypto::csr_accepted(der),
        None => false,
    }
}

/// Runs the issuance pipeline against the CA identity: returns the signed
/// certificate as base64 over PEM, or the failing stage's error. Text that
/// is not base64 is a decode error; bytes that are oversized or not a
/// PKCS#10 request are a parse error; an unsupported CA key family is a
/// signing error, rejected before anything is signed.
pub fn issue_certificate(store: &CaKeyStore, csr_base64: &str) -> (r: Result<String, IssueError>)
    ensures
        (r matches Err(e) && e is DecodeError) <==> crypto::base64_decoded(csr_base64@) is None,
        (r matches Err(e) && e is ParseError) <==> (crypto::base64_decoded(csr_base64@)
            matches Some(der) && !crypto::csr_accepted(der)),
        request_well_formed(csr_base64@) && spec_select_digest(store.key_kind) is None ==> (
        r matches Err(e) && e is SigningError),
        r matches Err(e) && e is SigningError ==> request_well_formed(csr_base64@),
        r matches Err(e) && e is BuildError ==> request_well_formed(csr_base64@)
            && spec_select_digest(store.key_kind) is Some,
        r matches Err(e) ==> e.spec_message().len() > 0,
        r matches Ok(payload) ==> request_well_formed(csr_base64@) && spec_select_digest(
            store.key_kind,
        ) is Some && payload@.len() > 0 && (crypto::base64_decoded(payload@) matches Some(p)
            && crypto::cert_parse_ok(p)),
{
    let der = match crypto::decode_base64(csr_base64) {
        Ok(v) => v,
        Err(m) => {
            return Err(IssueError::DecodeError(m));
        },
    };
    if der.len() > crypto::MAX_PEM_INPUT {
        proof {
            reveal_strlit("the decoded request is too large");
        }
        return Err(IssueError::ParseError("the decoded request is too large".to_owned()));
    }
    if pem::contains_encryption_marker(der.as_slice()) {
        proof {
            reveal_strlit("encrypted PEM input is not accepted");
        }
        return Err(IssueError::ParseError("encrypted PEM input is not accepted".to_owned()));
    }
    let csr = match crypto::parse_csr(der.as_slice()) {
        Ok(c) => c,
        Err(m) => {
            return Err(IssueError::ParseError(m));
        },
    };
    let selection = match digest::select_digest(store.key_kind) {
        Some(s) => s,
        None => {
            proof {
                reveal_strlit("the CA key's algorithm family is not supported for signing");
            }
            return Err(
                IssueError::SigningError(
                    "the CA key's algorithm family is not supported for signing".to_owned(),
                ),
            );
        },
    };
    let mut draft = match prepare_draft(&csr, &store.certificate) {
        Ok(d) => d,
        Err(e) => {
            return Err(e);
        },
    };
    if let Err(m) = crypto::sign_draft(&mut draft, &store.private_key, &selection) {
        return Err(IssueError::SigningError(m));
    }
    let cert = crypto::finish_draft(draft);
    let pem = match crypto::certificate_to_pem(&cert) {
        Ok(p) => p,
        Err(m) => {
            return Err(IssueError::BuildError(m));
        },
    };
    let payload = crypto::encode_base64(pem.as_slice());
    Ok(payload)
}

/// Handles a signing request end to end and wraps the outcome in the
/// uniform envelope: on success the payload is the signed certificate,
/// base64 over PEM; on any stage failure the payload is empty and the
/// message carries the stage's diagnostic.
pub fn sign_certificate_request(store: &CaKeyStore, csr_base64: &str) -> (r: OperationResult)
    ensures
        r.wf(),
        !request_well_formed(csr_base64@) ==> r.status is Failure,
        request_well_formed(csr_base64@) && spec_select_digest(store.key_kind) is None
            ==> r.status is Failure,
        r.status is Success ==> request_well_formed(csr_base64@) && spec_select_digest(
            store.key_kind,
        ) is Some && r.payload@.len() > 0 && (crypto::base64_decoded(r.payload@)
            matches Some(p) && crypto::cert_parse_ok(p)),
{
    match issue_certificate(store, csr_base64) {
        Ok(payload) => OperationResult::success(payload),
        Err(e) => OperationResult::failure(e.into_message()),
    }
}

/// The payload that every read of the CA certificate returns: the base64
/// rendering of the stored PEM.
pub open spec fn ca_certificate_payload(store: CaKeyStore) -> Seq<char> {
    crypto::base64_of(store.certificate_pem@)
}

/// Returns the CA's certificate, base64 over PEM, in a success envelope.
/// Pure and deterministic: the payload is a function of the stored CA
/// identity alone, and decodes back to the stored PEM.
pub fn get_ca_certificate(store: &CaKeyStore) -> (r: OperationResult)
    ensures
        r.wf(),
        r.status is Success,
        r.payload@ == ca_certificate_payload(*store),
        crypto::base64_decoded(r.payload@) == Some(store.certificate_pem@),
        store.wf() ==> r.payload@.len() > 0,
        r.message@ == "SUCCESS"@,
{
    let payload = crypto::encode_base64(store.certificate_pem.as_slice());
    OperationResult::success(payload)
}

/// Reading the CA certificate is idempotent: any two payloads produced for
/// the same stored CA identity are identical, character for character.
pub proof fn lemma_ca_certificate_idempotent(
    store: CaKeyStore,
    r1: OperationResult,
    r2: OperationResult,
)
    requires
        r1.payload@ == ca_certificate_payload(store),
        r2.payload@ == ca_certificate_payload(store),
    ensures
        r1.payload@ == r2.payload@,
{
}

} // verus!
