//! Trusted surface over the `openssl` and `base64` crates, and the model of
//! a certificate under construction.
//!
//! Every `external_body` function here makes exactly the outside calls its
//! doc comment names; everything stated about them is taken on trust.

use vstd::prelude::*;

use crate::digest::{DigestKind, DigestSelection};
use crate::digest::KeyKind;
use crate::pem;
use openssl::pkey::{PKey, Private};
use openssl::x509::{X509, X509Builder, X509Req};

verus! {

#[verifier::external_type_specification]
#[verifier::external_body]
pub struct ExX509(X509);

#[verifier::external_type_specification]
#[verifier::external_body]
pub struct ExX509Req(X509Req);

#[verifier::external_type_specification]
#[verifier::external_body]
pub struct ExX509Builder(X509Builder);

#[verifier::external_type_specification]
#[verifier::external_body]
pub struct ExPrivate(Private);

#[verifier::external_type_specification]
#[verifier::external_body]
#[verifier::reject_recursive_types(T)]
pub struct ExPKey<T>(PKey<T>);

/// The base64 rendering (standard alphabet, padded) of a byte sequence.
pub uninterp spec fn base64_of(bytes: Seq<u8>) -> Seq<char>;

/// What base64 decoding yields for a text, if it decodes at all.
pub uninterp spec fn base64_decoded(text: Seq<char>) -> Option<Seq<u8>>;

/// Whether a byte sequence parses as a PEM-encoded PKCS#10 request.
pub uninterp spec fn csr_parse_ok(bytes: Seq<u8>) -> bool;

/// Whether a byte sequence parses as a PEM-encoded X.509 certificate.
pub uninterp spec fn cert_parse_ok(bytes: Seq<u8>) -> bool;

/// Whether a byte sequence parses as a PEM/PKCS#8-encoded private key.
pub uninterp spec fn private_key_parse_ok(bytes: Seq<u8>) -> bool;

/// The algorithm family that the parsed form of a private key reports.
pub uninterp spec fn key_family_of(bytes: Seq<u8>) -> KeyKind;

/// The largest input OpenSSL's in-memory BIO accepts: one C `int` of
/// bytes. A longer buffer makes its constructor abort, so the parsers
/// below are never handed one.
pub const MAX_PEM_INPUT: usize = 0x7fffffff;

/// The bytes are accepted as a CSR: they fit the parser's input bound,
/// carry no encrypted-PEM header, and parse as a PKCS#10 request.
pub open spec fn csr_accepted(bytes: Seq<u8>) -> bool {
    &&& bytes.len() <= MAX_PEM_INPUT
    &&& !pem::declares_pem_encryption(bytes)
    &&& csr_parse_ok(bytes)
}

/// The bytes are accepted as a certificate: they fit the parser's input
/// bound, carry no encrypted-PEM header, and parse as an X.509
/// certificate.
pub open spec fn cert_accepted(bytes: Seq<u8>) -> bool {
    &&& bytes.len() <= MAX_PEM_INPUT
    &&& !pem::declares_pem_encryption(bytes)
    &&& cert_parse_ok(bytes)
}

/// The bytes are accepted as a private key: they fit the parser's input
/// bound and parse as a PEM/PKCS#8 key.
pub open spec fn key_accepted(bytes: Seq<u8>) -> bool {
    bytes.len() <= MAX_PEM_INPUT && private_key_parse_ok(bytes)
}

/// Relies on base64::encode (standard alphabet, padded): the result depends
/// on the input bytes alone, holds four characters for every three bytes,
/// and base64::decode maps it back to the input.
#[verifier::external_body]
pub(crate) fn encode_base64(bytes: &[u8]) -> (r: String)
    ensures
        r@ == base64_of(bytes@),
        r@.len() == 4 * ((bytes@.len() + 2) / 3),
        base64_decoded(r@) == Some(bytes@),
{
    base64::encode(bytes)
}

/// Relies on base64::decode (standard alphabet): the outcome depends on the
/// input text alone; text that is not valid base64 is rejected.
#[verifier::external_body]
pub(crate) fn decode_base64(text: &str) -> (r: Result<Vec<u8>, String>)
    ensures
        r matches Ok(bytes) ==> base64_decoded(text@) == Some(bytes@),
        r matches Err(msg) ==> base64_decoded(text@) is None && msg@.len() > 0,
{
    match base64::decode(text) {
        Ok(bytes) => Ok(bytes),
        Err(e) => Err(format!("base64 decoding failed: {}", e)),
    }
}

/// Relies on X509Req::from_pem: on bytes free of encrypted-PEM headers the
/// passphrase callback is never consulted, so whether they parse as a
/// PKCS#10 request depends on the bytes alone.
#[verifier::external_body]
pub(crate) fn parse_csr(pem: &[u8]) -> (r: Result<X509Req, String>)
    requires
        pem@.len() <= MAX_PEM_INPUT,
        !pem::declares_pem_encryption(pem@),
    ensures
        r is Ok <==> csr_parse_ok(pem@),
        r matches Err(msg) ==> msg@.len() > 0,
{
    X509Req::from_pem(pem).map_err(|e| format!("CSR parsing failed: {}", e))
}

/// Relies on X509::from_pem: on bytes free of encrypted-PEM headers the
/// passphrase callback is never consulted, so whether they parse as a
/// certificate depends on the bytes alone.
#[verifier::external_body]
pub(crate) fn parse_certificate(pem: &[u8]) -> (r: Result<X509, String>)
    requires
        pem@.len() <= MAX_PEM_INPUT,
        !pem::declares_pem_encryption(pem@),
    ensures
        r is Ok <==> cert_parse_ok(pem@),
        r matches Err(msg) ==> msg@.len() > 0,
{
    X509::from_pem(pem).map_err(|e| format!("certificate parsing failed: {}", e))
}

/// Relies on PKey::private_key_from_pem_passphrase, handed the empty
/// passphrase so that nothing ever prompts, and on PKeyRef::id: whether
/// the bytes parse, and the parsed key's algorithm family, depend on the
/// bytes alone. A key encrypted under a non-empty passphrase is rejected.
#[verifier::external_body]
pub(crate) fn parse_private_key(pem: &[u8]) -> (r: Result<(PKey<Private>, KeyKind), String>)
    requires
        pem@.len() <= MAX_PEM_INPUT,
    ensures
        r is Ok <==> private_key_parse_ok(pem@),
        r matches Ok(p) ==> p.1 == key_family_of(pem@),
        r matches Err(msg) ==> msg@.len() > 0,
{
    let key = PKey::private_key_from_pem_passphrase(pem, b"")
        .map_err(|e| format!("private key parsing failed: {}", e))?;
    let id = key.id();
    let kind = if id == openssl::pkey::Id::RSA { KeyKind::Rsa }
        else if id == openssl::pkey::Id::EC { KeyKind::Ec }
        else if id == openssl::pkey::Id::DSA { KeyKind::Dsa }
        else if id == openssl::pkey::Id::ED25519 { KeyKind::Ed25519 }
        else if id == openssl::pkey::Id::ED448 { KeyKind::Ed448 }
        else { KeyKind::Other };
    Ok((key, kind))
}

/// Relies on X509Ref::to_pem: a PEM rendering is never empty (it carries
/// at least its delimiter lines) and is a PEM-encoded X.509 structure, so
/// it parses back as a certificate.
#[verifier::external_body]
pub(crate) fn certificate_to_pem(cert: &X509) -> (r: Result<Vec<u8>, String>)
    ensures
        r matches Ok(pem) ==> pem@.len() > 0 && cert_parse_ok(pem@),
        r matches Err(msg) ==> msg@.len() > 0,
{
    cert.to_pem().map_err(|e| format!("certificate encoding failed: {}", e))
}

/// What has been placed into a certificate under construction, recorded
/// source by source as the builder calls are made.
pub struct DraftModel {
    /// the serial number, once assigned
    pub serial: Option<u32>,
    /// the certificate whose subject name was copied into the issuer field
    pub issuer_subject_of: Option<X509>,
    /// the request whose subject name was copied into the subject field
    pub subject_of: Option<X509Req>,
    /// the request whose public key was copied in
    pub public_key_of: Option<X509Req>,
    /// the request whose structure version was copied in
    pub version_of: Option<X509Req>,
    /// start of validity, seconds since the Unix epoch, once set
    pub not_before_unix: Option<i64>,
    /// end of validity, seconds since the Unix epoch, once set
    pub not_after_unix: Option<i64>,
    /// subject-key-identifier extensions attached, each recording the
    /// request whose public key was in place when it was built
    pub subject_key_ids: Seq<Option<X509Req>>,
    /// the digest selection the draft was signed under, once signed
    pub signed_with: Option<DigestSelection>,
}

impl DraftModel {
    /// Nothing placed yet.
    pub open spec fn empty() -> DraftModel {
        DraftModel {
            serial: None,
            issuer_subject_of: None,
            subject_of: None,
            public_key_of: None,
            version_of: None,
            not_before_unix: None,
            not_after_unix: None,
            subject_key_ids: Seq::empty(),
            signed_with: None,
        }
    }
}

/// A certificate under construction: the underlying builder, together with
/// the record of what has been placed into it.
pub struct CertificateDraft {
    builder: X509Builder,
    model: Ghost<DraftModel>,
}

impl View for CertificateDraft {
    type V = DraftModel;

    /// The record of what has been placed into this draft.
    closed spec fn view(&self) -> DraftModel {
        self.model@
    }
}

/// Relies on X509Builder::new: a fresh certificate builder.
#[verifier::external_body]
fn new_builder() -> (r: Result<X509Builder, String>)
    ensures
        r matches Err(msg) ==> msg@.len() > 0,
{
    X509Builder::new().map_err(|e| format!("certificate builder creation failed: {}", e))
}

/// A fresh draft with nothing placed into it.
pub(crate) fn new_draft() -> (r: Result<CertificateDraft, String>)
    ensures
        r matches Ok(d) ==> d@ == DraftModel::empty(),
        r matches Err(msg) ==> msg@.len() > 0,
{
    match new_builder() {
        Ok(b) => Ok(CertificateDraft { builder: b, model: Ghost(DraftModel::empty()) }),
        Err(m) => Err(m),
    }
}

/// Relies on BigNum::from_u32, Asn1Integer::from_bn and
/// X509Builder::set_serial_number: stores the given serial number.
#[verifier::external_body]
pub(crate) fn set_serial(d: &mut CertificateDraft, serial: u32) -> (r: Result<(), String>)
    ensures
        r is Ok ==> final(d)@ == (DraftModel { serial: Some(serial), ..old(d)@ }),
        r matches Err(msg) ==> msg@.len() > 0,
{
    let err = |e| format!("serial number: {}", e);
    let bn = openssl::bn::BigNum::from_u32(serial).map_err(err)?;
    let asn1 = openssl::asn1::Asn1Integer::from_bn(&bn).map_err(err)?;
    d.builder.set_serial_number(&asn1).map_err(err)
}

/// Relies on X509Ref::subject_name and X509Builder::set_issuer_name: the
/// issuer of the certificate under construction becomes the given
/// certificate's subject name.
#[verifier::external_body]
pub(crate) fn set_issuer_from(d: &mut CertificateDraft, ca_cert: &X509) -> (r: Result<
    (),
    String,
>)
    ensures
        r is Ok ==> final(d)@ == (DraftModel {
            issuer_subject_of: Some(*ca_cert),
            ..old(d)@
        }),
        r matches Err(msg) ==> msg@.len() > 0,
{
    d.builder.set_issuer_name(ca_cert.subject_name()).map_err(|e| format!("issuer name: {}", e))
}

/// Relies on X509ReqRef::subject_name and X509Builder::set_subject_name:
/// the subject becomes the request's subject name.
#[verifier::external_body]
pub(crate) fn set_subject_from(d: &mut CertificateDraft, csr: &X509Req) -> (r: Result<
    (),
    String,
>)
    ensures
        r is Ok ==> final(d)@ == (DraftModel {
            subject_of: Some(*csr),
            ..old(d)@
        }),
        r matches Err(msg) ==> msg@.len() > 0,
{
    d.builder.set_subject_name(csr.subject_name()).map_err(|e| format!("subject name: {}", e))
}

/// Relies on X509ReqRef::public_key and X509Builder::set_pubkey: the public
/// key becomes the request's public key.
#[verifier::external_body]
pub(crate) fn set_public_key_from(d: &mut CertificateDraft, csr: &X509Req) -> (r: Result<
    (),
    String,
>)
    ensures
        r is Ok ==> final(d)@ == (DraftModel {
            public_key_of: Some(*csr),
            ..old(d)@
        }),
        r matches Err(msg) ==> msg@.len() > 0,
{
    let err = |e| format!("public key: {}", e);
    let key = csr.public_key().map_err(err)?;
    d.builder.set_pubkey(&key).map_err(err)
}

/// Relies on X509ReqRef::version and X509Builder::set_version: the
/// structure version becomes the request's version.
#[verifier::external_body]
pub(crate) fn set_version_from(d: &mut CertificateDraft, csr: &X509Req) -> (r: Result<
    (),
    String,
>)
    ensures
        r is Ok ==> final(d)@ == (DraftModel {
            version_of: Some(*csr),
            ..old(d)@
        }),
        r matches Err(msg) ==> msg@.len() > 0,
{
    d.builder.set_version(csr.version()).map_err(|e| format!("structure version: {}", e))
}

/// Relies on std::time::SystemTime::now: the current instant as seconds
/// since the Unix epoch, as the clock reports it.
#[verifier::external_body]
pub(crate) fn current_unix_time() -> (r: Result<i64, String>)
    ensures
        r matches Err(msg) ==> msg@.len() > 0,
{
    let now = std::time::SystemTime::now()
        .duration_since(std::time::UNIX_EPOCH)
        .map_err(|e| format!("clock: {}", e))?;
    i64::try_from(now.as_secs()).map_err(|e| format!("clock: {}", e))
}

/// Relies on Asn1Time::from_unix and X509Builder::set_not_before: the
/// start of validity becomes the given instant.
#[verifier::external_body]
pub(crate) fn set_not_before_unix(d: &mut CertificateDraft, time: i64) -> (r: Result<
    (),
    String,
>)
    ensures
        r is Ok ==> final(d)@ == (DraftModel {
            not_before_unix: Some(time),
            ..old(d)@
        }),
        r matches Err(msg) ==> msg@.len() > 0,
{
    let err = |e| format!("validity start: {}", e);
    let t = openssl::asn1::Asn1Time::from_unix(time).map_err(err)?;
    d.builder.set_not_before(&t).map_err(err)
}

/// Relies on Asn1Time::from_unix and X509Builder::set_not_after: the end
/// of validity becomes the given instant.
#[verifier::external_body]
pub(crate) fn set_not_after_unix(d: &mut CertificateDraft, time: i64) -> (r: Result<
    (),
    String,
>)
    ensures
        r is Ok ==> final(d)@ == (DraftModel {
            not_after_unix: Some(time),
            ..old(d)@
        }),
        r matches Err(msg) ==> msg@.len() > 0,
{
    let err = |e| format!("validity end: {}", e);
    let t = openssl::asn1::Asn1Time::from_unix(time).map_err(err)?;
    d.builder.set_not_after(&t).map_err(err)
}

/// Relies on SubjectKeyIdentifier::build over the builder's own X509v3
/// context, and X509Builder::append_extension: attaches one subject key
/// identifier derived from the public key already placed in the builder,
/// recorded with the request that key was copied from.
#[verifier::external_body]
pub(crate) fn append_subject_key_identifier(d: &mut CertificateDraft) -> (r: Result<
    (),
    String,
>)
    ensures
        r is Ok ==> final(d)@ == (DraftModel {
            subject_key_ids: old(d)@.subject_key_ids.push(old(d)@.public_key_of),
            ..old(d)@
        }),
        r matches Err(msg) ==> msg@.len() > 0,
{
    let err = |e| format!("subject key identifier: {}", e);
    let ext = {
        let ctx = d.builder.x509v3_context(None, None);
        openssl::x509::extension::SubjectKeyIdentifier::new().build(&ctx)
    }.map_err(err)?;
    d.builder.append_extension(ext).map_err(err)
}

/// Relies on X509Builder::sign: signs with the given key, pre-hashing with
/// SHA-256 when an external digest is selected, and with the null digest
/// for a self-hashing scheme.
#[verifier::external_body]
pub(crate) fn sign_draft(
    d: &mut CertificateDraft,
    key: &PKey<Private>,
    selection: &DigestSelection,
) -> (r: Result<(), String>)
    ensures
        r is Ok ==> final(d)@ == (DraftModel {
            signed_with: Some(*selection),
            ..old(d)@
        }),
        r matches Err(msg) ==> msg@.len() > 0,
{
    let digest = match selection {
        DigestSelection::External(DigestKind::Sha256) => openssl::hash::MessageDigest::sha256(),
        DigestSelection::SelfHashing => openssl::hash::MessageDigest::null(),
    };
    d.builder.sign(key, digest).map_err(|e| format!("signing failed: {}", e))
}

/// Relies on X509Builder::build: yields the finished certificate.
#[verifier::external_body]
pub(crate) fn finish_draft(d: CertificateDraft) -> X509 {
    d.builder.build()
}

} // verus!
