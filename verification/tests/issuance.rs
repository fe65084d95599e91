//! End-to-end tests of the issuance pipeline against real CA material.

use openssl::asn1::{Asn1Integer, Asn1Time};
use openssl::bn::BigNum;
use openssl::hash::MessageDigest;
use openssl::nid::Nid;
use openssl::pkey::{PKey, Private};
use openssl::rsa::Rsa;
use openssl::x509::{X509, X509Builder, X509Name, X509NameBuilder, X509ReqBuilder};

use toy_ca::digest::KeyKind;
use toy_ca::envelope::Status;
use toy_ca::errors::IssueError;
use toy_ca::issuer;
use toy_ca::keystore::CaKeyStore;

fn make_name(cn: &str) -> X509Name {
    let mut nb = X509NameBuilder::new().unwrap();
    nb.append_entry_by_nid(Nid::COMMONNAME, cn).unwrap();
    nb.build()
}

fn make_ca_cert(key: &PKey<Private>, digest: Option<MessageDigest>, cn: &str) -> X509 {
    let mut b = X509Builder::new().unwrap();
    let name = make_name(cn);
    b.set_version(2).unwrap();
    b.set_subject_name(&name).unwrap();
    b.set_issuer_name(&name).unwrap();
    b.set_pubkey(key).unwrap();
    b.set_not_before(&Asn1Time::days_from_now(0).unwrap()).unwrap();
    b.set_not_after(&Asn1Time::days_from_now(30).unwrap()).unwrap();
    let serial = Asn1Integer::from_bn(&BigNum::from_u32(99).unwrap()).unwrap();
    b.set_serial_number(&serial).unwrap();
    match digest {
        Some(d) => b.sign(key, d).unwrap(),
        None => b.sign(key, MessageDigest::null()).unwrap(),
    }
    b.build()
}

fn rsa_key() -> PKey<Private> {
    PKey::from_rsa(Rsa::generate(2048).unwrap()).unwrap()
}

fn rsa_store(cn: &str) -> CaKeyStore {
    let key = rsa_key();
    let cert = make_ca_cert(&key, Some(MessageDigest::sha256()), cn);
    CaKeyStore::load(&cert.to_pem().unwrap(), &key.private_key_to_pem_pkcs8().unwrap()).unwrap()
}

fn make_csr_pem(cn: &str, key: &PKey<Private>) -> Vec<u8> {
    let mut rb = X509ReqBuilder::new().unwrap();
    rb.set_subject_name(&make_name(cn)).unwrap();
    rb.set_pubkey(key).unwrap();
    rb.sign(key, MessageDigest::sha256()).unwrap();
    rb.build().to_pem().unwrap()
}

fn cn_of(name: &openssl::x509::X509NameRef) -> String {
    let entry = name.entries_by_nid(Nid::COMMONNAME).next().unwrap();
    entry.data().to_string().unwrap()
}

#[test]
fn sign_valid_csr_issues_matching_certificate() {
    let store = rsa_store("Test CA");
    let leaf_key = rsa_key();
    let csr_pem = make_csr_pem("leaf.example.com", &leaf_key);
    let csr_base64 = base64::encode(&csr_pem);

    let rep = issuer::sign_certificate_request(&store, &csr_base64);
    assert_eq!(rep.status.as_str(), "SUCCESS");
    assert_eq!(rep.message, "SUCCESS");
    assert!(!rep.payload.is_empty());

    let cert_pem = base64::decode(&rep.payload).unwrap();
    let cert = X509::from_pem(&cert_pem).unwrap();
    assert_eq!(cn_of(cert.issuer_name()), "Test CA");
    assert_eq!(cn_of(cert.subject_name()), "leaf.example.com");
    assert!(cert.public_key().unwrap().public_eq(&leaf_key));
    assert_eq!(
        cert.serial_number().to_bn().unwrap(),
        BigNum::from_u32(1).unwrap()
    );
    assert!(cert.subject_key_id().is_some());

    let diff = cert.not_before().diff(cert.not_after()).unwrap();
    assert_eq!(diff.days, 365);
    assert_eq!(diff.secs, 0);
}

#[test]
fn signed_certificate_verifies_against_ca() {
    let key = rsa_key();
    let cert = make_ca_cert(&key, Some(MessageDigest::sha256()), "Test CA");
    let store =
        CaKeyStore::load(&cert.to_pem().unwrap(), &key.private_key_to_pem_pkcs8().unwrap())
            .unwrap();
    let leaf_key = rsa_key();
    let csr_base64 = base64::encode(make_csr_pem("leaf.example.com", &leaf_key));

    let rep = issuer::sign_certificate_request(&store, &csr_base64);
    assert_eq!(rep.status.as_str(), "SUCCESS");
    let issued = X509::from_pem(&base64::decode(&rep.payload).unwrap()).unwrap();
    assert!(issued.verify(&key).unwrap());
}

#[test]
fn get_ca_certificate_is_idempotent() {
    let store = rsa_store("Test CA");
    let first = issuer::get_ca_certificate(&store);
    let second = issuer::get_ca_certificate(&store);
    assert_eq!(first.status.as_str(), "SUCCESS");
    assert_eq!(second.status.as_str(), "SUCCESS");
    assert_eq!(first.payload, second.payload);
    assert_eq!(first.message, "SUCCESS");

    // the payload really is base64 over the stored PEM, not the PEM itself
    assert_eq!(first.payload, base64::encode(&store.certificate_pem));
    assert_ne!(first.payload.as_bytes(), store.certificate_pem.as_slice());
    let round_trip = base64::decode(&first.payload).unwrap();
    let returned = X509::from_pem(&round_trip).unwrap();
    assert_eq!(
        returned.to_pem().unwrap(),
        store.certificate.to_pem().unwrap()
    );
}

#[test]
fn invalid_base64_is_a_decode_failure() {
    let store = rsa_store("Test CA");
    let rep = issuer::sign_certificate_request(&store, "not-base64-!!");
    assert_eq!(rep.status.as_str(), "FAILURE");
    assert!(rep.payload.is_empty());
    assert!(!rep.message.is_empty());
    assert!(matches!(rep.status, Status::Failure));

    let err = issuer::issue_certificate(&store, "not-base64-!!").unwrap_err();
    assert!(matches!(err, IssueError::DecodeError(_)));
}

#[test]
fn valid_pem_that_is_not_a_csr_is_a_parse_failure() {
    let store = rsa_store("Test CA");
    // a syntactically valid PEM certificate, but not a CSR
    let not_a_csr = base64::encode(&store.certificate_pem);
    let rep = issuer::sign_certificate_request(&store, &not_a_csr);
    assert_eq!(rep.status.as_str(), "FAILURE");
    assert!(rep.payload.is_empty());
    assert!(!rep.message.is_empty());

    let err = issuer::issue_certificate(&store, &not_a_csr).unwrap_err();
    assert!(matches!(err, IssueError::ParseError(_)));
}

#[test]
fn self_hashing_ca_key_signs_without_digest() {
    let key = PKey::generate_ed25519().unwrap();
    let cert = make_ca_cert(&key, None, "Ed CA");
    let store =
        CaKeyStore::load(&cert.to_pem().unwrap(), &key.private_key_to_pem_pkcs8().unwrap())
            .unwrap();
    assert_eq!(store.key_kind, KeyKind::Ed25519);

    let leaf_key = rsa_key();
    let csr_base64 = base64::encode(make_csr_pem("leaf.example.com", &leaf_key));
    let rep = issuer::sign_certificate_request(&store, &csr_base64);
    assert_eq!(rep.status.as_str(), "SUCCESS");
    assert!(!rep.payload.is_empty());

    let issued = X509::from_pem(&base64::decode(&rep.payload).unwrap()).unwrap();
    assert_eq!(cn_of(issued.issuer_name()), "Ed CA");
    assert!(issued.verify(&key).unwrap());
}

#[test]
fn unsupported_ca_key_family_is_a_signing_failure() {
    // an X25519 key can be loaded but cannot sign anything
    let signer = rsa_key();
    let cert = make_ca_cert(&signer, Some(MessageDigest::sha256()), "Test CA");
    let x25519 = PKey::generate_x25519().unwrap();
    let store = CaKeyStore::load(
        &cert.to_pem().unwrap(),
        &x25519.private_key_to_pem_pkcs8().unwrap(),
    )
    .unwrap();
    assert_eq!(store.key_kind, KeyKind::Other);

    let leaf_key = rsa_key();
    let csr_base64 = base64::encode(make_csr_pem("leaf.example.com", &leaf_key));
    let rep = issuer::sign_certificate_request(&store, &csr_base64);
    assert_eq!(rep.status.as_str(), "FAILURE");
    assert!(rep.payload.is_empty());
    assert!(!rep.message.is_empty());

    let err = issuer::issue_certificate(&store, &csr_base64).unwrap_err();
    assert!(matches!(err, IssueError::SigningError(_)));
}

#[test]
fn digest_requiring_key_cannot_sign_without_digest() {
    // the premise behind digest selection: handing no digest to a key family
    // that needs one is refused by the signer rather than producing a
    // non-standard signature
    let key = rsa_key();
    let mut b = X509Builder::new().unwrap();
    let name = make_name("Test CA");
    b.set_subject_name(&name).unwrap();
    b.set_issuer_name(&name).unwrap();
    b.set_pubkey(&key).unwrap();
    assert!(b.sign(&key, MessageDigest::null()).is_err());
}

#[test]
fn issuer_is_the_ca_subject_not_the_ca_issuer() {
    // a CA certificate whose own issuer field differs from its subject:
    // issued certificates must carry the CA's subject as their issuer
    let key = rsa_key();
    let mut b = X509Builder::new().unwrap();
    b.set_subject_name(&make_name("Intermediate CA")).unwrap();
    b.set_issuer_name(&make_name("Root CA")).unwrap();
    b.set_pubkey(&key).unwrap();
    b.set_not_before(&Asn1Time::days_from_now(0).unwrap()).unwrap();
    b.set_not_after(&Asn1Time::days_from_now(30).unwrap()).unwrap();
    let serial = Asn1Integer::from_bn(&BigNum::from_u32(5).unwrap()).unwrap();
    b.set_serial_number(&serial).unwrap();
    b.sign(&key, MessageDigest::sha256()).unwrap();
    let cert = b.build();
    let store =
        CaKeyStore::load(&cert.to_pem().unwrap(), &key.private_key_to_pem_pkcs8().unwrap())
            .unwrap();

    let leaf_key = rsa_key();
    let csr_base64 = base64::encode(make_csr_pem("leaf.example.com", &leaf_key));
    let rep = issuer::sign_certificate_request(&store, &csr_base64);
    assert_eq!(rep.status.as_str(), "SUCCESS");
    let issued = X509::from_pem(&base64::decode(&rep.payload).unwrap()).unwrap();
    assert_eq!(cn_of(issued.issuer_name()), "Intermediate CA");
}

#[test]
fn encrypted_pem_body_is_a_parse_failure() {
    let store = rsa_store("Test CA");
    let encrypted_pem = "-----BEGIN CERTIFICATE REQUEST-----\n\
Proc-Type: 4,ENCRYPTED\n\
DEK-Info: AES-128-CBC,0123456789ABCDEF0123456789ABCDEF\n\
\n\
aGVsbG8gd29ybGQ=\n\
-----END CERTIFICATE REQUEST-----\n";
    let csr_base64 = base64::encode(encrypted_pem.as_bytes());
    let rep = issuer::sign_certificate_request(&store, &csr_base64);
    assert_eq!(rep.status.as_str(), "FAILURE");
    assert!(rep.payload.is_empty());
    assert!(!rep.message.is_empty());

    let err = issuer::issue_certificate(&store, &csr_base64).unwrap_err();
    assert!(matches!(err, IssueError::ParseError(_)));
}
