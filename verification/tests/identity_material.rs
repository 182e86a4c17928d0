//! Identity generation and certificate-hash pinning, against the real TLS
//! backend.

use fos_server::identity::{client_security, NetworkIdentity, SecurityMode};

#[test]
fn generated_identity_has_base64_digests() {
    let names = vec![
        String::from("localsingleplayer"),
        String::from("127.0.0.1"),
        String::from("::1"),
    ];
    let id = NetworkIdentity::generate(&names).expect("valid names must yield an identity");
    assert_eq!(id.spki_fingerprint.len(), 44);
    assert_eq!(id.cert_hash.len(), 44);
    assert!(id.spki_fingerprint.ends_with('='));
    assert_eq!(id.subject_names, names);
}

#[test]
fn invalid_subject_name_fails_identity_generation() {
    let names = vec![String::from("\u{2764}")];
    match NetworkIdentity::generate(&names) {
        Ok(_) => panic!("a non-ASCII name must fail"),
        Err(err) => assert!(!err.is_empty()),
    }
}

#[test]
fn empty_hash_means_no_validation() {
    match client_security("").expect("an empty digest is development mode") {
        SecurityMode::NoCertValidation => {}
        SecurityMode::PinnedHash(_) => panic!("an empty digest must not pin anything"),
    }
}

#[test]
fn generated_hash_round_trips_into_pinning() {
    let names = vec![String::from("localhost")];
    let id = NetworkIdentity::generate(&names).expect("valid names must yield an identity");
    match client_security(id.cert_hash.as_str()).expect("the generated hash must decode") {
        SecurityMode::PinnedHash(bytes) => assert_eq!(bytes.len(), 32),
        SecurityMode::NoCertValidation => panic!("a configured digest must be pinned"),
    }
}

#[test]
fn malformed_hash_is_an_error() {
    assert!(client_security("not base64!!").is_err());
    assert!(client_security("AAAA").is_err());
}
