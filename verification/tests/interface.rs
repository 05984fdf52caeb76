//! The interface of a subject: port and addresses.
use did_playground::error::DidPlaygroundError;
use did_playground::interface::SubjectInterface;
use did_playground::storage;
use did_playground::text::decimal_string;
use did_playground::Subject;
use did_playground::SubjectBuilder;

const ALICE: &str = "did:iota:4b3PpPzs1Kb7bBLqzPgsnwtN9BJX8adMATxmDcuRNv4c";

fn interface() -> SubjectInterface {
    SubjectInterface::from(Subject::new(ALICE.to_string(), vec![1u8; 32], vec![2u8; 32]))
}

#[test]
fn new_interface_has_port_zero() {
    let alice = interface();
    assert_eq!(alice.port(), 0);
    assert_eq!(alice.auth_url(), "http://localhost:0/auth");
    assert_eq!(alice.listen_address(), "0.0.0.0:0");
    assert_eq!(alice.subject().did(), ALICE);
    assert_eq!(alice.subject().public_key(), &[1u8; 32][..]);
    assert_eq!(alice.subject().private_key(), &[2u8; 32][..]);
}

#[test]
fn up_records_the_bound_port() {
    let mut alice = interface();
    alice.up(8080);
    assert_eq!(alice.port(), 8080);
    assert_eq!(alice.auth_url(), "http://localhost:8080/auth");
    assert_eq!(alice.listen_address(), "0.0.0.0:8080");
    assert_eq!(alice.subject().did(), ALICE);
    assert_eq!(alice.subject().private_key(), &[2u8; 32][..]);
}

#[test]
fn auth_url_for_ports_of_every_length() {
    let mut alice = interface();
    for (port, url) in [
        (7u16, "http://localhost:7/auth"),
        (80, "http://localhost:80/auth"),
        (443, "http://localhost:443/auth"),
        (3000, "http://localhost:3000/auth"),
        (10000, "http://localhost:10000/auth"),
        (65535, "http://localhost:65535/auth"),
    ] {
        alice.up(port);
        assert_eq!(alice.port(), port);
        assert_eq!(alice.auth_url(), url);
    }
}

#[test]
fn auth_endpoint_is_the_path_of_the_url() {
    assert_eq!(SubjectInterface::AUTH_ENDPOINT, "/auth");
    let mut alice = interface();
    alice.up(5);
    assert!(alice.auth_url().ends_with(SubjectInterface::AUTH_ENDPOINT));
}

#[test]
fn decimal_string_matches_the_standard_rendering() {
    for n in [0u16, 1, 9, 10, 11, 99, 100, 101, 909, 999, 1000, 4096, 9999, 10000, 12345, 60006, 65535] {
        assert_eq!(decimal_string(n), n.to_string());
    }
    assert_eq!(decimal_string(0), "0");
    assert_eq!(decimal_string(1050), "1050");
}

#[test]
fn builders_make_different_subjects() {
    let first = SubjectBuilder::new().unwrap();
    let second = SubjectBuilder::new().unwrap();
    assert_ne!(first.private_key(), second.private_key());
    assert_ne!(first.public_key(), second.public_key());
    let private = first.private_key().to_vec();
    let public = first.public_key().to_vec();
    let subject = first.build(ALICE.to_string());
    assert_eq!(subject.did(), ALICE);
    assert_eq!(subject.private_key(), &private[..]);
    assert_eq!(subject.public_key(), &public[..]);
}

#[test]
fn storage_needs_a_password() {
    assert_eq!(storage(None, None).err(), Some(DidPlaygroundError::EnvVar));
    assert_eq!(storage(None, Some("./elsewhere.hodl".to_string())).err(), Some(DidPlaygroundError::EnvVar));
}

#[test]
fn storage_path_has_a_default() {
    let settings = storage(Some("secret".to_string()), None).unwrap();
    assert_eq!(settings.password, "secret");
    assert_eq!(settings.path, "./key_manager.hodl");
    let settings = storage(Some("secret".to_string()), Some("/var/keys.hodl".to_string())).unwrap();
    assert_eq!(settings.password, "secret");
    assert_eq!(settings.path, "/var/keys.hodl");
}

#[test]
fn every_failure_has_its_message() {
    assert_eq!(DidPlaygroundError::RemoteRejected.message(), "could not send hello to remote subject");
    assert_eq!(DidPlaygroundError::EnvVar.message(), "required env variable unset");
    assert_eq!(DidPlaygroundError::KeyGeneration.message(), "could not generate a key pair");
    assert_eq!(DidPlaygroundError::SigningFailure.message(), "could not sign the hello message");
    assert_eq!(DidPlaygroundError::TransportFailure.message(), "could not reach the remote subject");
    assert_eq!(DidPlaygroundError::ResolutionFailure.message(), "could not resolve the remote identifier");
    assert_eq!(
        DidPlaygroundError::KeyExtractionFailure.message(),
        "no usable signing key in the remote document"
    );
    assert_eq!(DidPlaygroundError::SignatureMismatch.message(), "the signature does not match the payload");
}

#[test]
fn verification_failures_are_told_from_the_others() {
    assert!(DidPlaygroundError::ResolutionFailure.is_verification_failure());
    assert!(DidPlaygroundError::KeyExtractionFailure.is_verification_failure());
    assert!(DidPlaygroundError::SignatureMismatch.is_verification_failure());
    assert!(!DidPlaygroundError::RemoteRejected.is_verification_failure());
    assert!(!DidPlaygroundError::TransportFailure.is_verification_failure());
    assert!(!DidPlaygroundError::SigningFailure.is_verification_failure());
    assert!(!DidPlaygroundError::KeyGeneration.is_verification_failure());
    assert!(!DidPlaygroundError::EnvVar.is_verification_failure());
}
