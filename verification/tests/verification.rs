//! Checking received messages against what a lookup brought back.
use did_playground::document::key_outcome;
use did_playground::document::Document;
use did_playground::document::MethodData;
use did_playground::document::Resolution;
use did_playground::error::DidPlaygroundError;
use did_playground::interface::AuthRequest;
use did_playground::Subject;
use did_playground::SubjectBuilder;
use identity_core::utils::BaseEncoding;

const BOB: &str = "did:iota:HGE4tecHWL2YiZv5qAGtH7gaeQcaz2Z1CR15GWmMjY1M";

fn subject(did: &str) -> Subject {
    SubjectBuilder::new().unwrap().build(did.to_string())
}

fn multibase(public_key: &[u8]) -> Resolution {
    let text = BaseEncoding::encode_multibase(public_key, None);
    Resolution::Resolved(Document { signing_method: Some(MethodData::PublicKeyMultibase(text)) })
}

fn base58(public_key: &[u8]) -> Resolution {
    let text = BaseEncoding::encode_base58(public_key);
    Resolution::Resolved(Document { signing_method: Some(MethodData::PublicKeyBase58(text)) })
}

#[test]
fn signing_key_is_decoded_from_multibase() {
    let key: Vec<u8> = (1u8..=32).collect();
    assert_eq!(multibase(&key).signing_key(), Ok(key));
}

#[test]
fn signing_key_is_decoded_from_base58() {
    let key: Vec<u8> = (101u8..=132).collect();
    assert_eq!(base58(&key).signing_key(), Ok(key));
}

#[test]
fn signing_key_of_known_texts() {
    let plain = Resolution::Resolved(Document {
        signing_method: Some(MethodData::PublicKeyBase58("Cn8eVZg".to_string())),
    });
    assert_eq!(plain.signing_key(), Ok(b"hello".to_vec()));
    let tagged = Resolution::Resolved(Document {
        signing_method: Some(MethodData::PublicKeyMultibase("zCn8eVZg".to_string())),
    });
    assert_eq!(tagged.signing_key(), Ok(b"hello".to_vec()));
}

#[test]
fn the_two_encodings_are_told_apart() {
    // Read as multibase, the leading letter names the base and is no digit.
    let as_base58 = Resolution::Resolved(Document {
        signing_method: Some(MethodData::PublicKeyBase58("zCn8eVZg".to_string())),
    });
    let as_multibase = Resolution::Resolved(Document {
        signing_method: Some(MethodData::PublicKeyMultibase("zCn8eVZg".to_string())),
    });
    assert_ne!(as_base58.signing_key(), as_multibase.signing_key());
}

#[test]
fn unresolved_lookup_has_no_key() {
    assert_eq!(Resolution::Unresolved.signing_key(), Err(DidPlaygroundError::ResolutionFailure));
}

#[test]
fn document_without_signing_method_has_no_key() {
    let resolution = Resolution::Resolved(Document { signing_method: None });
    assert_eq!(resolution.signing_key(), Err(DidPlaygroundError::KeyExtractionFailure));
}

#[test]
fn undecodable_key_material_has_no_key() {
    // 0, O, I and l are no base58 digits.
    let plain = Resolution::Resolved(Document {
        signing_method: Some(MethodData::PublicKeyBase58("0OIl".to_string())),
    });
    assert_eq!(plain.signing_key(), Err(DidPlaygroundError::KeyExtractionFailure));
    // No base is named by an exclamation mark.
    let tagged = Resolution::Resolved(Document {
        signing_method: Some(MethodData::PublicKeyMultibase("!abc".to_string())),
    });
    assert_eq!(tagged.signing_key(), Err(DidPlaygroundError::KeyExtractionFailure));
}

#[test]
fn key_outcome_maps_each_case() {
    assert_eq!(key_outcome(Some(vec![1, 2, 3])), Ok(vec![1, 2, 3]));
    assert_eq!(key_outcome(Some(Vec::new())), Ok(Vec::new()));
    assert_eq!(key_outcome(None), Err(DidPlaygroundError::KeyExtractionFailure));
}

#[test]
fn signature_outcome_maps_each_case() {
    assert_eq!(AuthRequest::signature_outcome(true), Ok(()));
    assert_eq!(AuthRequest::signature_outcome(false), Err(DidPlaygroundError::SignatureMismatch));
}

#[test]
fn verify_accepts_under_either_encoding() {
    let bob = subject(BOB);
    let hello = AuthRequest::try_from(&bob).unwrap();
    assert_eq!(hello.verify(&multibase(bob.public_key())), Ok(()));
    assert_eq!(hello.verify(&base58(bob.public_key())), Ok(()));
}

#[test]
fn verify_unknown_identifier_is_resolution_failure() {
    let bob = subject(BOB);
    let hello = AuthRequest::try_from(&bob).unwrap();
    assert_eq!(hello.verify(&Resolution::Unresolved), Err(DidPlaygroundError::ResolutionFailure));
    // Also for a message that would not pass anyway.
    let forged = AuthRequest::new(BOB.to_string(), b"hello".to_vec(), vec![0u8; 64]);
    assert_eq!(forged.verify(&Resolution::Unresolved), Err(DidPlaygroundError::ResolutionFailure));
}

#[test]
fn verify_without_key_is_key_extraction_failure() {
    let bob = subject(BOB);
    let hello = AuthRequest::try_from(&bob).unwrap();
    let no_method = Resolution::Resolved(Document { signing_method: None });
    assert_eq!(hello.verify(&no_method), Err(DidPlaygroundError::KeyExtractionFailure));
    let garbled = Resolution::Resolved(Document {
        signing_method: Some(MethodData::PublicKeyBase58("not base58!".to_string())),
    });
    assert_eq!(hello.verify(&garbled), Err(DidPlaygroundError::KeyExtractionFailure));
}

#[test]
fn verify_under_a_foreign_key_is_signature_mismatch() {
    let bob = subject(BOB);
    let other = subject(BOB);
    let hello = AuthRequest::try_from(&bob).unwrap();
    assert_eq!(hello.verify(&multibase(other.public_key())), Err(DidPlaygroundError::SignatureMismatch));
}

#[test]
fn verify_under_a_key_of_wrong_length_is_signature_mismatch() {
    let bob = subject(BOB);
    let hello = AuthRequest::try_from(&bob).unwrap();
    let short = &bob.public_key()[..31];
    assert_eq!(hello.verify(&multibase(short)), Err(DidPlaygroundError::SignatureMismatch));
    assert_eq!(hello.verify(&multibase(&[])), Err(DidPlaygroundError::SignatureMismatch));
}

#[test]
fn verify_a_signature_of_wrong_length_is_signature_mismatch() {
    let bob = subject(BOB);
    let hello = AuthRequest::try_from(&bob).unwrap();
    let cut = AuthRequest::new(BOB.to_string(), hello.data().to_vec(), hello.sig()[..63].to_vec());
    assert_eq!(cut.verify(&multibase(bob.public_key())), Err(DidPlaygroundError::SignatureMismatch));
}

#[test]
fn tampering_with_any_payload_byte_is_detected() {
    let bob = subject(BOB);
    let hello = AuthRequest::try_from(&bob).unwrap();
    let lookup = multibase(bob.public_key());
    for at in 0..hello.data().len() {
        for flip in [0x01u8, 0x80u8, 0xffu8] {
            let mut data = hello.data().to_vec();
            data[at] ^= flip;
            let changed = AuthRequest::new(BOB.to_string(), data, hello.sig().to_vec());
            assert_eq!(changed.verify(&lookup), Err(DidPlaygroundError::SignatureMismatch));
        }
    }
}

#[test]
fn tampering_with_any_signature_byte_is_detected() {
    let bob = subject(BOB);
    let hello = AuthRequest::try_from(&bob).unwrap();
    let lookup = multibase(bob.public_key());
    for at in 0..hello.sig().len() {
        for flip in [0x01u8, 0x80u8, 0xffu8] {
            let mut sig = hello.sig().to_vec();
            sig[at] ^= flip;
            let changed = AuthRequest::new(BOB.to_string(), hello.data().to_vec(), sig);
            assert_eq!(changed.verify(&lookup), Err(DidPlaygroundError::SignatureMismatch));
        }
    }
}

#[test]
fn verify_does_not_hand_back_success_for_an_empty_message() {
    let bob = subject(BOB);
    let empty = AuthRequest::new(BOB.to_string(), Vec::new(), Vec::new());
    assert_eq!(empty.verify(&multibase(bob.public_key())), Err(DidPlaygroundError::SignatureMismatch));
}

#[test]
fn message_parts_are_kept_as_given() {
    let message = AuthRequest::new(BOB.to_string(), vec![1, 2, 3], vec![9, 8]);
    assert_eq!(message.did(), BOB);
    assert_eq!(message.data(), &[1u8, 2, 3][..]);
    assert_eq!(message.sig(), &[9u8, 8][..]);
}

#[test]
fn signed_assembles_the_message_or_fails() {
    let bob = subject(BOB);
    let message = AuthRequest::signed(&bob, Some(vec![5u8; 64])).unwrap();
    assert_eq!(message.did(), BOB);
    assert_eq!(message.data(), b"hello");
    assert_eq!(message.sig(), &[5u8; 64][..]);
    assert_eq!(AuthRequest::signed(&bob, None).err(), Some(DidPlaygroundError::SigningFailure));
}

#[test]
fn payload_is_hello() {
    assert_eq!(AuthRequest::payload(), vec![104u8, 101, 108, 108, 111]);
    assert_eq!(AuthRequest::payload(), b"hello".to_vec());
}
