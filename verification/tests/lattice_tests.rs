use pqsig_bench::codec::encode;
use pqsig_bench::lattice::{
    interpret_outcome, policies_prepare_differently, prepare_prehashed, prepare_raw,
};
use pqsig_bench::types::VerificationError;
use sha2::{Digest, Sha256};

#[test]
fn prepare_prehashed_digests_the_message() {
    let sig = encode(b"sig-bytes");
    let pk = encode(b"pk-bytes");
    let msg = encode(b"hello");
    let input = prepare_prehashed(&sig, &pk, &msg).unwrap();
    assert_eq!(input.signature, b"sig-bytes".to_vec());
    assert_eq!(input.public_key, b"pk-bytes".to_vec());
    assert_eq!(input.message, Sha256::digest(b"hello").to_vec());
    assert_eq!(input.message.len(), 32);
}

#[test]
fn prepare_raw_passes_the_message_through() {
    let sig = encode(b"sig-bytes");
    let pk = encode(b"pk-bytes");
    let msg = encode(b"hello");
    let input = prepare_raw(&sig, &pk, &msg).unwrap();
    assert_eq!(input.signature, b"sig-bytes".to_vec());
    assert_eq!(input.public_key, b"pk-bytes".to_vec());
    assert_eq!(input.message, b"hello".to_vec());
}

#[test]
fn prepare_rejects_invalid_base64() {
    let pk = encode(b"pk-bytes");
    let msg = encode(b"hello");
    assert_eq!(
        prepare_prehashed("!!bad!!", &pk, &msg).unwrap_err(),
        VerificationError::Decode
    );
    assert_eq!(prepare_raw(&pk, "!!bad!!", &msg).unwrap_err(), VerificationError::Decode);
}

#[test]
fn policies_differ_on_ordinary_messages() {
    let sig = encode(b"sig-bytes");
    let pk = encode(b"pk-bytes");
    let msg = encode(b"hello");
    assert!(policies_prepare_differently(&sig, &pk, &msg));
}

#[test]
fn interpret_outcome_failure_mapping() {
    assert_eq!(interpret_outcome(false, true, true), Err(VerificationError::SignatureParse));
    assert_eq!(interpret_outcome(false, false, false), Err(VerificationError::SignatureParse));
    assert_eq!(interpret_outcome(true, false, true), Err(VerificationError::KeyParse));
    assert_eq!(interpret_outcome(true, true, true), Ok(true));
    assert_eq!(interpret_outcome(true, true, false), Ok(false));
}
