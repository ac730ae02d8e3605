use openssl::ec::{EcGroup, EcKey};
use openssl::hash::MessageDigest;
use openssl::nid::Nid;
use openssl::pkey::PKey;
use openssl::rsa::{Padding, Rsa};
use openssl::sign::Signer;
use pqsig_bench::codec::encode;
use pqsig_bench::types::VerificationError;
use pqsig_bench::{ecdsa, rsa};

/// A generated (signature, public-key PEM, message) triple, base64-encoded.
struct Fixture {
    sig: String,
    pk: String,
    msg: String,
}

fn ecdsa_fixture(message: &[u8]) -> Fixture {
    let group = EcGroup::from_curve_name(Nid::SECP384R1).unwrap();
    let ec_key = EcKey::generate(&group).unwrap();
    let pem = ec_key.public_key_to_pem().unwrap();
    let pkey = PKey::from_ec_key(ec_key).unwrap();
    let mut signer = Signer::new(MessageDigest::sha384(), &pkey).unwrap();
    signer.update(message).unwrap();
    let sig = signer.sign_to_vec().unwrap();
    Fixture { sig: encode(&sig), pk: encode(&pem), msg: encode(message) }
}

fn rsa_fixture(message: &[u8]) -> Fixture {
    let rsa_key = Rsa::generate(2048).unwrap();
    let pem = rsa_key.public_key_to_pem().unwrap();
    let pkey = PKey::from_rsa(rsa_key).unwrap();
    let mut signer = Signer::new(MessageDigest::sha256(), &pkey).unwrap();
    signer.set_rsa_padding(Padding::PKCS1_PSS).unwrap();
    signer.update(message).unwrap();
    let sig = signer.sign_to_vec().unwrap();
    Fixture { sig: encode(&sig), pk: encode(&pem), msg: encode(message) }
}

fn flip_last_bit(encoded: &str) -> String {
    let mut bytes = pqsig_bench::codec::decode(encoded).unwrap();
    let last = bytes.len() - 1;
    bytes[last] ^= 1;
    encode(&bytes)
}

/// Flips one bit in the middle of the decoded bytes, inside the body of a
/// PEM block rather than its armor lines.
fn flip_middle_bit(encoded: &str) -> String {
    let mut bytes = pqsig_bench::codec::decode(encoded).unwrap();
    let mid = bytes.len() / 2;
    bytes[mid] ^= 1;
    encode(&bytes)
}

#[test]
fn ecdsa_fixture_verifies() {
    let f = ecdsa_fixture(b"hello");
    assert_eq!(ecdsa::verify_signature(&f.sig, &f.pk, &f.msg), Ok(true));
}

#[test]
fn ecdsa_rejects_flipped_message() {
    let f = ecdsa_fixture(b"hello");
    let bad_msg = flip_last_bit(&f.msg);
    assert_eq!(ecdsa::verify_signature(&f.sig, &f.pk, &bad_msg), Ok(false));
}

#[test]
fn ecdsa_rejects_flipped_signature() {
    let f = ecdsa_fixture(b"hello");
    let bad_sig = flip_last_bit(&f.sig);
    assert_ne!(ecdsa::verify_signature(&bad_sig, &f.pk, &f.msg), Ok(true));
}

#[test]
fn ecdsa_rejects_flipped_key() {
    let f = ecdsa_fixture(b"hello");
    let bad_pk = flip_middle_bit(&f.pk);
    assert_ne!(ecdsa::verify_signature(&f.sig, &bad_pk, &f.msg), Ok(true));
}

#[test]
fn rsa_fixture_verifies() {
    let f = rsa_fixture(b"hello");
    assert_eq!(rsa::verify_signature(&f.sig, &f.pk, &f.msg), Ok(true));
}

#[test]
fn rsa_rejects_flipped_message() {
    let f = rsa_fixture(b"hello");
    let bad_msg = flip_last_bit(&f.msg);
    assert_eq!(rsa::verify_signature(&f.sig, &f.pk, &bad_msg), Ok(false));
}

#[test]
fn rsa_rejects_flipped_signature() {
    let f = rsa_fixture(b"hello");
    let bad_sig = flip_last_bit(&f.sig);
    assert_ne!(rsa::verify_signature(&bad_sig, &f.pk, &f.msg), Ok(true));
}

#[test]
fn rsa_rejects_flipped_key() {
    let f = rsa_fixture(b"hello");
    let bad_pk = flip_middle_bit(&f.pk);
    assert_ne!(rsa::verify_signature(&f.sig, &bad_pk, &f.msg), Ok(true));
}

#[test]
fn adapter_reports_decode_error() {
    let f = ecdsa_fixture(b"hello");
    assert_eq!(
        ecdsa::verify_signature("!!not base64!!", &f.pk, &f.msg),
        Err(VerificationError::Decode)
    );
    assert_eq!(
        rsa::verify_signature("!!not base64!!", &f.pk, &f.msg),
        Err(VerificationError::Decode)
    );
}

#[test]
fn ecdsa_medium_payload_scenario() {
    // The medium payload class: "hi\n" repeated to roughly 1.5 MB, carried
    // as the repeated base64 text of that pattern.
    let payload_text = pqsig_bench::harness::build_payload("aGkK", 1024 * 512);
    let message = pqsig_bench::codec::decode(payload_text.as_str()).unwrap();
    let f = ecdsa_fixture(&message);
    assert_eq!(ecdsa::verify_signature(&f.sig, &f.pk, &payload_text), Ok(true));

    // Handing the adapter another algorithm's public key is a typed
    // key-parse failure, not an unrelated error.
    let wrong = rsa_fixture(b"hello");
    assert_eq!(
        ecdsa::verify_signature(&f.sig, &wrong.pk, &payload_text),
        Err(VerificationError::KeyParse)
    );
}
