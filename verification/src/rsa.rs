//! The RSA adapter: PEM-encoded public key, SHA-256 digesting done inside
//! the verification primitive, PSS padding required.

use vstd::prelude::*;
use crate::codec;
use crate::types::{outcome_to_result, outcome_to_result_spec, SchemeOutcome, VerificationError};

verus! {

/// What the RSA-PSS verification primitive does with a signature, a
/// PEM-encoded public key, and a message, reduced to the adapters' four
/// outcome cases.
pub uninterp spec fn rsa_pss_outcome(sig: Seq<u8>, pk_pem: Seq<u8>, msg: Seq<u8>) -> SchemeOutcome;

/// Relies on openssl's `Rsa::public_key_from_pem`, `PKey::from_rsa`, and a
/// SHA-256 `Verifier` with PSS padding (`new`, `set_rsa_padding`, `update`,
/// `verify`): parsing and verification are deterministic, so the outcome is
/// a function of the three byte buffers alone. A key that does not parse is
/// `KeyRejected`; a clean verdict of `verify` is `Accepted` or `Rejected`;
/// any other library failure is `Failed`.
#[verifier::external_body]
fn rsa_pss_verify_bytes(sig: &[u8], pk_pem: &[u8], msg: &[u8]) -> (r: SchemeOutcome)
    ensures
        r == rsa_pss_outcome(sig@, pk_pem@, msg@),
{
    let rsa = match openssl::rsa::Rsa::public_key_from_pem(pk_pem) { Ok(k) => k, Err(_) => return SchemeOutcome::KeyRejected };
    let key = match openssl::pkey::PKey::from_rsa(rsa) { Ok(k) => k, Err(_) => return SchemeOutcome::KeyRejected };
    let md = openssl::hash::MessageDigest::sha256();
    let mut verifier = match openssl::sign::Verifier::new(md, &key) { Ok(v) => v, Err(_) => return SchemeOutcome::Failed };
    if verifier.set_rsa_padding(openssl::rsa::Padding::PKCS1_PSS).is_err() { return SchemeOutcome::Failed; }
    if verifier.update(msg).is_err() { return SchemeOutcome::Failed; }
    match verifier.verify(sig) { Ok(true) => SchemeOutcome::Accepted, Ok(false) => SchemeOutcome::Rejected, Err(_) => SchemeOutcome::Failed }
}

/// The full outcome of one RSA-PSS adapter call on three base64 texts: a
/// text that does not decode aborts with `Decode`, otherwise the primitive's
/// outcome is mapped through the uniform failure mapping.
pub open spec fn verify_spec(sig_txt: Seq<char>, pk_txt: Seq<char>, msg_txt: Seq<char>) -> Result<
    bool,
    VerificationError,
> {
    match codec::decode_triple_spec(sig_txt, pk_txt, msg_txt) {
        Some(triple) => outcome_to_result_spec(rsa_pss_outcome(triple.0, triple.1, triple.2)),
        None => Err(VerificationError::Decode),
    }
}

/// Verifies an RSA signature: decodes the three texts, parses the PEM public
/// key, and runs the SHA-256 verifier with PSS padding over the full
/// message.
pub fn verify_signature(base64_sig: &str, base64_pk: &str, base64_message: &str) -> (r: Result<
    bool,
    VerificationError,
>)
    ensures
        r == verify_spec(base64_sig@, base64_pk@, base64_message@),
{
    match codec::decode_triple(base64_sig, base64_pk, base64_message) {
        Ok((sig, pk, msg)) => outcome_to_result(
            rsa_pss_verify_bytes(sig.as_slice(), pk.as_slice(), msg.as_slice()),
        ),
        Err(_) => Err(VerificationError::Decode),
    }
}

} // verus!
