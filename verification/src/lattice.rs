//! Preparation and failure mapping for the two lattice-based schemes
//! (ML-DSA-65 and FALCON-512). Both share one textual-input contract and one
//! failure mapping; they differ only in which primitive the embedding
//! application loads, so that primitive receives a fully prepared
//! (signature, public key, message) triple and hands back its outcome.
//!
//! Two revisions of the message policy exist: the production policy digests
//! the message with SHA-256 and verifies the 32-byte digest; the earlier
//! revision verifies the raw message. The two are not interchangeable, so
//! each has its own preparation function.

use vstd::prelude::*;
use crate::codec;
use crate::digest;
use crate::types::{VerificationError, VerificationInput};

verus! {

/// The message the primitive verifies under the production (pre-hashing)
/// policy: the SHA-256 digest of the decoded message.
pub open spec fn prehashed_message(msg: Seq<u8>) -> Seq<u8> {
    digest::sha256_of(msg)
}

/// Decodes a fixture triple and applies the production (pre-hashing)
/// policy: the primitive will verify the 32-byte SHA-256 digest of the
/// message, not the message itself.
pub fn prepare_prehashed(sig_txt: &str, pk_txt: &str, msg_txt: &str) -> (r: Result<
    VerificationInput,
    VerificationError,
>)
    ensures
        r is Ok <==> codec::decode_triple_spec(sig_txt@, pk_txt@, msg_txt@) is Some,
        r is Err ==> r == Err::<VerificationInput, VerificationError>(VerificationError::Decode),
        r is Ok ==> {
            let triple = codec::decode_triple_spec(sig_txt@, pk_txt@, msg_txt@)->0;
            &&& (r->Ok_0).signature@ == triple.0
            &&& (r->Ok_0).public_key@ == triple.1
            &&& (r->Ok_0).message@ == prehashed_message(triple.2)
            &&& (r->Ok_0).message@.len() == 32
        },
{
    match codec::decode_triple(sig_txt, pk_txt, msg_txt) {
        Ok((sig, pk, msg)) => {
            let digest = digest::sha256(msg.as_slice());
            Ok(VerificationInput { signature: sig, public_key: pk, message: digest })
        },
        Err(_) => Err(VerificationError::Decode),
    }
}

/// Decodes a fixture triple under the earlier raw-message revision: the
/// primitive verifies the decoded message bytes unchanged.
pub fn prepare_raw(sig_txt: &str, pk_txt: &str, msg_txt: &str) -> (r: Result<
    VerificationInput,
    VerificationError,
>)
    ensures
        r is Ok <==> codec::decode_triple_spec(sig_txt@, pk_txt@, msg_txt@) is Some,
        r is Err ==> r == Err::<VerificationInput, VerificationError>(VerificationError::Decode),
        r is Ok ==> {
            let triple = codec::decode_triple_spec(sig_txt@, pk_txt@, msg_txt@)->0;
            &&& (r->Ok_0).signature@ == triple.0
            &&& (r->Ok_0).public_key@ == triple.1
            &&& (r->Ok_0).message@ == triple.2
        },
{
    match codec::decode_triple(sig_txt, pk_txt, msg_txt) {
        Ok((sig, pk, msg)) => Ok(VerificationInput { signature: sig, public_key: pk, message: msg }),
        Err(_) => Err(VerificationError::Decode),
    }
}

/// The two message policies hand the primitive different byte sequences
/// whenever the decoded message is not itself exactly 32 bytes long: the
/// pre-hashing policy always passes a 32-byte digest, the raw policy passes
/// the message unchanged. Returns whether the two prepared messages have
/// different lengths (and so certainly differ).
pub fn policies_prepare_differently(sig_txt: &str, pk_txt: &str, msg_txt: &str) -> (r: bool)
    ensures
        ({
            let triple = codec::decode_triple_spec(sig_txt@, pk_txt@, msg_txt@);
            &&& (triple is Some && (triple->0).2.len() != 32) ==> r
            &&& r ==> (triple is Some && prehashed_message((triple->0).2) != (triple->0).2)
        }),
{
    let prehashed = prepare_prehashed(sig_txt, pk_txt, msg_txt);
    let raw = prepare_raw(sig_txt, pk_txt, msg_txt);
    match (prehashed, raw) {
        (Ok(a), Ok(b)) => a.message.len() != b.message.len(),
        _ => false,
    }
}

/// The lattice adapters' failure mapping, in the order the primitive library
/// reports: a signature that does not parse, then a public key that does not
/// parse, then the boolean verdict of the verification call itself.
pub fn interpret_outcome(sig_parsed: bool, key_parsed: bool, accepted: bool) -> (r: Result<
    bool,
    VerificationError,
>)
    ensures
        !sig_parsed ==> r == Err::<bool, VerificationError>(VerificationError::SignatureParse),
        sig_parsed && !key_parsed ==> r == Err::<bool, VerificationError>(
            VerificationError::KeyParse,
        ),
        sig_parsed && key_parsed ==> r == Ok::<bool, VerificationError>(accepted),
{
    if !sig_parsed {
        Err(VerificationError::SignatureParse)
    } else if !key_parsed {
        Err(VerificationError::KeyParse)
    } else {
        Ok(accepted)
    }
}

} // verus!
