//! Codec layer: the textual (base64) encoding of signatures, public keys and
//! messages, decoded into raw byte buffers. Shared by every algorithm
//! adapter.

use vstd::prelude::*;
use crate::types::DecodeError;

verus! {

/// What the standard base64 engine decodes a text to: `Some(bytes)` for a
/// canonical, padded base64 encoding, `None` for anything it rejects.
pub uninterp spec fn b64_decode(s: Seq<char>) -> Option<Seq<u8>>;

/// What the standard base64 engine encodes a byte sequence to.
pub uninterp spec fn b64_encode(b: Seq<u8>) -> Seq<char>;

/// Relies on base64's `Engine::decode` with the `STANDARD` engine: the result
/// is a function of the input text alone, and the engine's canonical-padding
/// configuration accepts exactly the texts that `Engine::encode` produces, so
/// a decoded text re-encodes to itself.
#[verifier::external_body]
fn decode_standard(text: &str) -> (r: Option<Vec<u8>>)
    ensures
        r is Some <==> b64_decode(text@) is Some,
        r is Some ==> (r->0)@ == b64_decode(text@)->0,
        r is Some ==> b64_encode((r->0)@) == text@,
{
    base64::Engine::decode(&base64::engine::general_purpose::STANDARD, text).ok()
}

/// Relies on base64's `Engine::encode` with the `STANDARD` engine: the result
/// is a function of the input bytes alone, and decoding it returns the input
/// bytes unchanged.
#[verifier::external_body]
fn encode_standard(bytes: &[u8]) -> (r: String)
    ensures
        r@ == b64_encode(bytes@),
        b64_decode(r@) == Some(bytes@),
{
    base64::Engine::encode(&base64::engine::general_purpose::STANDARD, bytes)
}

/// Decodes a base64 text into raw bytes; fails with `DecodeError` exactly
/// when the text is not valid (canonical, padded) base64. No other
/// validation happens here: downstream adapters interpret the bytes under
/// their own parsing rules.
pub fn decode(text: &str) -> (r: Result<Vec<u8>, DecodeError>)
    ensures
        r is Ok <==> b64_decode(text@) is Some,
        r is Ok ==> (r->Ok_0)@ == b64_decode(text@)->0,
        r is Ok ==> b64_encode((r->Ok_0)@) == text@,
{
    match decode_standard(text) {
        Some(bytes) => Ok(bytes),
        None => Err(DecodeError),
    }
}

/// Encodes raw bytes as base64 text; `decode` of the result returns the
/// bytes unchanged.
pub fn encode(bytes: &[u8]) -> (r: String)
    ensures
        r@ == b64_encode(bytes@),
        b64_decode(r@) == Some(bytes@),
{
    encode_standard(bytes)
}

/// The three decoded byte buffers of one fixture triple, in the order every
/// adapter decodes them: signature, public key, message. `None` when any of
/// the three texts is not valid base64.
pub open spec fn decode_triple_spec(
    sig_txt: Seq<char>,
    pk_txt: Seq<char>,
    msg_txt: Seq<char>,
) -> Option<(Seq<u8>, Seq<u8>, Seq<u8>)> {
    if b64_decode(sig_txt) is Some && b64_decode(pk_txt) is Some && b64_decode(msg_txt) is Some {
        Some((b64_decode(sig_txt)->0, b64_decode(pk_txt)->0, b64_decode(msg_txt)->0))
    } else {
        None
    }
}

/// Decodes one fixture triple; the first invalid text aborts with
/// `DecodeError`.
pub fn decode_triple(sig_txt: &str, pk_txt: &str, msg_txt: &str) -> (r: Result<
    (Vec<u8>, Vec<u8>, Vec<u8>),
    DecodeError,
>)
    ensures
        r is Ok <==> decode_triple_spec(sig_txt@, pk_txt@, msg_txt@) is Some,
        r is Ok ==> ((r->Ok_0).0@, (r->Ok_0).1@, (r->Ok_0).2@) == decode_triple_spec(
            sig_txt@,
            pk_txt@,
            msg_txt@,
        )->0,
{
    let sig = decode(sig_txt)?;
    let pk = decode(pk_txt)?;
    let msg = decode(msg_txt)?;
    Ok((sig, pk, msg))
}

/// Encoding then decoding returns the input bytes unchanged, for every byte
/// sequence: the decode of `encode(bytes)` cannot fail, and its value is
/// `bytes` itself.
pub fn decode_of_encode(bytes: &[u8]) -> (r: Vec<u8>)
    ensures
        r@ == bytes@,
{
    let text = encode(bytes);
    match decode(text.as_str()) {
        Ok(decoded) => decoded,
        Err(_) => vstd::pervasive::unreached(),
    }
}

} // verus!
