//! Shared data model: payload-size classes, the decoded verification input,
//! and the error taxonomy common to every algorithm adapter.

use vstd::prelude::*;

verus! {

/// A named bucket describing the approximate message length of a benchmark
/// payload, used to study how verification cost scales.
#[derive(Clone, Copy, PartialEq, Eq, Structural, Debug)]
pub enum PayloadSize {
    /// A few bytes.
    Small,
    /// Roughly 1-2 MB, built by repeating a fixed short pattern.
    Medium,
}

impl PayloadSize {
    /// The wire label of this payload-size class.
    pub fn label(&self) -> (r: &'static str)
        ensures
            *self == PayloadSize::Small ==> r@ == "small"@,
            *self == PayloadSize::Medium ==> r@ == "medium"@,
    {
        match self {
            PayloadSize::Small => "small",
            PayloadSize::Medium => "medium",
        }
    }
}

/// Malformed base64 input: terminal, aborts the entire run.
#[derive(Clone, Copy, PartialEq, Eq, Structural, Debug)]
pub struct DecodeError;

/// Why a single verification call failed before (or inside) the underlying
/// primitive. A `false` verdict is not an error: it is `Ok(false)`.
#[derive(Clone, Copy, PartialEq, Eq, Structural, Debug)]
pub enum VerificationError {
    /// One of the three textual inputs is not valid base64.
    Decode,
    /// The public-key material did not parse after decoding.
    KeyParse,
    /// The signature bytes did not parse after decoding.
    SignatureParse,
    /// The primitive library reported a failure other than a clean
    /// accept/reject verdict.
    Primitive,
}

/// What one call of an underlying verification primitive did, reduced to the
/// four cases the adapters' failure mapping distinguishes.
#[derive(Clone, Copy, PartialEq, Eq, Structural, Debug)]
pub enum SchemeOutcome {
    /// The signature is valid for the key and message.
    Accepted,
    /// The primitive ran and rejected the signature.
    Rejected,
    /// The key material was rejected before any verdict was reached.
    KeyRejected,
    /// The primitive failed for another reason.
    Failed,
}

/// The adapters' uniform failure mapping: a clean verdict becomes the
/// boolean outcome, a rejected key becomes `KeyParse`, anything else a
/// generic `Primitive` error.
pub open spec fn outcome_to_result_spec(o: SchemeOutcome) -> Result<bool, VerificationError> {
    match o {
        SchemeOutcome::Accepted => Ok(true),
        SchemeOutcome::Rejected => Ok(false),
        SchemeOutcome::KeyRejected => Err(VerificationError::KeyParse),
        SchemeOutcome::Failed => Err(VerificationError::Primitive),
    }
}

/// Maps a primitive outcome to the adapters' result contract.
pub fn outcome_to_result(o: SchemeOutcome) -> (r: Result<bool, VerificationError>)
    ensures
        r == outcome_to_result_spec(o),
{
    match o {
        SchemeOutcome::Accepted => Ok(true),
        SchemeOutcome::Rejected => Ok(false),
        SchemeOutcome::KeyRejected => Err(VerificationError::KeyParse),
        SchemeOutcome::Failed => Err(VerificationError::Primitive),
    }
}

/// The triple handed to a verification primitive: signature bytes, public-key
/// bytes, and the message bytes after the algorithm's mandated
/// pre-processing. Immutable once constructed.
#[derive(Debug)]
pub struct VerificationInput {
    pub signature: Vec<u8>,
    pub public_key: Vec<u8>,
    pub message: Vec<u8>,
}

} // verus!
