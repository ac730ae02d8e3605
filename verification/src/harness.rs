//! The benchmark harness: drives N verification iterations per
//! (algorithm, payload-size) pair over one fixed fixture, checks every
//! outcome, and measures the elapsed wall time of the whole batch (one
//! coarse reading around the loop, trading per-call resolution for lower
//! timer overhead).

use vstd::prelude::*;
use vstd::string::StringExecFns;
use crate::ecdsa;
use crate::rsa;
use crate::types::{PayloadSize, VerificationError};

verus! {

/// One signature scheme under one fixed pre-processing policy. The two
/// lattice schemes each exist in two revisions — the production policy
/// pre-hashes the message with SHA-256, the earlier revision verifies the
/// raw message — and a signature produced under one policy does not verify
/// under the other, so each revision is its own identity and a caller must
/// pick one explicitly.
#[derive(Clone, Copy, PartialEq, Eq, Structural, Debug)]
pub enum AlgorithmIdentity {
    /// ML-DSA-65 under the production (pre-hashing) policy.
    MlDsa65Prehashed,
    /// ML-DSA-65 under the earlier raw-message revision.
    MlDsa65Raw,
    /// FALCON-512 under the production (pre-hashing) policy.
    Falcon512Prehashed,
    /// FALCON-512 under the earlier raw-message revision.
    Falcon512Raw,
    /// ECDSA over a 384-bit curve; the verifier digests with SHA-384.
    EcdsaP384,
    /// RSA-4096; the verifier digests with SHA-256 and requires PSS padding.
    Rsa4096Pss,
}

impl AlgorithmIdentity {
    /// Whether this identity is one of the lattice schemes, whose primitive
    /// the embedding application loads and drives; the harness runs the
    /// classical schemes' primitives itself.
    pub open spec fn is_lattice(self) -> bool {
        match self {
            AlgorithmIdentity::MlDsa65Prehashed => true,
            AlgorithmIdentity::MlDsa65Raw => true,
            AlgorithmIdentity::Falcon512Prehashed => true,
            AlgorithmIdentity::Falcon512Raw => true,
            AlgorithmIdentity::EcdsaP384 => false,
            AlgorithmIdentity::Rsa4096Pss => false,
        }
    }

    /// The wire label of the algorithm this identity benchmarks.
    pub fn label(&self) -> (r: &'static str)
        ensures
            (*self == AlgorithmIdentity::MlDsa65Prehashed || *self
                == AlgorithmIdentity::MlDsa65Raw) ==> r@ == "ML-DSA-65"@,
            (*self == AlgorithmIdentity::Falcon512Prehashed || *self
                == AlgorithmIdentity::Falcon512Raw) ==> r@ == "Falcon-512"@,
            *self == AlgorithmIdentity::EcdsaP384 ==> r@ == "ECDSA-384"@,
            *self == AlgorithmIdentity::Rsa4096Pss ==> r@ == "RSA-4096"@,
    {
        match self {
            AlgorithmIdentity::MlDsa65Prehashed => "ML-DSA-65",
            AlgorithmIdentity::MlDsa65Raw => "ML-DSA-65",
            AlgorithmIdentity::Falcon512Prehashed => "Falcon-512",
            AlgorithmIdentity::Falcon512Raw => "Falcon-512",
            AlgorithmIdentity::EcdsaP384 => "ECDSA-384",
            AlgorithmIdentity::Rsa4096Pss => "RSA-4096",
        }
    }
}

/// One measured benchmark: an algorithm identity, a payload-size class, how
/// many verification iterations ran, and the elapsed wall time of the whole
/// batch. Immutable once created.
#[derive(Debug)]
pub struct BenchmarkRun {
    pub algorithm: AlgorithmIdentity,
    pub payload_size: PayloadSize,
    pub iterations: u32,
    pub elapsed_ns: u128,
}

/// Why a benchmark batch aborted. Fixtures are assumed valid, so a
/// verification mismatch is fatal for the run, not a recorded failure.
#[derive(Clone, Copy, PartialEq, Eq, Structural, Debug)]
pub enum HarnessError {
    /// An adapter failed before reaching a verdict (decode or parse error).
    Input(VerificationError),
    /// A fixture that was expected to verify did not.
    Mismatch,
    /// The identity's primitive is not bound into this library; the
    /// embedding application loads and drives it with the same per-iteration
    /// checks.
    UnboundScheme,
}

/// What the harness does with one adapter outcome: a valid verdict
/// continues the batch, an invalid verdict is a fatal mismatch, and an
/// adapter error aborts with that error.
pub open spec fn iteration_step_spec(outcome: Result<bool, VerificationError>) -> Result<
    (),
    HarnessError,
> {
    match outcome {
        Ok(true) => Ok(()),
        Ok(false) => Err(HarnessError::Mismatch),
        Err(e) => Err(HarnessError::Input(e)),
    }
}

/// Checks one adapter outcome against the harness's abort-vs-continue
/// policy.
pub fn check_iteration(outcome: &Result<bool, VerificationError>) -> (r: Result<(), HarnessError>)
    ensures
        r == iteration_step_spec(*outcome),
{
    match outcome {
        Ok(true) => Ok(()),
        Ok(false) => Err(HarnessError::Mismatch),
        Err(e) => Err(HarnessError::Input(*e)),
    }
}

/// Records one completed batch. The measurement is taken by the caller
/// around the whole batch, after every iteration has been checked.
pub fn make_run(
    algorithm: AlgorithmIdentity,
    payload_size: PayloadSize,
    iterations: u32,
    elapsed_ns: u128,
) -> (r: BenchmarkRun)
    ensures
        r.algorithm == algorithm,
        r.payload_size == payload_size,
        r.iterations == iterations,
        r.elapsed_ns == elapsed_ns,
{
    BenchmarkRun { algorithm, payload_size, iterations, elapsed_ns }
}

/// The message bytes an identity's primitive verifies: the 32-byte SHA-256
/// digest under the pre-hashing lattice revisions, the decoded message
/// unchanged everywhere else (the classical primitives digest internally).
pub open spec fn prepared_message_spec(algorithm: AlgorithmIdentity, msg: Seq<u8>) -> Seq<u8> {
    match algorithm {
        AlgorithmIdentity::MlDsa65Prehashed => crate::lattice::prehashed_message(msg),
        AlgorithmIdentity::Falcon512Prehashed => crate::lattice::prehashed_message(msg),
        _ => msg,
    }
}

/// The uniform preparation step: decodes a fixture triple and applies
/// exactly the pre-processing policy the identity names, so that a caller
/// cannot mix one identity's fixtures with another's policy.
pub fn prepare_input(
    algorithm: AlgorithmIdentity,
    sig_txt: &str,
    pk_txt: &str,
    msg_txt: &str,
) -> (r: Result<crate::types::VerificationInput, VerificationError>)
    ensures
        r is Ok <==> crate::codec::decode_triple_spec(sig_txt@, pk_txt@, msg_txt@) is Some,
        r is Err ==> r == Err::<crate::types::VerificationInput, VerificationError>(
            VerificationError::Decode,
        ),
        r is Ok ==> {
            let triple = crate::codec::decode_triple_spec(sig_txt@, pk_txt@, msg_txt@)->0;
            &&& (r->Ok_0).signature@ == triple.0
            &&& (r->Ok_0).public_key@ == triple.1
            &&& (r->Ok_0).message@ == prepared_message_spec(algorithm, triple.2)
        },
{
    match algorithm {
        AlgorithmIdentity::MlDsa65Prehashed | AlgorithmIdentity::Falcon512Prehashed => {
            crate::lattice::prepare_prehashed(sig_txt, pk_txt, msg_txt)
        },
        AlgorithmIdentity::MlDsa65Raw | AlgorithmIdentity::Falcon512Raw => {
            crate::lattice::prepare_raw(sig_txt, pk_txt, msg_txt)
        },
        AlgorithmIdentity::EcdsaP384 | AlgorithmIdentity::Rsa4096Pss => {
            match crate::codec::decode_triple(sig_txt, pk_txt, msg_txt) {
                Ok((sig, pk, msg)) => Ok(
                    crate::types::VerificationInput {
                        signature: sig,
                        public_key: pk,
                        message: msg,
                    },
                ),
                Err(_) => Err(VerificationError::Decode),
            }
        },
    }
}

/// The outcome of one verification call of a classical-scheme identity.
pub open spec fn classical_verify_spec(
    algorithm: AlgorithmIdentity,
    sig_txt: Seq<char>,
    pk_txt: Seq<char>,
    msg_txt: Seq<char>,
) -> Result<bool, VerificationError>
    recommends
        !algorithm.is_lattice(),
{
    if algorithm == AlgorithmIdentity::EcdsaP384 {
        ecdsa::verify_spec(sig_txt, pk_txt, msg_txt)
    } else {
        rsa::verify_spec(sig_txt, pk_txt, msg_txt)
    }
}

/// The uniform verification contract over the classical-scheme identities:
/// one call of the identity's adapter on the three texts.
pub fn verify_classical(
    algorithm: AlgorithmIdentity,
    base64_sig: &str,
    base64_pk: &str,
    base64_message: &str,
) -> (r: Result<bool, VerificationError>)
    requires
        !algorithm.is_lattice(),
    ensures
        r == classical_verify_spec(algorithm, base64_sig@, base64_pk@, base64_message@),
{
    match algorithm {
        AlgorithmIdentity::EcdsaP384 => ecdsa::verify_signature(
            base64_sig,
            base64_pk,
            base64_message,
        ),
        _ => rsa::verify_signature(base64_sig, base64_pk, base64_message),
    }
}

/// Runs one benchmark batch for a classical-scheme identity: reads the clock,
/// invokes the identity's adapter exactly `iterations` times on the same
/// fixed inputs, checks every outcome, and reads the clock again only after
/// the last iteration. For a lattice identity the primitive is not bound
/// into this library and the batch aborts with `UnboundScheme`; the
/// embedding application drives those batches through `check_iteration` and
/// `make_run` instead.
///
/// The adapters are deterministic over their inputs, so every field of the
/// resulting record except the elapsed time is pinned: a second batch over
/// the same fixtures succeeds or aborts identically.
pub fn run(
    algorithm: AlgorithmIdentity,
    payload_size: PayloadSize,
    fixture_sig: &str,
    fixture_key: &str,
    payload: &str,
    iterations: u32,
) -> (r: Result<BenchmarkRun, HarnessError>)
    ensures
        algorithm.is_lattice() ==> r == Err::<BenchmarkRun, HarnessError>(
            HarnessError::UnboundScheme,
        ),
        !algorithm.is_lattice() ==> {
            let step = iteration_step_spec(
                classical_verify_spec(algorithm, fixture_sig@, fixture_key@, payload@),
            );
            &&& r is Ok <==> (iterations == 0 || step is Ok)
            &&& (iterations > 0 && step is Err) ==> r == Err::<BenchmarkRun, HarnessError>(
                step->Err_0,
            )
            &&& r is Ok ==> (r->Ok_0).algorithm == algorithm
            &&& r is Ok ==> (r->Ok_0).payload_size == payload_size
            &&& r is Ok ==> (r->Ok_0).iterations == iterations
        },
{
    match algorithm {
        AlgorithmIdentity::EcdsaP384 | AlgorithmIdentity::Rsa4096Pss => {
            let start = std::time::Instant::now();
            let mut i: u32 = 0;
            while i < iterations
                invariant
                    i <= iterations,
                    !algorithm.is_lattice(),
                    i > 0 ==> iteration_step_spec(
                        classical_verify_spec(algorithm, fixture_sig@, fixture_key@, payload@),
                    ) is Ok,
                decreases iterations - i,
            {
                let outcome = verify_classical(algorithm, fixture_sig, fixture_key, payload);
                match check_iteration(&outcome) {
                    Ok(_) => {},
                    Err(e) => {
                        return Err(e);
                    },
                }
                i = i + 1;
            }
            let elapsed_ns = start.elapsed().as_nanos();
            Ok(make_run(algorithm, payload_size, iterations, elapsed_ns))
        },
        _ => Err(HarnessError::UnboundScheme),
    }
}

/// The text `pattern` repeated `count` times.
pub open spec fn repeat_text(pattern: Seq<char>, count: nat) -> Seq<char>
    decreases count,
{
    if count == 0 {
        Seq::empty()
    } else {
        repeat_text(pattern, (count - 1) as nat) + pattern
    }
}

/// Builds a payload text by repeating a fixed short pattern, as the medium
/// payload class prescribes.
pub fn build_payload(pattern: &str, count: usize) -> (r: String)
    ensures
        r@ == repeat_text(pattern@, count as nat),
{
    let mut acc = String::new();
    let mut i: usize = 0;
    while i < count
        invariant
            i <= count,
            acc@ == repeat_text(pattern@, i as nat),
        decreases count - i,
    {
        acc.append(pattern);
        i = i + 1;
    }
    acc
}

} // verus!
