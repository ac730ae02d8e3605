//! Benchmarks signature-verification latency across post-quantum and
//! classical digital-signature schemes behind one uniform verification
//! contract, and aggregates the timings into a single report.
//!
//! The codec layer decodes the textual fixtures, one adapter per scheme
//! applies that scheme's key-parsing and message pre-processing policy, the
//! harness drives and times repeated verification calls, and the report
//! assembler collects the measurements next to host metadata.

pub mod clock;
pub mod codec;
pub mod digest;
pub mod ecdsa;
pub mod harness;
pub mod lattice;
pub mod report;
pub mod rsa;
pub mod types;
