//! The report assembler: host metadata plus the ordered benchmark
//! measurements, built once per execution.

use vstd::prelude::*;
use crate::harness::BenchmarkRun;

verus! {

/// Host metadata, consumed read-only at report-assembly time.
pub struct SystemInfo {
    /// OS description string.
    pub os: String,
    /// Total memory in whole gigabytes, truncating.
    pub total_memory: u64,
    /// Brand string of the first logical CPU.
    pub cpu_brand: String,
    /// Physical core count.
    pub cpu_cores: u64,
}

/// The result of one whole execution: host metadata and every benchmark
/// record, in invocation order.
pub struct PerformanceReport {
    pub system_info: SystemInfo,
    pub test_results: Vec<BenchmarkRun>,
}

/// Pure aggregation: the report holds the given host metadata unchanged and
/// the given runs exactly, in their input order — the report is a
/// time-ordered log of what was measured.
pub fn assemble(system_info: SystemInfo, test_results: Vec<BenchmarkRun>) -> (r: PerformanceReport)
    ensures
        r.system_info == system_info,
        r.test_results@ == test_results@,
{
    PerformanceReport { system_info, test_results }
}

} // verus!
