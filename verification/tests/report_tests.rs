use pqsig_bench::harness::{make_run, AlgorithmIdentity, BenchmarkRun};
use pqsig_bench::report::{assemble, SystemInfo};
use pqsig_bench::types::PayloadSize;

fn info() -> SystemInfo {
    SystemInfo {
        os: String::from("test-os"),
        total_memory: 16,
        cpu_brand: String::from("test-cpu"),
        cpu_cores: 8,
    }
}

#[test]
fn assemble_keeps_host_metadata() {
    let report = assemble(info(), Vec::new());
    assert_eq!(report.system_info.os, "test-os");
    assert_eq!(report.system_info.total_memory, 16);
    assert_eq!(report.system_info.cpu_brand, "test-cpu");
    assert_eq!(report.system_info.cpu_cores, 8);
    assert_eq!(report.test_results.len(), 0);
}

#[test]
fn assemble_preserves_run_order() {
    // The production invocation order: small payloads for all four
    // algorithms, then medium payloads for all four.
    let order = [
        AlgorithmIdentity::MlDsa65Prehashed,
        AlgorithmIdentity::Falcon512Prehashed,
        AlgorithmIdentity::Rsa4096Pss,
        AlgorithmIdentity::EcdsaP384,
    ];
    let mut runs: Vec<BenchmarkRun> = Vec::new();
    for (i, alg) in order.iter().enumerate() {
        runs.push(make_run(*alg, PayloadSize::Small, i as u32, i as u128));
    }
    for (i, alg) in order.iter().enumerate() {
        runs.push(make_run(*alg, PayloadSize::Medium, 4 + i as u32, 4 + i as u128));
    }

    let report = assemble(info(), runs);
    assert_eq!(report.test_results.len(), 8);
    for i in 0..8 {
        let record = &report.test_results[i];
        assert_eq!(record.algorithm, order[i % 4]);
        assert_eq!(
            record.payload_size,
            if i < 4 { PayloadSize::Small } else { PayloadSize::Medium }
        );
        assert_eq!(record.iterations, i as u32);
        assert_eq!(record.elapsed_ns, i as u128);
    }
}
