use rs_cpu::bench::{
    add_round, multi_thread_score, phase_step, progress_permille, reference_cpu, reference_cpus, round_div,
    single_thread_score, stress_toggle, BenchStatus, PhaseStep, StressToggle, CHUNK_ITERATIONS, MULTI_DURATION_MS,
    REFERENCE_COUNT, SINGLE_DURATION_MS,
};

#[test]
fn test_benchmark_references_not_empty() {
    let refs = reference_cpus();
    assert!(!refs.is_empty());
    assert!(refs[0].single_score > 0);
    assert!(refs[0].multi_score > 0);
}

#[test]
fn reference_table() {
    assert_eq!(REFERENCE_COUNT, 8);
    let r = reference_cpu(0);
    assert_eq!((r.name, r.single_score, r.multi_score, r.config), ("Intel Core i9-14900K", 915, 17120, "24C / 32T (8P + 16E)"));
    let r = reference_cpu(7);
    assert_eq!((r.name, r.single_score, r.multi_score), ("Intel Core i7-8700K", 550, 3750));
}

#[test]
fn scores_round_to_nearest() {
    assert_eq!(round_div(7, 2), 4);
    assert_eq!(round_div(5, 3), 2);
    assert_eq!(round_div(4, 3), 1);
    assert_eq!(single_thread_score(12_500 * 720), 720);
    assert_eq!(single_thread_score(6_250), 1);
    assert_eq!(single_thread_score(6_249), 0);
    assert_eq!(multi_thread_score(15_000 * 9000 + 7_499), 9000);
    assert_eq!(multi_thread_score(u64::MAX), 1229782938247303);
}

#[test]
fn timed_phases() {
    assert_eq!(SINGLE_DURATION_MS, 2000);
    assert_eq!(MULTI_DURATION_MS, 2500);
    assert_eq!(phase_step(0, SINGLE_DURATION_MS, false), PhaseStep::RunChunk);
    assert_eq!(phase_step(1999, SINGLE_DURATION_MS, true), PhaseStep::Cancelled);
    assert_eq!(phase_step(2000, SINGLE_DURATION_MS, true), PhaseStep::Done);
    assert_eq!(progress_permille(0, 2000), 0);
    assert_eq!(progress_permille(1000, 2000), 500);
    assert_eq!(progress_permille(1999, 2000), 999);
    assert_eq!(progress_permille(5000, 2000), 1000);
    assert_eq!(progress_permille(u64::MAX - 1, u64::MAX), 999);
    assert_eq!(add_round(0, 1), Some(CHUNK_ITERATIONS));
    assert_eq!(add_round(100, 16), Some(100 + 16 * 25_000));
    assert_eq!(add_round(u64::MAX - 10, 1), None);
    assert_eq!(add_round(0, u64::MAX), None);
}

#[test]
fn stress_button() {
    assert_eq!(stress_toggle(BenchStatus::Idle), StressToggle::Start);
    assert_eq!(stress_toggle(BenchStatus::Completed), StressToggle::Start);
    assert_eq!(stress_toggle(BenchStatus::RunningSingle { progress_permille: 10 }), StressToggle::Start);
    assert_eq!(stress_toggle(BenchStatus::StressTesting { elapsed_secs: 3 }), StressToggle::Stop);
}
