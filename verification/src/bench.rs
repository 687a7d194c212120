//! Processor benchmark: reference scores and the scoring of completed work.
use vstd::prelude::*;

verus! {

/// Reference processor profile for score comparisons.
#[derive(Debug, Clone, Copy)]
pub struct BenchmarkReference {
    /// Processor description.
    pub name: &'static str,
    /// Single-thread reference score.
    pub single_score: u32,
    /// Multi-thread reference score.
    pub multi_score: u32,
    /// Core and thread configuration.
    pub config: &'static str,
}

/// Number of reference processors.
pub const REFERENCE_COUNT: usize = 8;

/// Iterations of the workload per scheduling chunk.
pub const CHUNK_ITERATIONS: u64 = 25000;

/// Iterations per single-thread score point.
pub const SINGLE_ITERATIONS_PER_POINT: u64 = 12500;

/// Iterations per multi-thread score point.
pub const MULTI_ITERATIONS_PER_POINT: u64 = 15000;

/// Reference single- and multi-thread scores, by position.
pub open spec fn reference_scores(i: int) -> (u32, u32) {
    if i == 0 { (915, 17120) }
    else if i == 1 { (785, 15650) }
    else if i == 2 { (890, 14850) }
    else if i == 3 { (715, 7650) }
    else if i == 4 { (840, 10200) }
    else if i == 5 { (755, 5950) }
    else if i == 6 { (620, 4850) }
    else { (550, 3750) }
}

/// Name and core configuration of the reference processor at position `i`.
pub open spec fn reference_texts(i: int) -> (Seq<char>, Seq<char>) {
    if i == 0 { ("Intel Core i9-14900K"@, "24C / 32T (8P + 16E)"@) }
    else if i == 1 { ("AMD Ryzen 9 7950X"@, "16C / 32T"@) }
    else if i == 2 { ("Intel Core i7-14700K"@, "20C / 28T (8P + 12E)"@) }
    else if i == 3 { ("AMD Ryzen 7 7800X3D"@, "8C / 16T (3D V-Cache)"@) }
    else if i == 4 { ("Intel Core i5-14600K"@, "14C / 20T (6P + 8E)"@) }
    else if i == 5 { ("AMD Ryzen 5 7600X"@, "6C / 12T"@) }
    else if i == 6 { ("AMD Ryzen 5 5600X"@, "6C / 12T (Zen 3)"@) }
    else { ("Intel Core i7-8700K"@, "6C / 12T (Coffee Lake)"@) }
}

/// The reference processor at position `i` of the comparison list.
pub fn reference_cpu(i: usize) -> (r: BenchmarkReference)
    requires
        i < REFERENCE_COUNT,
    ensures
        (r.single_score, r.multi_score) == reference_scores(i as int),
        (r.name@, r.config@) == reference_texts(i as int),
        r.single_score > 0,
        r.multi_score > 0,
{
    if i == 0 {
        BenchmarkReference { name: "Intel Core i9-14900K", single_score: 915, multi_score: 17120, config: "24C / 32T (8P + 16E)" }
    } else if i == 1 {
        BenchmarkReference { name: "AMD Ryzen 9 7950X", single_score: 785, multi_score: 15650, config: "16C / 32T" }
    } else if i == 2 {
        BenchmarkReference { name: "Intel Core i7-14700K", single_score: 890, multi_score: 14850, config: "20C / 28T (8P + 12E)" }
    } else if i == 3 {
        BenchmarkReference { name: "AMD Ryzen 7 7800X3D", single_score: 715, multi_score: 7650, config: "8C / 16T (3D V-Cache)" }
    } else if i == 4 {
        BenchmarkReference { name: "Intel Core i5-14600K", single_score: 840, multi_score: 10200, config: "14C / 20T (6P + 8E)" }
    } else if i == 5 {
        BenchmarkReference { name: "AMD Ryzen 5 7600X", single_score: 755, multi_score: 5950, config: "6C / 12T" }
    } else if i == 6 {
        BenchmarkReference { name: "AMD Ryzen 5 5600X", single_score: 620, multi_score: 4850, config: "6C / 12T (Zen 3)" }
    } else {
        BenchmarkReference { name: "Intel Core i7-8700K", single_score: 550, multi_score: 3750, config: "6C / 12T (Coffee Lake)" }
    }
}

/// The comparison list, in order.
pub fn reference_cpus() -> (r: Vec<BenchmarkReference>)
    ensures
        r@.len() == REFERENCE_COUNT,
        forall|i: int| #![trigger r@[i]] 0 <= i < REFERENCE_COUNT ==>
            (r@[i].single_score, r@[i].multi_score) == reference_scores(i) && (r@[i].name@, r@[i].config@) == reference_texts(i),
{
    let mut v: Vec<BenchmarkReference> = Vec::new();
    let mut i: usize = 0;
    while i < REFERENCE_COUNT
        invariant
            i <= REFERENCE_COUNT,
            v@.len() == i,
            forall|j: int| #![trigger v@[j]] 0 <= j < i ==> (v@[j].single_score, v@[j].multi_score) == reference_scores(j)
                && (v@[j].name@, v@[j].config@) == reference_texts(j),
        decreases REFERENCE_COUNT - i,
    {
        v.push(reference_cpu(i));
        i = i + 1;
    }
    v
}

/// `n / d` rounded to the nearest whole number, halves rounded up.
pub open spec fn rounded_quotient(n: int, d: int) -> int {
    (2 * n + d) / (2 * d)
}

/// Divides and rounds to the nearest whole number, halves up.
pub fn round_div(n: u64, d: u64) -> (r: u64)
    requires
        d > 0,
        d <= u64::MAX / 2,
    ensures
        r == rounded_quotient(n as int, d as int),
{
    let q = n / d;
    let rem = n % d;
    let up: u64 = if rem >= d - rem { 1 } else { 0 };
    assert(n == q * d + rem) by (nonlinear_arith)
        requires q == n / d, rem == n % d, d > 0;
    assert(q + up == (2 * n + d) / (2 * d)) by (nonlinear_arith)
        requires
            n == q * d + rem,
            0 <= rem < d,
            up == (if rem >= d - rem { 1int } else { 0int }),
            d > 0,
    {
        let t = 2 * n + d;
        if rem >= d - rem {
            assert(t == (q + 1) * (2 * d) + (2 * rem - d));
            assert(0 <= 2 * rem - d < 2 * d);
        } else {
            assert(t == q * (2 * d) + (2 * rem + d));
            assert(0 <= 2 * rem + d < 2 * d);
        }
    }
    if up == 1 {
        assert(d >= 2);
        assert(q <= n / 2) by (nonlinear_arith) requires q == n / d, d >= 2;
    }
    q + up
}

/// Divides and rounds to the nearest whole number, halves up, in 128 bits.
pub fn round_div_wide(n: u128, d: u128) -> (r: u128)
    requires
        d > 0,
    ensures
        r == rounded_quotient(n as int, d as int),
{
    let q = n / d;
    let rem = n % d;
    let up: u128 = if rem >= d - rem { 1 } else { 0 };
    assert(n == q * d + rem) by (nonlinear_arith)
        requires q == n / d, rem == n % d, d > 0;
    assert(q + up == (2 * n + d) / (2 * d)) by (nonlinear_arith)
        requires
            n == q * d + rem,
            0 <= rem < d,
            up == (if rem >= d - rem { 1int } else { 0int }),
            d > 0,
    {
        let t = 2 * n + d;
        if rem >= d - rem {
            assert(t == (q + 1) * (2 * d) + (2 * rem - d));
            assert(0 <= 2 * rem - d < 2 * d);
        } else {
            assert(t == q * (2 * d) + (2 * rem + d));
            assert(0 <= 2 * rem + d < 2 * d);
        }
    }
    if up == 1 {
        assert(d >= 2);
        assert(q <= n / 2) by (nonlinear_arith) requires q == n / d, d >= 2;
    }
    q + up
}

/// The single-thread score for a number of completed iterations.
pub fn single_thread_score(iterations: u64) -> (r: u64)
    ensures
        r == rounded_quotient(iterations as int, SINGLE_ITERATIONS_PER_POINT as int),
{
    round_div(iterations, SINGLE_ITERATIONS_PER_POINT)
}

/// The multi-thread score for a number of completed iterations.
pub fn multi_thread_score(iterations: u64) -> (r: u64)
    ensures
        r == rounded_quotient(iterations as int, MULTI_ITERATIONS_PER_POINT as int),
{
    round_div(iterations, MULTI_ITERATIONS_PER_POINT)
}

/// More completed work never lowers a score.
pub proof fn lemma_score_monotone(a: u64, b: u64, d: u64)
    requires
        a <= b,
        d > 0,
    ensures
        rounded_quotient(a as int, d as int) <= rounded_quotient(b as int, d as int),
{
    assert((2 * a + d) / (2 * d) <= (2 * b + d) / (2 * d)) by (nonlinear_arith)
        requires a <= b, d > 0;
}

// ---------------------------------------------------------------------------
// Benchmark and stress loops
// ---------------------------------------------------------------------------

/// Duration of the single-thread phase, in milliseconds.
pub const SINGLE_DURATION_MS: u64 = 2000;

/// Duration of the multi-thread phase, in milliseconds.
pub const MULTI_DURATION_MS: u64 = 2500;

/// Iterations of the workload per thread in one round of the stress test.
pub const STRESS_CHUNK_ITERATIONS: u64 = 40000;

/// State of the benchmark engine; progress is given in thousandths.
#[derive(Debug, Clone, Copy, PartialEq, Eq)]
pub enum BenchStatus {
    /// Idle.
    Idle,
    /// Running the single-thread workload.
    RunningSingle {
        /// Progress, 0 to 1000.
        progress_permille: u32,
    },
    /// Running the multi-thread workload.
    RunningMulti {
        /// Progress, 0 to 1000.
        progress_permille: u32,
    },
    /// Stress test running.
    StressTesting {
        /// Seconds since the stress test started.
        elapsed_secs: u64,
    },
    /// Both scores are computed.
    Completed,
}

/// Progress of a timed phase in thousandths, capped at 1000.
pub open spec fn progress_for(elapsed_ms: int, duration_ms: int) -> int {
    if elapsed_ms * 1000 / duration_ms < 1000 { elapsed_ms * 1000 / duration_ms } else { 1000 }
}

/// Computes the progress of a timed phase in thousandths.
pub fn progress_permille(elapsed_ms: u64, duration_ms: u64) -> (r: u32)
    requires
        duration_ms > 0,
    ensures
        r == progress_for(elapsed_ms as int, duration_ms as int),
        r <= 1000,
{
    if elapsed_ms >= duration_ms {
        assert((elapsed_ms as int) * 1000 / (duration_ms as int) >= 1000) by (nonlinear_arith)
            requires elapsed_ms >= duration_ms, duration_ms > 0;
        1000
    } else {
        assert((elapsed_ms as int) * 1000 / (duration_ms as int) < 1000) by (nonlinear_arith)
            requires elapsed_ms < duration_ms, duration_ms > 0;
        let scaled: u128 = (elapsed_ms as u128) * 1000;
        (scaled / (duration_ms as u128)) as u32
    }
}

/// What a timed phase does next.
#[derive(Debug, Clone, Copy, PartialEq, Eq)]
pub enum PhaseStep {
    /// The user cancelled: the engine goes back to idle.
    Cancelled,
    /// Run one more chunk of the workload.
    RunChunk,
    /// The phase's time is up.
    Done,
}

/// The decision of a timed phase: it ends when its time is up; while it
/// lasts, a cancellation stops it before the next chunk.
pub open spec fn phase_step_for(elapsed_ms: u64, duration_ms: u64, cancelled: bool) -> PhaseStep {
    if elapsed_ms >= duration_ms {
        PhaseStep::Done
    } else if cancelled {
        PhaseStep::Cancelled
    } else {
        PhaseStep::RunChunk
    }
}

/// Decides the next step of a timed phase.
pub fn phase_step(elapsed_ms: u64, duration_ms: u64, cancelled: bool) -> (r: PhaseStep)
    ensures
        r == phase_step_for(elapsed_ms, duration_ms, cancelled),
{
    if elapsed_ms >= duration_ms {
        PhaseStep::Done
    } else if cancelled {
        PhaseStep::Cancelled
    } else {
        PhaseStep::RunChunk
    }
}

/// The iteration count after one round in which `threads` threads each ran
/// a chunk; `None` when it would not fit in 64 bits.
pub fn add_round(iterations: u64, threads: u64) -> (r: Option<u64>)
    ensures
        r matches Some(n) ==> n == iterations + threads * CHUNK_ITERATIONS,
        r is None <==> iterations + threads * CHUNK_ITERATIONS > u64::MAX,
{
    match threads.checked_mul(CHUNK_ITERATIONS) {
        Some(work) => iterations.checked_add(work),
        None => {
            assert(threads * CHUNK_ITERATIONS > u64::MAX);
            None
        },
    }
}

/// What a press of the stress button does.
#[derive(Debug, Clone, Copy, PartialEq, Eq)]
pub enum StressToggle {
    /// Signal cancellation and show the engine idle.
    Stop,
    /// Start the stress test.
    Start,
}

/// A press stops a running stress test and starts one otherwise.
pub open spec fn stress_toggle_for(status: BenchStatus) -> StressToggle {
    if status is StressTesting { StressToggle::Stop } else { StressToggle::Start }
}

/// Decides what a press of the stress button does.
pub fn stress_toggle(status: BenchStatus) -> (r: StressToggle)
    ensures
        r == stress_toggle_for(status),
{
    match status {
        BenchStatus::StressTesting { .. } => StressToggle::Stop,
        _ => StressToggle::Start,
    }
}

/// Two presses from a state that is not a stress test first start and then
/// stop one.
pub proof fn lemma_toggle_twice(status: BenchStatus, elapsed_secs: u64)
    requires
        !(status is StressTesting),
    ensures
        stress_toggle_for(status) == StressToggle::Start,
        stress_toggle_for(BenchStatus::StressTesting { elapsed_secs }) == StressToggle::Stop,
{
}

/// Progress never goes back as time passes, and it reaches 1000 exactly when
/// the phase's time is up.
pub proof fn lemma_progress_monotone(a: u64, b: u64, duration_ms: u64)
    requires
        a <= b,
        duration_ms > 0,
    ensures
        progress_for(a as int, duration_ms as int) <= progress_for(b as int, duration_ms as int),
        (progress_for(b as int, duration_ms as int) == 1000) <==> b >= duration_ms,
{
    assert((a as int) * 1000 / (duration_ms as int) <= (b as int) * 1000 / (duration_ms as int)) by (nonlinear_arith)
        requires a <= b, duration_ms > 0;
    assert(((b as int) * 1000 / (duration_ms as int) >= 1000) <==> b >= duration_ms) by (nonlinear_arith)
        requires duration_ms > 0, b >= 0;
}

/// The comparison list holds, in order, the i9-14900K, Ryzen 9 7950X,
/// i7-14700K, Ryzen 7 7800X3D, i5-14600K, Ryzen 5 7600X, Ryzen 5 5600X and
/// i7-8700K, each with its single- and multi-thread reference scores.
pub proof fn lemma_reference_table()
    ensures
        reference_texts(0).0 == "Intel Core i9-14900K"@ && reference_scores(0) == (915u32, 17120u32),
        reference_texts(1).0 == "AMD Ryzen 9 7950X"@ && reference_scores(1) == (785u32, 15650u32),
        reference_texts(2).0 == "Intel Core i7-14700K"@ && reference_scores(2) == (890u32, 14850u32),
        reference_texts(3).0 == "AMD Ryzen 7 7800X3D"@ && reference_scores(3) == (715u32, 7650u32),
        reference_texts(4).0 == "Intel Core i5-14600K"@ && reference_scores(4) == (840u32, 10200u32),
        reference_texts(5).0 == "AMD Ryzen 5 7600X"@ && reference_scores(5) == (755u32, 5950u32),
        reference_texts(6).0 == "AMD Ryzen 5 5600X"@ && reference_scores(6) == (620u32, 4850u32),
        reference_texts(7).0 == "Intel Core i7-8700K"@ && reference_scores(7) == (550u32, 3750u32),
{
}

/// Rounding to the nearest whole number: `q = rounded_quotient(n, d)` is
/// within half a unit of `n / d`, a half going up.
pub proof fn lemma_rounding_is_nearest(n: int, d: int)
    requires
        n >= 0,
        d > 0,
    ensures
        2 * n - d < 2 * rounded_quotient(n, d) * d <= 2 * n + d,
{
    let q = rounded_quotient(n, d);
    assert(2 * n - d < 2 * q * d <= 2 * n + d) by (nonlinear_arith)
        requires q == (2 * n + d) / (2 * d), d > 0, n >= 0;
}

} // verus!
