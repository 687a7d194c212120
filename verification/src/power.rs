//! Power-supply rail telemetry and the power stress test: the readings under
//! load, the decisions of the test loop and the final report.
//!
//! Voltages are held in millivolts, power in tenths of a watt and
//! temperatures in tenths of a degree Celsius.
use vstd::prelude::*;
use crate::text::owned;
use crate::bench::{rounded_quotient, round_div_wide};

verus! {

/// Telemetry snapshot of the supply rails and of the power draw.
#[derive(Debug, Clone)]
pub struct PowerRailTelemetry {
    /// +12V rail, in millivolts.
    pub voltage_12v_mv: u32,
    /// +5V rail, in millivolts.
    pub voltage_5v_mv: u32,
    /// +3.3V rail, in millivolts.
    pub voltage_3v3_mv: u32,
    /// CPU core voltage, in millivolts.
    pub vcore_mv: u32,
    /// Estimated CPU package power, in tenths of a watt.
    pub cpu_power_dw: u32,
    /// Estimated GPU board power, in tenths of a watt.
    pub gpu_power_dw: u32,
    /// Estimated total system power, in tenths of a watt.
    pub total_power_dw: u32,
    /// Supply efficiency rating.
    pub psu_rating: String,
}

/// The rating shown for the supply.
pub open spec fn default_psu_rating() -> Seq<char> {
    "80 PLUS Gold (Eficiência 90%)"@
}

/// The numeric readings of a telemetry snapshot, in field order.
pub open spec fn rail_readings(t: PowerRailTelemetry) -> (u32, u32, u32, u32, u32, u32, u32) {
    (t.voltage_12v_mv, t.voltage_5v_mv, t.voltage_3v3_mv, t.vcore_mv, t.cpu_power_dw, t.gpu_power_dw, t.total_power_dw)
}

impl Default for PowerRailTelemetry {
    /// The idle readings shown before any test.
    fn default() -> (r: PowerRailTelemetry)
        ensures
            rail_readings(r) == (12096u32, 5020u32, 3312u32, 1150u32, 650u32, 240u32, 1250u32),
            r.psu_rating@ == default_psu_rating(),
    {
        PowerRailTelemetry {
            voltage_12v_mv: 12096,
            voltage_5v_mv: 5020,
            voltage_3v3_mv: 3312,
            vcore_mv: 1150,
            cpu_power_dw: 650,
            gpu_power_dw: 240,
            total_power_dw: 1250,
            psu_rating: owned("80 PLUS Gold (Eficiência 90%)"),
        }
    }
}

/// Readings recorded once per second during the stress test.
#[derive(Debug, Clone, Copy, PartialEq, Eq)]
pub struct StressDataPoint {
    /// Seconds since the test started.
    pub elapsed_secs: u64,
    /// CPU load in percent.
    pub cpu_load_pct: u32,
    /// CPU temperature, in tenths of a degree Celsius.
    pub cpu_temp_dd: u32,
    /// +12V rail, in millivolts.
    pub voltage_12v_mv: u32,
    /// +5V rail, in millivolts.
    pub voltage_5v_mv: u32,
    /// +3.3V rail, in millivolts.
    pub voltage_3v3_mv: u32,
    /// Total system power, in tenths of a watt.
    pub total_power_dw: u32,
}

/// Rail readings under full load: (+12V, +5V, +3.3V, Vcore) in millivolts,
/// then (CPU, GPU, total) power in tenths of a watt.
pub open spec fn loaded_readings() -> (u32, u32, u32, u32, u32, u32, u32) {
    (11981u32, 4985u32, 3294u32, 1245u32, 2300u32, 2040u32, 4790u32)
}

/// CPU temperature under full load, in tenths of a degree.
pub const LOADED_CPU_TEMP_DD: u32 = 830;

/// Sets the rails to their readings under full load; the rating is kept.
pub fn apply_full_load(rails: &mut PowerRailTelemetry)
    ensures
        rail_readings(*final(rails)) == loaded_readings(),
        final(rails).psu_rating == old(rails).psu_rating,
{
    rails.voltage_12v_mv = 11981;
    rails.voltage_5v_mv = 4985;
    rails.voltage_3v3_mv = 3294;
    rails.vcore_mv = 1245;
    rails.cpu_power_dw = 2300;
    rails.gpu_power_dw = 2040;
    rails.total_power_dw = 4790;
}

/// The data point recorded `elapsed_secs` seconds into the test.
pub fn loaded_sample(elapsed_secs: u64) -> (p: StressDataPoint)
    ensures
        p.elapsed_secs == elapsed_secs,
        p.cpu_load_pct == 100,
        p.cpu_temp_dd == LOADED_CPU_TEMP_DD,
        p.voltage_12v_mv == loaded_readings().0,
        p.voltage_5v_mv == loaded_readings().1,
        p.voltage_3v3_mv == loaded_readings().2,
        p.total_power_dw == loaded_readings().6,
{
    StressDataPoint {
        elapsed_secs,
        cpu_load_pct: 100,
        cpu_temp_dd: LOADED_CPU_TEMP_DD,
        voltage_12v_mv: 11981,
        voltage_5v_mv: 4985,
        voltage_3v3_mv: 3294,
        total_power_dw: 4790,
    }
}

// ---------------------------------------------------------------------------
// Test loop
// ---------------------------------------------------------------------------

/// State of the power stress test.
#[derive(Debug, Clone, Copy, PartialEq, Eq)]
pub enum PowerTestState {
    /// Ready for a test.
    Idle,
    /// Stressing the CPU and the supply.
    Running {
        /// Seconds elapsed.
        elapsed_secs: u64,
        /// Planned duration in seconds.
        target_secs: u64,
    },
    /// Finished; the report is available.
    Finished,
}

/// Milliseconds between two recorded data points.
pub const SAMPLE_INTERVAL_MS: u64 = 1000;

/// The test keeps running while its planned time has not elapsed and it was
/// not cancelled.
pub open spec fn stress_continues_for(elapsed_secs: u64, target_secs: u64, cancelled: bool) -> bool {
    elapsed_secs < target_secs && !cancelled
}

/// Decides whether the stress test loop runs another workload chunk.
pub fn stress_continues(elapsed_secs: u64, target_secs: u64, cancelled: bool) -> (r: bool)
    ensures
        r == stress_continues_for(elapsed_secs, target_secs, cancelled),
{
    elapsed_secs < target_secs && !cancelled
}

/// Decides whether a data point is recorded after a workload chunk: once a
/// second.
pub fn sample_due(since_sample_ms: u64) -> (r: bool)
    ensures
        r == (since_sample_ms >= SAMPLE_INTERVAL_MS),
{
    since_sample_ms >= SAMPLE_INTERVAL_MS
}

/// The state published while a test runs.
pub fn running_state(elapsed_secs: u64, target_secs: u64) -> (s: PowerTestState)
    ensures
        s == (PowerTestState::Running { elapsed_secs, target_secs }),
{
    PowerTestState::Running { elapsed_secs, target_secs }
}

// ---------------------------------------------------------------------------
// Report
// ---------------------------------------------------------------------------

/// Highest temperature of the history, starting from zero.
pub open spec fn max_temp_of(h: Seq<StressDataPoint>) -> int
    decreases h.len(),
{
    if h.len() == 0 {
        0
    } else {
        let m = max_temp_of(h.drop_last());
        if h.last().cpu_temp_dd > m { h.last().cpu_temp_dd as int } else { m }
    }
}

/// Sum of the temperatures of the history.
pub open spec fn temp_sum_of(h: Seq<StressDataPoint>) -> int
    decreases h.len(),
{
    if h.len() == 0 { 0 } else { temp_sum_of(h.drop_last()) + h.last().cpu_temp_dd }
}

/// Highest power of the history, starting from zero.
pub open spec fn peak_power_of(h: Seq<StressDataPoint>) -> int
    decreases h.len(),
{
    if h.len() == 0 {
        0
    } else {
        let m = peak_power_of(h.drop_last());
        if h.last().total_power_dw > m { h.last().total_power_dw as int } else { m }
    }
}

/// Lowest +12V reading of the history, starting from 15 V.
pub open spec fn min_12v_of(h: Seq<StressDataPoint>) -> int
    decreases h.len(),
{
    if h.len() == 0 {
        15000
    } else {
        let m = min_12v_of(h.drop_last());
        if h.last().voltage_12v_mv < m { h.last().voltage_12v_mv as int } else { m }
    }
}

/// Highest +12V reading of the history, starting from zero.
pub open spec fn max_12v_of(h: Seq<StressDataPoint>) -> int
    decreases h.len(),
{
    if h.len() == 0 {
        0
    } else {
        let m = max_12v_of(h.drop_last());
        if h.last().voltage_12v_mv > m { h.last().voltage_12v_mv as int } else { m }
    }
}

/// The figures of a report: maximum and average temperature, peak power,
/// lowest and highest +12V reading. An empty history gives fixed figures.
pub open spec fn stress_figures(h: Seq<StressDataPoint>) -> (int, int, int, int, int) {
    if h.len() == 0 {
        (780, 720, 3900, 11980, 12100)
    } else {
        (max_temp_of(h), rounded_quotient(temp_sum_of(h), h.len() as int), peak_power_of(h), min_12v_of(h),
            max_12v_of(h))
    }
}

/// The +12V droop in hundredths of a percent (rounded to the nearest, halves
/// up), zero when the highest reading is zero.
pub open spec fn droop_bp(min_mv: int, max_mv: int) -> int {
    if max_mv > 0 { rounded_quotient((max_mv - min_mv) * 10000, max_mv) } else { 0 }
}

/// The exact +12V droop is below `limit_bp` hundredths of a percent (the
/// droop is zero when the highest reading is zero).
pub open spec fn droop_below(min_mv: int, max_mv: int, limit_bp: int) -> bool {
    if max_mv > 0 { (max_mv - min_mv) * 10000 < limit_bp * max_mv } else { 0 < limit_bp }
}

/// The verdict on the supply, from the exact droop between the lowest and
/// highest +12V readings and the highest temperature.
pub open spec fn evaluation_for(min_mv: int, max_mv: int, max_temp_dd: int) -> Seq<char> {
    if droop_below(min_mv, max_mv, 300) && max_temp_dd < 900 {
        "Excelente: Linhas de tensão com altíssima estabilidade e sem oscilações críticas."@
    } else if droop_below(min_mv, max_mv, 500) {
        "Aprovado: Fonte operando dentro dos limites ATX aceitáveis."@
    } else {
        "Atenção: Queda de tensão nas linhas acima da média recomendada sob carga total."@
    }
}

/// The status line of a report.
pub open spec fn status_for(cancelled: bool) -> Seq<char> {
    if cancelled { "Teste Interrompido pelo Usuário"@ } else { "Teste Concluído com Sucesso"@ }
}

/// Final summary of a power stress test.
#[derive(Debug, Clone)]
pub struct PowerTestReport {
    /// Planned duration in seconds.
    pub planned_duration_secs: u64,
    /// Seconds that actually elapsed.
    pub elapsed_secs: u64,
    /// Whether the test completed or was cancelled.
    pub status: String,
    /// Highest CPU temperature, in tenths of a degree.
    pub max_cpu_temp_dd: u32,
    /// Average CPU temperature, in tenths of a degree (rounded to the
    /// nearest, halves up).
    pub avg_cpu_temp_dd: u32,
    /// Peak power, in tenths of a watt.
    pub peak_power_dw: u32,
    /// Lowest +12V reading, in millivolts.
    pub min_12v_mv: u32,
    /// Highest +12V reading, in millivolts.
    pub max_12v_mv: u32,
    /// +12V droop in hundredths of a percent (rounded to the nearest).
    pub droop_12v_bp: u32,
    /// Verdict on the supply.
    pub evaluation: String,
    /// The recorded history.
    pub history: Vec<StressDataPoint>,
}

proof fn lemma_fold_bounds(h: Seq<StressDataPoint>)
    ensures
        0 <= max_temp_of(h) <= u32::MAX,
        0 <= temp_sum_of(h) <= h.len() * max_temp_of(h),
        0 <= peak_power_of(h) <= u32::MAX,
        0 <= min_12v_of(h) <= 15000,
        0 <= max_12v_of(h) <= u32::MAX,
        h.len() > 0 ==> min_12v_of(h) <= max_12v_of(h),
    decreases h.len(),
{
    if h.len() > 0 {
        let p = h.drop_last();
        lemma_fold_bounds(p);
        let n = p.len() as int;
        let mp = max_temp_of(p);
        let m = max_temp_of(h);
        assert(m >= mp);
        assert(n * mp <= n * m) by (nonlinear_arith) requires 0 <= n, mp <= m;
        assert(h.len() * m == n * m + m) by (nonlinear_arith) requires h.len() == n + 1;
    }
}

/// The average of the temperatures is at most the highest one.
proof fn lemma_average_at_most_max(h: Seq<StressDataPoint>)
    requires
        h.len() > 0,
    ensures
        rounded_quotient(temp_sum_of(h), h.len() as int) <= max_temp_of(h),
{
    lemma_fold_bounds(h);
    let s = temp_sum_of(h);
    let n = h.len() as int;
    let m = max_temp_of(h);
    assert((2 * s + n) / (2 * n) <= m) by (nonlinear_arith) requires 0 <= s <= n * m, n > 0;
}

/// Computes the figures of a history: maximum and average temperature, peak
/// power, lowest and highest +12V reading.
fn history_figures(history: &Vec<StressDataPoint>) -> (r: (u32, u32, u32, u32, u32))
    ensures
        (r.0 as int, r.1 as int, r.2 as int, r.3 as int, r.4 as int) == stress_figures(history@),
{
    if history.len() == 0 {
        return (780, 720, 3900, 11980, 12100);
    }
    let mut max_t: u32 = 0;
    let mut sum_t: u128 = 0;
    let mut peak_p: u32 = 0;
    let mut min_v12: u32 = 15000;
    let mut max_v12: u32 = 0;
    let mut i: usize = 0;
    while i < history.len()
        invariant
            i <= history.len(),
            max_t == max_temp_of(history@.subrange(0, i as int)),
            sum_t == temp_sum_of(history@.subrange(0, i as int)),
            peak_p == peak_power_of(history@.subrange(0, i as int)),
            min_v12 == min_12v_of(history@.subrange(0, i as int)),
            max_v12 == max_12v_of(history@.subrange(0, i as int)),
        decreases history.len() - i,
    {
        let pt = history[i];
        let ghost prefix = history@.subrange(0, i as int);
        let ghost next = history@.subrange(0, i as int + 1);
        assert(next.drop_last() == prefix);
        assert(next.last() == pt);
        proof {
            lemma_fold_bounds(prefix);
            assert(i <= usize::MAX);
            assert(prefix.len() * max_temp_of(prefix) <= usize::MAX * u32::MAX) by (nonlinear_arith)
                requires prefix.len() <= usize::MAX, 0 <= max_temp_of(prefix) <= u32::MAX;
        }
        if pt.cpu_temp_dd > max_t {
            max_t = pt.cpu_temp_dd;
        }
        sum_t = sum_t + pt.cpu_temp_dd as u128;
        if pt.total_power_dw > peak_p {
            peak_p = pt.total_power_dw;
        }
        if pt.voltage_12v_mv < min_v12 {
            min_v12 = pt.voltage_12v_mv;
        }
        if pt.voltage_12v_mv > max_v12 {
            max_v12 = pt.voltage_12v_mv;
        }
        i = i + 1;
    }
    assert(history@.subrange(0, history.len() as int) == history@);
    let n = history.len() as u128;
    let avg = round_div_wide(sum_t, n);
    proof {
        lemma_average_at_most_max(history@);
    }
    (max_t, avg as u32, peak_p, min_v12, max_v12)
}

/// Computes the +12V droop in hundredths of a percent.
fn droop_basis_points(min_mv: u32, max_mv: u32) -> (r: u32)
    requires
        min_mv <= max_mv || max_mv == 0,
    ensures
        r == droop_bp(min_mv as int, max_mv as int),
        r <= 10000,
{
    if max_mv > 0 {
        let diff = (max_mv - min_mv) as u128;
        let scaled = diff * 10000;
        let r = round_div_wide(scaled, max_mv as u128);
        assert(r <= 10000) by (nonlinear_arith)
            requires r == (2 * scaled + max_mv) / (2 * (max_mv as int)), scaled == diff * 10000, diff <= max_mv,
                max_mv > 0;
        r as u32
    } else {
        0
    }
}

/// The verdict text.
fn evaluation_text(min_mv: u32, max_mv: u32, max_temp_dd: u32) -> (r: String)
    requires
        min_mv <= max_mv || max_mv == 0,
    ensures
        r@ == evaluation_for(min_mv as int, max_mv as int, max_temp_dd as int),
{
    let (below3, below5) = if max_mv > 0 {
        let scaled = ((max_mv - min_mv) as u64) * 10000;
        (scaled < 300 * (max_mv as u64), scaled < 500 * (max_mv as u64))
    } else {
        (true, true)
    };
    if below3 && max_temp_dd < 900 {
        owned("Excelente: Linhas de tensão com altíssima estabilidade e sem oscilações críticas.")
    } else if below5 {
        owned("Aprovado: Fonte operando dentro dos limites ATX aceitáveis.")
    } else {
        owned("Atenção: Queda de tensão nas linhas acima da média recomendada sob carga total.")
    }
}

/// The report a finished (or cancelled) test gives for its history.
pub fn summarize_stress(history: Vec<StressDataPoint>, planned_secs: u64, elapsed_secs: u64, cancelled: bool) -> (r: PowerTestReport)
    ensures
        r.planned_duration_secs == planned_secs,
        r.elapsed_secs == elapsed_secs,
        r.status@ == status_for(cancelled),
        (r.max_cpu_temp_dd as int, r.avg_cpu_temp_dd as int, r.peak_power_dw as int, r.min_12v_mv as int,
            r.max_12v_mv as int) == stress_figures(history@),
        r.droop_12v_bp == droop_bp(r.min_12v_mv as int, r.max_12v_mv as int),
        r.evaluation@ == evaluation_for(r.min_12v_mv as int, r.max_12v_mv as int, r.max_cpu_temp_dd as int),
        r.history@ == history@,
{
    let (max_t, avg_t, peak, min12, max12) = history_figures(&history);
    proof {
        lemma_fold_bounds(history@);
    }
    let droop = droop_basis_points(min12, max12);
    let evaluation = evaluation_text(min12, max12, max_t);
    let status = if cancelled {
        owned("Teste Interrompido pelo Usuário")
    } else {
        owned("Teste Concluído com Sucesso")
    };
    PowerTestReport {
        planned_duration_secs: planned_secs,
        elapsed_secs,
        status,
        max_cpu_temp_dd: max_t,
        avg_cpu_temp_dd: avg_t,
        peak_power_dw: peak,
        min_12v_mv: min12,
        max_12v_mv: max12,
        droop_12v_bp: droop,
        evaluation,
        history,
    }
}

// ---------------------------------------------------------------------------
// Live panel
// ---------------------------------------------------------------------------

/// A supply rail.
#[derive(Debug, Clone, Copy, PartialEq, Eq)]
pub enum SupplyRail {
    /// +12V.
    V12,
    /// +5V.
    V5,
    /// +3.3V.
    V3v3,
}

/// The ATX tolerance band (±5 %) of a rail, in millivolts.
pub open spec fn atx_band(rail: SupplyRail) -> (int, int) {
    match rail {
        SupplyRail::V12 => (11400, 12600),
        SupplyRail::V5 => (4750, 5250),
        SupplyRail::V3v3 => (3135, 3465),
    }
}

/// The status text of a rail reading.
pub open spec fn rail_status_for(rail: SupplyRail, mv: u32) -> Seq<char> {
    if atx_band(rail).0 <= mv <= atx_band(rail).1 { "Padrão ATX (±5%)"@ } else { "Fora da Faixa"@ }
}

/// Tells whether a rail reading lies in its ATX band, as a status text.
pub fn rail_status(rail: SupplyRail, mv: u32) -> (r: &'static str)
    ensures
        r@ == rail_status_for(rail, mv),
{
    let (lo, hi): (u32, u32) = match rail {
        SupplyRail::V12 => (11400, 12600),
        SupplyRail::V5 => (4750, 5250),
        SupplyRail::V3v3 => (3135, 3465),
    };
    if lo <= mv && mv <= hi { "Padrão ATX (±5%)" } else { "Fora da Faixa" }
}

/// Highest temperature of the history, starting from `start`.
pub open spec fn max_temp_from(h: Seq<StressDataPoint>, start: int) -> int
    decreases h.len(),
{
    if h.len() == 0 {
        start
    } else {
        let m = max_temp_from(h.drop_last(), start);
        if h.last().cpu_temp_dd > m { h.last().cpu_temp_dd as int } else { m }
    }
}

/// Highest power of the history, starting from `start`.
pub open spec fn peak_power_from(h: Seq<StressDataPoint>, start: int) -> int
    decreases h.len(),
{
    if h.len() == 0 {
        start
    } else {
        let m = peak_power_from(h.drop_last(), start);
        if h.last().total_power_dw > m { h.last().total_power_dw as int } else { m }
    }
}

/// The figures shown while a test runs: highest temperature (from 46.0
/// degrees), average temperature (the highest one for an empty history),
/// peak power (from 245.0 W), droop, and the lowest and highest +12V
/// readings shown (12.01 V when the lowest is above 13 V, 12.09 V when the
/// highest is below 11 V).
pub open spec fn running_figures(h: Seq<StressDataPoint>) -> (int, int, int, int, int, int) {
    let max_t = max_temp_from(h, 460);
    let avg_t = if h.len() == 0 { max_t } else { rounded_quotient(temp_sum_of(h), h.len() as int) };
    let lo = min_12v_of(h);
    let hi = max_12v_of(h);
    (max_t, avg_t, peak_power_from(h, 2450), droop_bp(lo, hi), if lo > 13000 { 12010 } else { lo },
        if hi < 11000 { 12090 } else { hi })
}

proof fn lemma_from_bounds(h: Seq<StressDataPoint>)
    ensures
        460 <= max_temp_from(h, 460) <= u32::MAX,
        max_temp_of(h) <= max_temp_from(h, 460),
        2450 <= peak_power_from(h, 2450) <= u32::MAX,
    decreases h.len(),
{
    if h.len() > 0 {
        lemma_from_bounds(h.drop_last());
    }
}

/// Computes the figures shown while a test runs.
pub fn running_panel_figures(history: &Vec<StressDataPoint>) -> (r: (u32, u32, u32, u32, u32, u32))
    ensures
        (r.0 as int, r.1 as int, r.2 as int, r.3 as int, r.4 as int, r.5 as int) == running_figures(history@),
{
    if history.len() == 0 {
        return (460, 460, 2450, 0, 12010, 12090);
    }
    let mut max_t: u32 = 460;
    let mut peak: u32 = 2450;
    let mut i: usize = 0;
    while i < history.len()
        invariant
            i <= history@.len(),
            max_t == max_temp_from(history@.subrange(0, i as int), 460),
            peak == peak_power_from(history@.subrange(0, i as int), 2450),
        decreases history.len() - i,
    {
        let ghost pre = history@.subrange(0, i as int);
        let ghost next = history@.subrange(0, i as int + 1);
        assert(next.drop_last() == pre);
        assert(next.last() == history@[i as int]);
        let pt = history[i];
        if pt.cpu_temp_dd > max_t {
            max_t = pt.cpu_temp_dd;
        }
        if pt.total_power_dw > peak {
            peak = pt.total_power_dw;
        }
        i = i + 1;
    }
    assert(history@.subrange(0, history@.len() as int) == history@);
    let (_max, report_avg, _peak, lo, hi) = history_figures(history);
    proof {
        lemma_fold_bounds(history@);
        lemma_from_bounds(history@);
        if history@.len() > 0 {
            lemma_average_at_most_max(history@);
        }
    }
    let avg = report_avg;
    let droop = droop_basis_points(lo, hi);
    let shown_lo = if lo > 13000 { 12010 } else { lo };
    let shown_hi = if hi < 11000 { 12090 } else { hi };
    (max_t, avg, peak, droop, shown_lo, shown_hi)
}

// ---------------------------------------------------------------------------
// Laws
// ---------------------------------------------------------------------------

/// In every report the lowest +12V reading is at most the highest, the droop
/// is at most 100 % and the average temperature is at most the highest.
pub proof fn lemma_report_figures_ordered(h: Seq<StressDataPoint>)
    ensures
        stress_figures(h).3 <= stress_figures(h).4,
        0 <= droop_bp(stress_figures(h).3, stress_figures(h).4) <= 10000,
        stress_figures(h).1 <= stress_figures(h).0,
{
    lemma_fold_bounds(h);
    if h.len() > 0 {
        lemma_average_at_most_max(h);
    }
    let lo = stress_figures(h).3;
    let hi = stress_figures(h).4;
    if hi > 0 {
        assert(0 <= (2 * ((hi - lo) * 10000) + hi) / (2 * hi) <= 10000) by (nonlinear_arith)
            requires 0 <= lo <= hi, hi > 0;
    }
}

/// A history in which every point carries the same readings reports those
/// readings and no droop.
pub proof fn lemma_steady_history(h: Seq<StressDataPoint>, p: StressDataPoint)
    requires
        h.len() > 0,
        forall|i: int| 0 <= i < h.len() ==> #[trigger] h[i] == p,
        p.voltage_12v_mv <= 15000,
    ensures
        stress_figures(h) == (p.cpu_temp_dd as int, p.cpu_temp_dd as int, p.total_power_dw as int,
            p.voltage_12v_mv as int, p.voltage_12v_mv as int),
        droop_bp(stress_figures(h).3, stress_figures(h).4) == 0,
    decreases h.len(),
{
    steady_folds(h, p);
    let n = h.len() as int;
    let t = p.cpu_temp_dd as int;
    assert((2 * (n * t) + n) / (2 * n) == t) by (nonlinear_arith) requires n > 0;
    let v = p.voltage_12v_mv as int;
    if v > 0 {
        assert((2 * ((v - v) * 10000) + v) / (2 * v) == 0) by (nonlinear_arith) requires v > 0;
    }
}

proof fn steady_folds(h: Seq<StressDataPoint>, p: StressDataPoint)
    requires
        h.len() > 0,
        forall|i: int| 0 <= i < h.len() ==> #[trigger] h[i] == p,
        p.voltage_12v_mv <= 15000,
    ensures
        max_temp_of(h) == p.cpu_temp_dd,
        temp_sum_of(h) == h.len() * p.cpu_temp_dd,
        peak_power_of(h) == p.total_power_dw,
        min_12v_of(h) == p.voltage_12v_mv,
        max_12v_of(h) == p.voltage_12v_mv,
    decreases h.len(),
{
    let q = h.drop_last();
    assert(h.last() == h[h.len() - 1]);
    assert(h.last() == p);
    if q.len() == 0 {
        assert(max_temp_of(q) == 0);
        assert(temp_sum_of(q) == 0);
        assert(peak_power_of(q) == 0);
        assert(min_12v_of(q) == 15000);
        assert(max_12v_of(q) == 0);
        assert(temp_sum_of(h) == p.cpu_temp_dd);
        assert(h.len() * p.cpu_temp_dd == p.cpu_temp_dd) by (nonlinear_arith) requires h.len() == 1;
    } else {
        assert forall|i: int| 0 <= i < q.len() implies #[trigger] q[i] == p by {
            assert(q[i] == h[i]);
        }
        steady_folds(q, p);
        let n = q.len() as int;
        let t = p.cpu_temp_dd as int;
        assert(n * t + t == (n + 1) * t) by (nonlinear_arith);
        assert(temp_sum_of(h) == temp_sum_of(q) + t);
        assert(h.len() == n + 1);
    }
}

/// A rail reading is within the ATX standard exactly when it lies within
/// ±5 % of its nominal voltage: 11.40–12.60 V, 4.75–5.25 V, 3.135–3.465 V.
pub proof fn lemma_rail_bands(mv: u32)
    ensures
        11400 <= mv <= 12600 ==> rail_status_for(SupplyRail::V12, mv) == "Padrão ATX (±5%)"@,
        !(11400 <= mv <= 12600) ==> rail_status_for(SupplyRail::V12, mv) == "Fora da Faixa"@,
        4750 <= mv <= 5250 ==> rail_status_for(SupplyRail::V5, mv) == "Padrão ATX (±5%)"@,
        !(4750 <= mv <= 5250) ==> rail_status_for(SupplyRail::V5, mv) == "Fora da Faixa"@,
        3135 <= mv <= 3465 ==> rail_status_for(SupplyRail::V3v3, mv) == "Padrão ATX (±5%)"@,
        !(3135 <= mv <= 3465) ==> rail_status_for(SupplyRail::V3v3, mv) == "Fora da Faixa"@,
{
}

/// The verdict on the supply: excellent when the +12V droop is below 3 %
/// and the processor stayed below 90.0 °C; approved when the droop is
/// below 5 % otherwise; a warning from 5 % up. The droop is the exact ratio
/// of the spread of the +12V readings to the highest one (zero when the
/// highest is zero).
pub proof fn lemma_supply_verdicts(min_mv: int, max_mv: int, max_temp_dd: int)
    requires
        0 <= min_mv <= max_mv,
    ensures
        ({
            let r = evaluation_for(min_mv, max_mv, max_temp_dd);
            let below3 = max_mv == 0 || (max_mv - min_mv) * 100 < 3 * max_mv;
            let below5 = max_mv == 0 || (max_mv - min_mv) * 100 < 5 * max_mv;
            &&& below3 && max_temp_dd < 900
                ==> r == "Excelente: Linhas de tensão com altíssima estabilidade e sem oscilações críticas."@
            &&& !(below3 && max_temp_dd < 900) && below5
                ==> r == "Aprovado: Fonte operando dentro dos limites ATX aceitáveis."@
            &&& !below5 ==> r == "Atenção: Queda de tensão nas linhas acima da média recomendada sob carga total."@
        }),
{
}

/// The stress test runs on exactly while its planned time has not elapsed
/// and it was not cancelled.
pub proof fn lemma_stress_runs(elapsed_secs: u64, target_secs: u64, cancelled: bool)
    ensures
        stress_continues_for(elapsed_secs, target_secs, cancelled) <==> (elapsed_secs < target_secs && !cancelled),
{
}

} // verus!
