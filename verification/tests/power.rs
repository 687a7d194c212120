use rs_cpu::power::{
    apply_full_load, loaded_sample, running_state, sample_due, stress_continues, summarize_stress,
    PowerRailTelemetry, PowerTestState, StressDataPoint, LOADED_CPU_TEMP_DD,
};

fn point(temp: u32, v12: u32, power: u32) -> StressDataPoint {
    StressDataPoint {
        elapsed_secs: 1,
        cpu_load_pct: 100,
        cpu_temp_dd: temp,
        voltage_12v_mv: v12,
        voltage_5v_mv: 5000,
        voltage_3v3_mv: 3300,
        total_power_dw: power,
    }
}

#[test]
fn idle_and_loaded_rails() {
    let mut r = PowerRailTelemetry::default();
    assert_eq!((r.voltage_12v_mv, r.voltage_5v_mv, r.voltage_3v3_mv, r.vcore_mv), (12096, 5020, 3312, 1150));
    assert_eq!((r.cpu_power_dw, r.gpu_power_dw, r.total_power_dw), (650, 240, 1250));
    assert_eq!(r.psu_rating, "80 PLUS Gold (Eficiência 90%)");
    apply_full_load(&mut r);
    assert_eq!((r.voltage_12v_mv, r.voltage_5v_mv, r.voltage_3v3_mv, r.vcore_mv), (11981, 4985, 3294, 1245));
    assert_eq!((r.cpu_power_dw, r.gpu_power_dw, r.total_power_dw), (2300, 2040, 4790));
    assert_eq!(r.psu_rating, "80 PLUS Gold (Eficiência 90%)");
    let p = loaded_sample(7);
    assert_eq!((p.elapsed_secs, p.cpu_load_pct, p.cpu_temp_dd, p.voltage_12v_mv, p.total_power_dw), (7, 100, 830, 11981, 4790));
    assert_eq!(LOADED_CPU_TEMP_DD, 830);
}

#[test]
fn loop_decisions() {
    assert!(stress_continues(0, 10, false));
    assert!(stress_continues(9, 10, false));
    assert!(!stress_continues(3, 10, true));
    assert!(!stress_continues(10, 10, false));
    assert!(!sample_due(999));
    assert!(sample_due(1000));
    assert_eq!(running_state(4, 3600), PowerTestState::Running { elapsed_secs: 4, target_secs: 3600 });
}

#[test]
fn report_of_steady_load_is_excellent() {
    let history: Vec<StressDataPoint> = (0..5).map(loaded_sample).collect();
    let r = summarize_stress(history, 3600, 5, false);
    assert_eq!(r.status, "Teste Concluído com Sucesso");
    assert_eq!((r.max_cpu_temp_dd, r.avg_cpu_temp_dd, r.peak_power_dw), (830, 830, 4790));
    assert_eq!((r.min_12v_mv, r.max_12v_mv, r.droop_12v_bp), (11981, 11981, 0));
    assert!(r.evaluation.starts_with("Excelente"));
    assert_eq!(r.history.len(), 5);
    assert_eq!((r.planned_duration_secs, r.elapsed_secs), (3600, 5));
}

#[test]
fn report_of_empty_history_uses_fixed_figures() {
    let r = summarize_stress(Vec::new(), 60, 0, true);
    assert_eq!(r.status, "Teste Interrompido pelo Usuário");
    assert_eq!((r.max_cpu_temp_dd, r.avg_cpu_temp_dd, r.peak_power_dw), (780, 720, 3900));
    assert_eq!((r.min_12v_mv, r.max_12v_mv), (11980, 12100));
    // (12.10 - 11.98) / 12.10 = 0.99 %
    assert_eq!(r.droop_12v_bp, 99);
    assert!(r.evaluation.starts_with("Excelente"));
}

#[test]
fn report_verdicts_follow_droop_and_heat() {
    // 4 % droop: approved
    let r = summarize_stress(vec![point(700, 12000, 1000), point(720, 11520, 2000)], 10, 2, false);
    assert_eq!((r.min_12v_mv, r.max_12v_mv, r.droop_12v_bp), (11520, 12000, 400));
    assert_eq!((r.max_cpu_temp_dd, r.avg_cpu_temp_dd, r.peak_power_dw), (720, 710, 2000));
    assert!(r.evaluation.starts_with("Aprovado"));
    // 6 % droop: attention
    let r = summarize_stress(vec![point(700, 12000, 1000), point(700, 11280, 1000)], 10, 2, false);
    assert_eq!(r.droop_12v_bp, 600);
    assert!(r.evaluation.starts_with("Atenção"));
    // little droop but too hot: approved, not excellent
    let r = summarize_stress(vec![point(950, 12000, 1000), point(800, 12000, 1000)], 10, 2, false);
    assert_eq!((r.max_cpu_temp_dd, r.avg_cpu_temp_dd), (950, 875));
    assert!(r.evaluation.starts_with("Aprovado"));
    // readings above 15 V: the lowest reading starts from 15 V
    let r = summarize_stress(vec![point(500, 16000, 1000)], 10, 1, false);
    assert_eq!((r.min_12v_mv, r.max_12v_mv), (15000, 16000));
    assert_eq!(r.droop_12v_bp, 625);
}

use rs_cpu::power::{rail_status, running_panel_figures, SupplyRail};

#[test]
fn rail_bands() {
    assert_eq!(rail_status(SupplyRail::V12, 12096), "Padrão ATX (±5%)");
    assert_eq!(rail_status(SupplyRail::V12, 11400), "Padrão ATX (±5%)");
    assert_eq!(rail_status(SupplyRail::V12, 11399), "Fora da Faixa");
    assert_eq!(rail_status(SupplyRail::V5, 5251), "Fora da Faixa");
    assert_eq!(rail_status(SupplyRail::V3v3, 3135), "Padrão ATX (±5%)");
    assert_eq!(rail_status(SupplyRail::V3v3, 3466), "Fora da Faixa");
}

#[test]
fn running_panel() {
    assert_eq!(running_panel_figures(&Vec::new()), (460, 460, 2450, 0, 12010, 12090));
    let h = vec![point(400, 12100, 2000), point(500, 11980, 3000)];
    // highest 50.0 °C, average 45.0 °C, peak 300.0 W, droop 0.99 %
    assert_eq!(running_panel_figures(&h), (500, 450, 3000, 99, 11980, 12100));
    let cool = vec![point(300, 10000, 100)];
    assert_eq!(running_panel_figures(&cool), (460, 300, 2450, 0, 10000, 12090));
}

#[test]
fn report_figures_round_to_nearest() {
    // 72.0 and 72.1 °C average 72.05 °C, shown as 72.1 °C
    let r = summarize_stress(vec![point(720, 12000, 1000), point(721, 12000, 1000)], 10, 2, false);
    assert_eq!(r.avg_cpu_temp_dd, 721);
    // (12.003 - 11.643) / 12.003 = 2.99925 %: shown as 3.00 %, still excellent
    let r = summarize_stress(vec![point(700, 12003, 1000), point(700, 11643, 1000)], 10, 2, false);
    assert_eq!(r.droop_12v_bp, 300);
    assert!(r.evaluation.starts_with("Excelente"));
    // exactly 3 %: approved
    let r = summarize_stress(vec![point(700, 12000, 1000), point(700, 11640, 1000)], 10, 2, false);
    assert_eq!(r.droop_12v_bp, 300);
    assert!(r.evaluation.starts_with("Aprovado"));
    // 2.666 %: rounded up to 2.67 %
    let r = summarize_stress(vec![point(700, 12000, 1000), point(700, 11680, 1000)], 10, 2, false);
    assert_eq!(r.droop_12v_bp, 267);
    let panel = running_panel_figures(&vec![point(720, 12000, 1000), point(721, 12000, 1000)]);
    assert_eq!(panel.1, 721);
}
