use rs_cpu::ui_state::{
    copied_message, export_failed_message, export_file_name, export_saved_message, is_failure_message,
    serialization_failed_message, ExportKind,
};

#[test]
fn export_names_and_messages() {
    assert_eq!(export_file_name(ExportKind::Txt, "20240101-120000"), "m-cpu-relatorio-20240101-120000.txt");
    assert_eq!(export_file_name(ExportKind::Json, "x"), "m-cpu-relatorio-x.json");
    assert_eq!(export_file_name(ExportKind::Csv, "x"), "m-cpu-relatorio-x.csv");
    assert_eq!(export_file_name(ExportKind::Html, "x"), "m-cpu-relatorio-x.html");
    let ok = export_saved_message(ExportKind::Csv, "/tmp/a.csv");
    assert_eq!(ok, "✅ Tabela CSV salva com sucesso em:\n/tmp/a.csv");
    assert!(!is_failure_message(&ok));
    let bad = export_failed_message(ExportKind::Txt, "disk full");
    assert_eq!(bad, "❌ Falha ao salvar relatório: disk full");
    assert!(is_failure_message(&bad));
    let ser = serialization_failed_message("boom");
    assert_eq!(ser, "❌ Erro de serialização: boom");
    assert!(is_failure_message(&ser));
    assert!(!is_failure_message(&copied_message()));
    assert_eq!(export_saved_message(ExportKind::Json, "p"), "✅ Dados JSON salvos com sucesso em:\np");
    assert_eq!(export_failed_message(ExportKind::Html, "e"), "❌ Falha ao salvar HTML: e");
}

use rs_cpu::ui_state::{
    clamp_selection, days_hours_text, minutes_seconds_text, nav_tab, stopwatch_text, uptime_text, AboutTabState,
    ActiveTab, StorageTabState, TAB_COUNT,
};

#[test]
fn navigation_tabs() {
    assert_eq!(TAB_COUNT, 7);
    assert_eq!(nav_tab(0), ActiveTab::Unified);
    assert_eq!(nav_tab(6), ActiveTab::About);
    assert_eq!(nav_tab(1).label(), "🔲 CPU");
    assert_eq!(ActiveTab::Memory.label(), "💾 Memory & SPD");
    assert!(AboutTabState::default().export_message.is_none());
    assert_eq!(StorageTabState::default().selected_drive, 0);
}

#[test]
fn selections_and_clocks() {
    assert_eq!(clamp_selection(2, 3), 2);
    assert_eq!(clamp_selection(3, 3), 0);
    assert_eq!(clamp_selection(0, 0), 0);
    assert_eq!(stopwatch_text(3725, 3600), "01:02:05 / 01:00:00");
    assert_eq!(stopwatch_text(0, 360000), "00:00:00 / 100:00:00");
    assert_eq!(uptime_text(7384), "2h 3m");
    assert_eq!(minutes_seconds_text(125), "2m 5s");
    assert_eq!(days_hours_text(50), "2d 2h");
}
