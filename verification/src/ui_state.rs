//! Navigation and view state of the interface, and the duration texts it
//! shows.
use vstd::prelude::*;
use crate::text::{decimal, push_char, push_decimal};

verus! {

/// Active navigation tab.
#[derive(Debug, Clone, Copy, PartialEq, Eq, Structural)]
pub enum ActiveTab {
    /// Unified dashboard.
    Unified,
    /// Processor details.
    Cpu,
    /// Motherboard details.
    Mainboard,
    /// Memory and SPD details.
    Memory,
    /// Graphics details.
    Graphics,
    /// Benchmark and stress test.
    Bench,
    /// About and report export.
    About,
}

/// Number of navigation tabs.
pub const TAB_COUNT: usize = 7;

/// The tabs in navigation-bar order.
pub open spec fn tab_at(i: int) -> ActiveTab {
    if i == 0 { ActiveTab::Unified }
    else if i == 1 { ActiveTab::Cpu }
    else if i == 2 { ActiveTab::Mainboard }
    else if i == 3 { ActiveTab::Memory }
    else if i == 4 { ActiveTab::Graphics }
    else if i == 5 { ActiveTab::Bench }
    else { ActiveTab::About }
}

/// The button text of a tab.
pub open spec fn tab_label_for(t: ActiveTab) -> Seq<char> {
    match t {
        ActiveTab::Unified => "🖥️ Overview"@,
        ActiveTab::Cpu => "🔲 CPU"@,
        ActiveTab::Mainboard => "🖧 Mainboard"@,
        ActiveTab::Memory => "💾 Memory & SPD"@,
        ActiveTab::Graphics => "🎮 Graphics"@,
        ActiveTab::Bench => "📊 Bench"@,
        ActiveTab::About => "ℹ️ About"@,
    }
}

/// The tab at position `i` of the navigation bar.
pub fn nav_tab(i: usize) -> (r: ActiveTab)
    requires
        i < TAB_COUNT,
    ensures
        r == tab_at(i as int),
{
    if i == 0 { ActiveTab::Unified }
    else if i == 1 { ActiveTab::Cpu }
    else if i == 2 { ActiveTab::Mainboard }
    else if i == 3 { ActiveTab::Memory }
    else if i == 4 { ActiveTab::Graphics }
    else if i == 5 { ActiveTab::Bench }
    else { ActiveTab::About }
}

impl ActiveTab {
    /// The button text of the tab.
    pub fn label(self) -> (r: &'static str)
        ensures
            r@ == tab_label_for(self),
    {
        match self {
            ActiveTab::Unified => "🖥️ Overview",
            ActiveTab::Cpu => "🔲 CPU",
            ActiveTab::Mainboard => "🖧 Mainboard",
            ActiveTab::Memory => "💾 Memory & SPD",
            ActiveTab::Graphics => "🎮 Graphics",
            ActiveTab::Bench => "📊 Bench",
            ActiveTab::About => "ℹ️ About",
        }
    }
}

/// Every tab stands once in the navigation bar.
pub proof fn lemma_every_tab_listed(t: ActiveTab)
    ensures
        exists|i: int| 0 <= i < TAB_COUNT && #[trigger] tab_at(i) == t,
{
    match t {
        ActiveTab::Unified => assert(tab_at(0) == t),
        ActiveTab::Cpu => assert(tab_at(1) == t),
        ActiveTab::Mainboard => assert(tab_at(2) == t),
        ActiveTab::Memory => assert(tab_at(3) == t),
        ActiveTab::Graphics => assert(tab_at(4) == t),
        ActiveTab::Bench => assert(tab_at(5) == t),
        ActiveTab::About => assert(tab_at(6) == t),
    }
}

/// State of the About / export view.
#[derive(Debug, Clone)]
pub struct AboutTabState {
    /// Feedback message after exporting a report.
    pub export_message: Option<String>,
}

impl Default for AboutTabState {
    /// No message yet.
    fn default() -> (r: AboutTabState)
        ensures
            r.export_message is None,
    {
        AboutTabState { export_message: None }
    }
}

/// A feedback message reports a failure when it starts with `❌`.
pub open spec fn is_failure_message_for(msg: Seq<char>) -> bool {
    msg.len() > 0 && msg[0] == '❌'
}

/// Tells whether a feedback message reports a failure.
pub fn is_failure_message(msg: &str) -> (r: bool)
    ensures
        r == is_failure_message_for(msg@),
{
    if msg.unicode_len() == 0 {
        false
    } else {
        msg.get_char(0) == '❌'
    }
}

/// Formats a report can be saved in.
#[derive(Debug, Clone, Copy, PartialEq, Eq)]
pub enum ExportKind {
    /// Plain text.
    Txt,
    /// JSON data.
    Json,
    /// CSV table.
    Csv,
    /// HTML page.
    Html,
}

/// The file extension of a format.
pub open spec fn export_extension_for(k: ExportKind) -> Seq<char> {
    match k {
        ExportKind::Txt => "txt"@,
        ExportKind::Json => "json"@,
        ExportKind::Csv => "csv"@,
        ExportKind::Html => "html"@,
    }
}

/// The file name of an export made at `stamp` (`YYYYmmdd-HHMMSS`).
pub open spec fn export_file_name_for(k: ExportKind, stamp: Seq<char>) -> Seq<char> {
    "m-cpu-relatorio-"@ + stamp + "."@ + export_extension_for(k)
}

fn export_extension(k: ExportKind) -> (r: &'static str)
    ensures
        r@ == export_extension_for(k),
{
    match k {
        ExportKind::Txt => "txt",
        ExportKind::Json => "json",
        ExportKind::Csv => "csv",
        ExportKind::Html => "html",
    }
}

/// Names the file of an export made at `stamp`.
pub fn export_file_name(k: ExportKind, stamp: &str) -> (r: String)
    ensures
        r@ == export_file_name_for(k, stamp@),
{
    let mut r = String::new();
    r.append("m-cpu-relatorio-");
    r.append(stamp);
    r.append(".");
    r.append(export_extension(k));
    assert(r@ =~= export_file_name_for(k, stamp@));
    r
}

/// The message after a report was saved at `path`.
pub open spec fn export_saved_message_for(k: ExportKind, path: Seq<char>) -> Seq<char> {
    (match k {
        ExportKind::Txt => "✅ Relatório TXT salvo com sucesso em:\n"@,
        ExportKind::Json => "✅ Dados JSON salvos com sucesso em:\n"@,
        ExportKind::Csv => "✅ Tabela CSV salva com sucesso em:\n"@,
        ExportKind::Html => "✅ Relatório HTML salvo com sucesso em:\n"@,
    }) + path
}

/// The message after saving a report failed with `error`.
pub open spec fn export_failed_message_for(k: ExportKind, error: Seq<char>) -> Seq<char> {
    (match k {
        ExportKind::Txt => "❌ Falha ao salvar relatório: "@,
        ExportKind::Json => "❌ Falha ao salvar JSON: "@,
        ExportKind::Csv => "❌ Falha ao salvar CSV: "@,
        ExportKind::Html => "❌ Falha ao salvar HTML: "@,
    }) + error
}

/// The message after the data could not be turned into JSON.
pub open spec fn serialization_failed_message_for(error: Seq<char>) -> Seq<char> {
    "❌ Erro de serialização: "@ + error
}

/// The message shown once the report text was copied.
pub open spec fn copied_message_for() -> Seq<char> {
    "✅ Relatório completo copiado para a Área de Transferência!"@
}

/// Words the message after a report was saved at `path`.
pub fn export_saved_message(k: ExportKind, path: &str) -> (r: String)
    ensures
        r@ == export_saved_message_for(k, path@),
{
    let mut r = String::new();
    match k {
        ExportKind::Txt => r.append("✅ Relatório TXT salvo com sucesso em:\n"),
        ExportKind::Json => r.append("✅ Dados JSON salvos com sucesso em:\n"),
        ExportKind::Csv => r.append("✅ Tabela CSV salva com sucesso em:\n"),
        ExportKind::Html => r.append("✅ Relatório HTML salvo com sucesso em:\n"),
    }
    r.append(path);
    r
}

/// Words the message after saving a report failed with `error`.
pub fn export_failed_message(k: ExportKind, error: &str) -> (r: String)
    ensures
        r@ == export_failed_message_for(k, error@),
{
    let mut r = String::new();
    match k {
        ExportKind::Txt => r.append("❌ Falha ao salvar relatório: "),
        ExportKind::Json => r.append("❌ Falha ao salvar JSON: "),
        ExportKind::Csv => r.append("❌ Falha ao salvar CSV: "),
        ExportKind::Html => r.append("❌ Falha ao salvar HTML: "),
    }
    r.append(error);
    r
}

/// Words the message after the data could not be turned into JSON.
pub fn serialization_failed_message(error: &str) -> (r: String)
    ensures
        r@ == serialization_failed_message_for(error@),
{
    let mut r = String::new();
    r.append("❌ Erro de serialização: ");
    r.append(error);
    r
}

/// The message shown once the report text was copied.
pub fn copied_message() -> (r: String)
    ensures
        r@ == copied_message_for(),
{
    crate::text::owned("✅ Relatório completo copiado para a Área de Transferência!")
}

/// Every failure message is recognised as one, and no success message is.
pub proof fn lemma_export_messages_classified(k: ExportKind, path: Seq<char>, error: Seq<char>)
    ensures
        is_failure_message_for(export_failed_message_for(k, error)),
        is_failure_message_for(serialization_failed_message_for(error)),
        !is_failure_message_for(export_saved_message_for(k, path)),
        !is_failure_message_for(copied_message_for()),
{
    reveal_strlit("❌ Falha ao salvar relatório: ");
    reveal_strlit("❌ Falha ao salvar JSON: ");
    reveal_strlit("❌ Falha ao salvar CSV: ");
    reveal_strlit("❌ Falha ao salvar HTML: ");
    reveal_strlit("❌ Erro de serialização: ");
    reveal_strlit("✅ Relatório TXT salvo com sucesso em:\n");
    reveal_strlit("✅ Dados JSON salvos com sucesso em:\n");
    reveal_strlit("✅ Tabela CSV salva com sucesso em:\n");
    reveal_strlit("✅ Relatório HTML salvo com sucesso em:\n");
    reveal_strlit("✅ Relatório completo copiado para a Área de Transferência!");
    let f = export_failed_message_for(k, error);
    let s = export_saved_message_for(k, path);
    match k {
        ExportKind::Txt => {
            assert(f[0] == "❌ Falha ao salvar relatório: "@[0]);
            assert(s[0] == "✅ Relatório TXT salvo com sucesso em:\n"@[0]);
        },
        ExportKind::Json => {
            assert(f[0] == "❌ Falha ao salvar JSON: "@[0]);
            assert(s[0] == "✅ Dados JSON salvos com sucesso em:\n"@[0]);
        },
        ExportKind::Csv => {
            assert(f[0] == "❌ Falha ao salvar CSV: "@[0]);
            assert(s[0] == "✅ Tabela CSV salva com sucesso em:\n"@[0]);
        },
        ExportKind::Html => {
            assert(f[0] == "❌ Falha ao salvar HTML: "@[0]);
            assert(s[0] == "✅ Relatório HTML salvo com sucesso em:\n"@[0]);
        },
    }
    assert(serialization_failed_message_for(error)[0] == "❌ Erro de serialização: "@[0]);
}

/// State of the storage view.
#[derive(Debug, Clone)]
pub struct StorageTabState {
    /// Selected drive index.
    pub selected_drive: usize,
}

impl Default for StorageTabState {
    /// The first drive is selected.
    fn default() -> (r: StorageTabState)
        ensures
            r.selected_drive == 0,
    {
        StorageTabState { selected_drive: 0 }
    }
}

/// A selection index that points past the list falls back to the first
/// entry.
pub open spec fn clamped_selection(selected: usize, count: usize) -> usize {
    if selected >= count { 0 } else { selected }
}

/// Resets a selection index that points past the list to the first entry.
pub fn clamp_selection(selected: usize, count: usize) -> (r: usize)
    ensures
        r == clamped_selection(selected, count),
        count > 0 ==> r < count,
{
    if selected >= count { 0 } else { selected }
}

// ---------------------------------------------------------------------------
// Duration texts
// ---------------------------------------------------------------------------

/// `format!("{n:02}")`: the decimal digits of `n`, with a leading zero when
/// there is only one.
pub open spec fn two_digits(n: nat) -> Seq<char> {
    if n < 10 { seq!['0'] + decimal(n) } else { decimal(n) }
}

/// `HH:MM:SS` for a number of seconds (hours not bounded).
pub open spec fn clock_text_for(secs: u64) -> Seq<char> {
    two_digits((secs / 3600) as nat) + seq![':'] + two_digits(((secs % 3600) / 60) as nat) + seq![':']
        + two_digits((secs % 60) as nat)
}

fn push_two_digits(s: &mut String, n: u64)
    ensures
        final(s)@ == old(s)@ + two_digits(n as nat),
{
    if n < 10 {
        push_char(s, '0');
    }
    push_decimal(s, n);
    assert(final(s)@ =~= old(s)@ + two_digits(n as nat));
}

fn push_clock(s: &mut String, secs: u64)
    ensures
        final(s)@ == old(s)@ + clock_text_for(secs),
{
    push_two_digits(s, secs / 3600);
    push_char(s, ':');
    push_two_digits(s, (secs % 3600) / 60);
    push_char(s, ':');
    push_two_digits(s, secs % 60);
    assert(final(s)@ =~= old(s)@ + clock_text_for(secs));
}

/// Elapsed and planned time of a running test, `HH:MM:SS / HH:MM:SS`.
pub open spec fn stopwatch_text_for(elapsed: u64, target: u64) -> Seq<char> {
    clock_text_for(elapsed) + " / "@ + clock_text_for(target)
}

/// Formats the elapsed and planned time of a running test.
pub fn stopwatch_text(elapsed: u64, target: u64) -> (r: String)
    ensures
        r@ == stopwatch_text_for(elapsed, target),
{
    let mut s = String::new();
    push_clock(&mut s, elapsed);
    s.append(" / ");
    push_clock(&mut s, target);
    assert(s@ =~= stopwatch_text_for(elapsed, target));
    s
}

/// Uptime as whole hours and remaining minutes, `{h}h {m}m`.
pub open spec fn uptime_text_for(secs: u64) -> Seq<char> {
    decimal((secs / 3600) as nat) + "h "@ + decimal(((secs % 3600) / 60) as nat) + seq!['m']
}

/// Formats an uptime.
pub fn uptime_text(secs: u64) -> (r: String)
    ensures
        r@ == uptime_text_for(secs),
{
    let mut s = String::new();
    push_decimal(&mut s, secs / 3600);
    s.append("h ");
    push_decimal(&mut s, (secs % 3600) / 60);
    push_char(&mut s, 'm');
    assert(s@ =~= uptime_text_for(secs));
    s
}

/// A duration as whole minutes and remaining seconds, `{m}m {s}s`.
pub open spec fn minutes_seconds_text_for(secs: u64) -> Seq<char> {
    decimal((secs / 60) as nat) + "m "@ + decimal((secs % 60) as nat) + seq!['s']
}

/// Formats a duration in minutes and seconds.
pub fn minutes_seconds_text(secs: u64) -> (r: String)
    ensures
        r@ == minutes_seconds_text_for(secs),
{
    let mut s = String::new();
    push_decimal(&mut s, secs / 60);
    s.append("m ");
    push_decimal(&mut s, secs % 60);
    push_char(&mut s, 's');
    assert(s@ =~= minutes_seconds_text_for(secs));
    s
}

/// A number of hours as whole days and remaining hours, `{d}d {h}h`.
pub open spec fn days_hours_text_for(hours: u64) -> Seq<char> {
    decimal((hours / 24) as nat) + "d "@ + decimal((hours % 24) as nat) + seq!['h']
}

/// Formats a number of hours in days and hours.
pub fn days_hours_text(hours: u64) -> (r: String)
    ensures
        r@ == days_hours_text_for(hours),
{
    let mut s = String::new();
    push_decimal(&mut s, hours / 24);
    s.append("d ");
    push_decimal(&mut s, hours % 24);
    push_char(&mut s, 'h');
    assert(s@ =~= days_hours_text_for(hours));
    s
}

/// `HH:MM:SS` splits a number of seconds into hours, minutes below 60 and
/// seconds below 60: for any such split of `secs`, the clock text shows its
/// three parts, each with at least two digits.
pub proof fn lemma_clock_parts(secs: u64, h: nat, m: nat, s: nat)
    requires
        h * 3600 + m * 60 + s == secs,
        m < 60,
        s < 60,
    ensures
        clock_text_for(secs) == two_digits(h) + ":"@ + two_digits(m) + ":"@ + two_digits(s),
{
    reveal_strlit(":");
    let ms = m * 60 + s;
    assert(0 <= ms < 3600);
    vstd::arithmetic::div_mod::lemma_fundamental_div_mod_converse(secs as int, 3600, h as int, ms as int);
    vstd::arithmetic::div_mod::lemma_fundamental_div_mod_converse(ms as int, 60, m as int, s as int);
    vstd::arithmetic::div_mod::lemma_mod_mod(secs as int, 3600, 60);
    assert(secs % 60 == s) by {
        vstd::arithmetic::div_mod::lemma_fundamental_div_mod_converse(secs as int, 60, (h * 60 + m) as int, s as int);
    }
    assert(seq![':'] =~= ":"@);
}

/// The uptime text shows the whole hours and the remaining minutes (below
/// 60) of any split of the seconds into hours, minutes and seconds.
pub proof fn lemma_uptime_parts(secs: u64, h: nat, m: nat, s: nat)
    requires
        h * 3600 + m * 60 + s == secs,
        m < 60,
        s < 60,
    ensures
        uptime_text_for(secs) == decimal(h) + "h "@ + decimal(m) + "m"@,
{
    reveal_strlit("m");
    let ms = m * 60 + s;
    vstd::arithmetic::div_mod::lemma_fundamental_div_mod_converse(secs as int, 3600, h as int, ms as int);
    vstd::arithmetic::div_mod::lemma_fundamental_div_mod_converse(ms as int, 60, m as int, s as int);
    assert(seq!['m'] =~= "m"@);
}

/// The minutes-and-seconds text shows `m` and `s` for `secs == 60 m + s`
/// with `s` below 60; the days-and-hours text shows `d` and `h` for
/// `hours == 24 d + h` with `h` below 24.
pub proof fn lemma_duration_parts(secs: u64, m: nat, s: nat, hours: u64, d: nat, h: nat)
    requires
        m * 60 + s == secs,
        s < 60,
        d * 24 + h == hours,
        h < 24,
    ensures
        minutes_seconds_text_for(secs) == decimal(m) + "m "@ + decimal(s) + "s"@,
        days_hours_text_for(hours) == decimal(d) + "d "@ + decimal(h) + "h"@,
{
    reveal_strlit("s");
    reveal_strlit("h");
    vstd::arithmetic::div_mod::lemma_fundamental_div_mod_converse(secs as int, 60, m as int, s as int);
    vstd::arithmetic::div_mod::lemma_fundamental_div_mod_converse(hours as int, 24, d as int, h as int);
    assert(seq!['s'] =~= "s"@);
    assert(seq!['h'] =~= "h"@);
}

/// A selection that points inside the list is kept; one past its end falls
/// back to the first entry.
pub proof fn lemma_selection_clamped(selected: usize, count: usize)
    ensures
        selected < count ==> clamped_selection(selected, count) == selected,
        selected >= count ==> clamped_selection(selected, count) == 0,
{
}

/// The export file of a format is `m-cpu-relatorio-<stamp>.<ext>` with the
/// extension `txt`, `json`, `csv` or `html`.
pub proof fn lemma_export_names(stamp: Seq<char>)
    ensures
        export_file_name_for(ExportKind::Txt, stamp) == "m-cpu-relatorio-"@ + stamp + ".txt"@,
        export_file_name_for(ExportKind::Json, stamp) == "m-cpu-relatorio-"@ + stamp + ".json"@,
        export_file_name_for(ExportKind::Csv, stamp) == "m-cpu-relatorio-"@ + stamp + ".csv"@,
        export_file_name_for(ExportKind::Html, stamp) == "m-cpu-relatorio-"@ + stamp + ".html"@,
{
    reveal_strlit(".");
    reveal_strlit("txt");
    reveal_strlit(".txt");
    reveal_strlit("json");
    reveal_strlit(".json");
    reveal_strlit("csv");
    reveal_strlit(".csv");
    reveal_strlit("html");
    reveal_strlit(".html");
    let p = "m-cpu-relatorio-"@ + stamp;
    assert(p + "."@ + "txt"@ =~= p + ".txt"@);
    assert(p + "."@ + "json"@ =~= p + ".json"@);
    assert(p + "."@ + "csv"@ =~= p + ".csv"@);
    assert(p + "."@ + "html"@ =~= p + ".html"@);
}

/// The navigation bar lists Overview, CPU, Mainboard, Memory & SPD,
/// Graphics, Bench and About, in this order.
pub proof fn lemma_tab_order()
    ensures
        tab_at(0) == ActiveTab::Unified,
        tab_at(1) == ActiveTab::Cpu,
        tab_at(2) == ActiveTab::Mainboard,
        tab_at(3) == ActiveTab::Memory,
        tab_at(4) == ActiveTab::Graphics,
        tab_at(5) == ActiveTab::Bench,
        tab_at(6) == ActiveTab::About,
        tab_label_for(ActiveTab::Unified) == "🖥️ Overview"@,
        tab_label_for(ActiveTab::Cpu) == "🔲 CPU"@,
        tab_label_for(ActiveTab::Mainboard) == "🖧 Mainboard"@,
        tab_label_for(ActiveTab::Memory) == "💾 Memory & SPD"@,
        tab_label_for(ActiveTab::Graphics) == "🎮 Graphics"@,
        tab_label_for(ActiveTab::Bench) == "📊 Bench"@,
        tab_label_for(ActiveTab::About) == "ℹ️ About"@,
{
}

} // verus!
