//! Diagnostic reports of the whole machine: CSV, plain text and HTML.
use vstd::prelude::*;
use crate::cpu::{live_metrics_from, CpuInfo, CpuReadings};
use crate::gpu::{live_refreshed, GpuInfo};
use crate::memory::{live_usage_for, MemoryInfo};
use crate::motherboard::MotherboardInfo;
use crate::storage::{PhysicalDriveInfo, StorageInfo};
use crate::text::{decimal, hex_upper, push_decimal, push_hex_upper, push_unsigned_tenths, tenths_text};

verus! {

/// Everything known of the machine.
pub struct SystemHardware {
    /// Processor.
    pub cpu: CpuInfo,
    /// Motherboard and firmware.
    pub motherboard: MotherboardInfo,
    /// Memory.
    pub memory: MemoryInfo,
    /// Storage.
    pub storage: StorageInfo,
    /// Graphics adapters.
    pub gpus: Vec<GpuInfo>,
    /// Operating system name.
    pub os_name: String,
    /// Operating system version.
    pub os_version: String,
    /// Seconds since boot.
    pub uptime_secs: u64,
}

/// The operating system name shown when the system does not report one.
pub open spec fn os_name_or_default(name: Option<String>) -> Seq<char> {
    match name {
        Some(n) => n@,
        None => "Windows / Linux"@,
    }
}

/// The operating system version shown when the system does not report one.
pub open spec fn os_version_or_default(version: Option<String>) -> Seq<char> {
    match version {
        Some(v) => v@,
        None => "10 / 11"@,
    }
}

impl SystemHardware {
    /// Puts the machine description together; a missing operating system
    /// name or version is replaced by a generic one.
    pub fn assemble(
        cpu: CpuInfo,
        motherboard: MotherboardInfo,
        memory: MemoryInfo,
        storage: StorageInfo,
        gpus: Vec<GpuInfo>,
        os_name: Option<String>,
        os_version: Option<String>,
        uptime_secs: u64,
    ) -> (r: SystemHardware)
        ensures
            r.cpu == cpu,
            r.motherboard == motherboard,
            r.memory == memory,
            r.storage == storage,
            r.gpus == gpus,
            r.os_name@ == os_name_or_default(os_name),
            r.os_version@ == os_version_or_default(os_version),
            r.uptime_secs == uptime_secs,
    {
        let name = match os_name {
            Some(n) => n,
            None => crate::text::owned("Windows / Linux"),
        };
        let version = match os_version {
            Some(v) => v,
            None => crate::text::owned("10 / 11"),
        };
        SystemHardware { cpu, motherboard, memory, storage, gpus, os_name: name, os_version: version, uptime_secs }
    }

    /// Refreshes every live reading: processor clocks, load and thermals,
    /// memory usage, each adapter's temperature and fan, and the uptime.
    pub fn refresh_live_metrics(
        &mut self,
        cpu: &CpuReadings,
        mem_total: u64,
        mem_used: u64,
        mem_available: u64,
        swap_total: u64,
        swap_used: u64,
        uptime_secs: u64,
    )
        ensures
            cpu.core_frequencies_mhz@.len() == 0 ==> final(self).cpu == old(self).cpu,
            cpu.core_frequencies_mhz@.len() > 0 ==> {
                &&& final(self).cpu == (CpuInfo { live: final(self).cpu.live, ..old(self).cpu })
                &&& live_metrics_from(final(self).cpu.live, *cpu)
            },
            final(self).memory == (MemoryInfo {
                live: live_usage_for(mem_total, mem_used, mem_available, swap_total, swap_used),
                ..old(self).memory
            }),
            final(self).gpus@.len() == old(self).gpus@.len(),
            forall|i: int| 0 <= i < old(self).gpus@.len() ==> live_refreshed(#[trigger] final(self).gpus@[i], old(self).gpus@[i]),
            final(self).uptime_secs == uptime_secs,
            final(self).motherboard == old(self).motherboard,
            final(self).storage == old(self).storage,
            final(self).os_name == old(self).os_name,
            final(self).os_version == old(self).os_version,
    {
        self.cpu.update_live_metrics(cpu);
        self.memory.update_live_metrics(mem_total, mem_used, mem_available, swap_total, swap_used);
        let mut pending: Vec<GpuInfo> = Vec::new();
        core::mem::swap(&mut pending, &mut self.gpus);
        let ghost before = pending@;
        let count = pending.len();
        let mut done: Vec<GpuInfo> = Vec::new();
        let mut i: usize = 0;
        while pending.len() > 0
            invariant
                i + pending@.len() == before.len(),
                before.len() == count,
                pending@ == before.subrange(i as int, before.len() as int),
                done@.len() == i,
                forall|k: int| 0 <= k < i ==> live_refreshed(#[trigger] done@[k], before[k]),
            decreases pending@.len(),
        {
            let mut g = pending.remove(0);
            assert(g == before[i as int]);
            g.update_live_metrics();
            done.push(g);
            assert(pending@ =~= before.subrange(i as int + 1, before.len() as int));
            i = i + 1;
        }
        self.gpus = done;
        self.uptime_secs = uptime_secs;
    }
}

// ---------------------------------------------------------------------------
// Number formatting
// ---------------------------------------------------------------------------

/// `n / d` rounded to the nearest whole number, a tie going to the even one.
pub open spec fn round_half_even(n: int, d: int) -> int {
    let q = n / d;
    let r = n % d;
    if 2 * r > d || (2 * r == d && q % 2 == 1) { q + 1 } else { q }
}

/// Computes `round_half_even(n * 10, d)`: the tenths of `n / d`.
fn rounded_tenths_of(n: u64, d: u64) -> (r: u64)
    requires
        d >= 16,
    ensures
        r == round_half_even(n * 10, d as int),
{
    let m: u128 = (n as u128) * 10;
    let dd: u128 = d as u128;
    let q: u128 = m / dd;
    let rem: u128 = m % dd;
    assert(q * 16 <= m) by (nonlinear_arith) requires q == m / dd, dd >= 16, m >= 0;
    if 2 * rem > dd || (2 * rem == dd && q % 2 == 1) {
        assert(n > 0) by {
            if n == 0 {
                assert(m == 0);
                assert(rem == 0) by (nonlinear_arith) requires m == 0, rem == m % dd, dd > 0;
            }
        }
        assert(q + 1 <= n);
        (q + 1) as u64
    } else {
        assert(q <= n);
        q as u64
    }
}

/// The texts of a list of strings joined by single spaces.
pub open spec fn joined_spaced(v: Seq<Seq<char>>) -> Seq<char>
    decreases v.len(),
{
    if v.len() == 0 {
        seq![]
    } else if v.len() == 1 {
        v[0]
    } else {
        joined_spaced(v.drop_last()) + " "@ + v.last()
    }
}

fn push_joined_spaced(s: &mut String, v: &Vec<String>)
    ensures
        final(s)@ == old(s)@ + joined_spaced(crate::text::string_views(v@)),
{
    let ghost start = s@;
    let mut i: usize = 0;
    while i < v.len()
        invariant
            i <= v@.len(),
            s@ == start + joined_spaced(crate::text::string_views(v@.subrange(0, i as int))),
        decreases v.len() - i,
    {
        let ghost pre = crate::text::string_views(v@.subrange(0, i as int));
        let ghost next = crate::text::string_views(v@.subrange(0, i as int + 1));
        assert(next.drop_last() =~= pre);
        assert(next.last() == v@[i as int]@);
        if i > 0 {
            s.append(" ");
        }
        s.append(v[i].as_str());
        assert(s@ =~= start + joined_spaced(next));
        i = i + 1;
    }
    assert(v@.subrange(0, v@.len() as int) == v@);
}

// ---------------------------------------------------------------------------
// CSV report
// ---------------------------------------------------------------------------

/// One CSV line: category, property and the value in double quotes.
pub open spec fn csv_row(category: Seq<char>, property: Seq<char>, value: Seq<char>) -> Seq<char> {
    category + ","@ + property + ",\""@ + value + "\"\n"@
}

fn push_csv_row(s: &mut String, category: &str, property: &str, value: &str)
    ensures
        final(s)@ == old(s)@ + csv_row(category@, property@, value@),
{
    s.append(category);
    s.append(",");
    s.append(property);
    s.append(",\"");
    s.append(value);
    s.append("\"\n");
    assert(final(s)@ =~= old(s)@ + csv_row(category@, property@, value@));
}

/// The CSV lines of the system, processor, motherboard and memory.
pub open spec fn csv_summary(hw: SystemHardware) -> Seq<char> {
    "Categoria,Propriedade,Valor\n"@
        + csv_row("Sistema"@, "Sistema Operacional"@, hw.os_name@)
        + csv_row("Sistema"@, "Versao do SO"@, hw.os_version@)
        + csv_row("Processador"@, "Nome"@, hw.cpu.name@)
        + csv_row("Processador"@, "Fabricante"@, hw.cpu.vendor@)
        + csv_row("Processador"@, "Codinome"@, hw.cpu.code_name@)
        + csv_row("Processador"@, "Soquete"@, hw.cpu.package_socket@)
        + csv_row("Processador"@, "Litografia"@, hw.cpu.technology@)
        + csv_row("Processador"@, "Nucleos Fisicos"@, decimal(hw.cpu.physical_cores as nat))
        + csv_row("Processador"@, "Threads Logicas"@, decimal(hw.cpu.logical_threads as nat))
        + csv_row("Placa-Mae"@, "Fabricante"@, hw.motherboard.manufacturer@)
        + csv_row("Placa-Mae"@, "Modelo"@, hw.motherboard.model@)
        + csv_row("Placa-Mae"@, "Chipset"@, hw.motherboard.chipset@)
        + csv_row("Placa-Mae"@, "BIOS Versao"@, hw.motherboard.bios_version@)
        + csv_row("Memoria"@, "Total MB"@, decimal(hw.memory.total_mb as nat))
        + csv_row("Memoria"@, "Tipo"@, hw.memory.memory_type@)
        + csv_row("Memoria"@, "Canais"@, hw.memory.channel_mode@)
        + csv_row("Memoria"@, "Frequencia DRAM"@, tenths_text(hw.memory.dram_speed_mts * 5) + " MHz"@)
}

/// The three CSV lines of adapter number `idx`.
pub open spec fn csv_gpu_lines(idx: nat, g: GpuInfo) -> Seq<char> {
    csv_row("GPU"@, "GPU #"@ + decimal(idx) + " Nome"@, g.name@)
        + csv_row("GPU"@, "GPU #"@ + decimal(idx) + " VRAM"@, decimal(g.vram_mb as nat))
        + csv_row("GPU"@, "GPU #"@ + decimal(idx) + " Driver"@, g.driver_version@)
}

/// The CSV lines of all adapters, numbered from 0.
pub open spec fn csv_gpus(v: Seq<GpuInfo>) -> Seq<char>
    decreases v.len(),
{
    if v.len() == 0 { seq![] } else { csv_gpus(v.drop_last()) + csv_gpu_lines((v.len() - 1) as nat, v.last()) }
}

/// A drive's capacity in GiB with one decimal (rounded to the nearest
/// tenth, a tie going to the even one).
pub open spec fn gib_text(bytes: u64) -> Seq<char> {
    tenths_text(round_half_even(bytes * 10, 1073741824))
}

/// The three CSV lines of drive number `idx`.
pub open spec fn csv_drive_lines(idx: nat, d: PhysicalDriveInfo) -> Seq<char> {
    csv_row("Armazenamento"@, "Drive #"@ + decimal(idx) + " Modelo"@, d.model@)
        + csv_row("Armazenamento"@, "Drive #"@ + decimal(idx) + " Capacidade"@, gib_text(d.capacity_bytes) + " GB"@)
        + csv_row("Armazenamento"@, "Drive #"@ + decimal(idx) + " Interface"@, d.interface@)
}

/// The CSV lines of all drives, numbered from 0.
pub open spec fn csv_drives(v: Seq<PhysicalDriveInfo>) -> Seq<char>
    decreases v.len(),
{
    if v.len() == 0 { seq![] } else { csv_drives(v.drop_last()) + csv_drive_lines((v.len() - 1) as nat, v.last()) }
}

/// The whole CSV report.
pub open spec fn csv_report_for(hw: SystemHardware) -> Seq<char> {
    csv_summary(hw) + csv_gpus(hw.gpus@) + csv_drives(hw.storage.drives@)
}

fn numbered(prefix: &str, idx: usize, suffix: &str) -> (r: String)
    ensures
        r@ == prefix@ + decimal(idx as nat) + suffix@,
{
    let mut r = String::new();
    r.append(prefix);
    push_decimal(&mut r, idx as u64);
    r.append(suffix);
    assert(r@ =~= prefix@ + decimal(idx as nat) + suffix@);
    r
}

fn push_csv_summary(s: &mut String, hw: &SystemHardware)
    ensures
        final(s)@ == old(s)@ + csv_summary(*hw),
{
    s.append("Categoria,Propriedade,Valor\n");
    push_csv_row(s, "Sistema", "Sistema Operacional", hw.os_name.as_str());
    push_csv_row(s, "Sistema", "Versao do SO", hw.os_version.as_str());
    push_csv_row(s, "Processador", "Nome", hw.cpu.name.as_str());
    push_csv_row(s, "Processador", "Fabricante", hw.cpu.vendor.as_str());
    push_csv_row(s, "Processador", "Codinome", hw.cpu.code_name.as_str());
    push_csv_row(s, "Processador", "Soquete", hw.cpu.package_socket.as_str());
    push_csv_row(s, "Processador", "Litografia", hw.cpu.technology.as_str());
    let cores = crate::text::decimal_string(hw.cpu.physical_cores as u64);
    push_csv_row(s, "Processador", "Nucleos Fisicos", cores.as_str());
    let threads = crate::text::decimal_string(hw.cpu.logical_threads as u64);
    push_csv_row(s, "Processador", "Threads Logicas", threads.as_str());
    push_csv_row(s, "Placa-Mae", "Fabricante", hw.motherboard.manufacturer.as_str());
    push_csv_row(s, "Placa-Mae", "Modelo", hw.motherboard.model.as_str());
    push_csv_row(s, "Placa-Mae", "Chipset", hw.motherboard.chipset.as_str());
    push_csv_row(s, "Placa-Mae", "BIOS Versao", hw.motherboard.bios_version.as_str());
    let total = crate::text::decimal_string(hw.memory.total_mb);
    push_csv_row(s, "Memoria", "Total MB", total.as_str());
    push_csv_row(s, "Memoria", "Tipo", hw.memory.memory_type.as_str());
    push_csv_row(s, "Memoria", "Canais", hw.memory.channel_mode.as_str());
    let mut freq = String::new();
    push_unsigned_tenths(&mut freq, (hw.memory.dram_speed_mts as u64) * 5);
    freq.append(" MHz");
    push_csv_row(s, "Memoria", "Frequencia DRAM", freq.as_str());
    assert(final(s)@ =~= old(s)@ + csv_summary(*hw));
}

fn push_csv_gpus(s: &mut String, v: &Vec<GpuInfo>)
    ensures
        final(s)@ == old(s)@ + csv_gpus(v@),
{
    let ghost start = s@;
    let mut i: usize = 0;
    while i < v.len()
        invariant
            i <= v@.len(),
            s@ == start + csv_gpus(v@.subrange(0, i as int)),
        decreases v.len() - i,
    {
        let ghost next = v@.subrange(0, i as int + 1);
        assert(next.drop_last() =~= v@.subrange(0, i as int));
        assert(next.last() == v@[i as int]);
        let g = &v[i];
        let p1 = numbered("GPU #", i, " Nome");
        push_csv_row(s, "GPU", p1.as_str(), g.name.as_str());
        let p2 = numbered("GPU #", i, " VRAM");
        let vram = crate::text::decimal_string(g.vram_mb);
        push_csv_row(s, "GPU", p2.as_str(), vram.as_str());
        let p3 = numbered("GPU #", i, " Driver");
        push_csv_row(s, "GPU", p3.as_str(), g.driver_version.as_str());
        assert(s@ =~= start + csv_gpus(next));
        i = i + 1;
    }
    assert(v@.subrange(0, v@.len() as int) == v@);
}

fn push_csv_drives(s: &mut String, v: &Vec<PhysicalDriveInfo>)
    ensures
        final(s)@ == old(s)@ + csv_drives(v@),
{
    let ghost start = s@;
    let mut i: usize = 0;
    while i < v.len()
        invariant
            i <= v@.len(),
            s@ == start + csv_drives(v@.subrange(0, i as int)),
        decreases v.len() - i,
    {
        let ghost next = v@.subrange(0, i as int + 1);
        assert(next.drop_last() =~= v@.subrange(0, i as int));
        assert(next.last() == v@[i as int]);
        let d = &v[i];
        let p1 = numbered("Drive #", i, " Modelo");
        push_csv_row(s, "Armazenamento", p1.as_str(), d.model.as_str());
        let p2 = numbered("Drive #", i, " Capacidade");
        let mut cap = String::new();
        push_unsigned_tenths(&mut cap, rounded_tenths_of(d.capacity_bytes, 1073741824));
        cap.append(" GB");
        push_csv_row(s, "Armazenamento", p2.as_str(), cap.as_str());
        let p3 = numbered("Drive #", i, " Interface");
        push_csv_row(s, "Armazenamento", p3.as_str(), d.interface.as_str());
        assert(s@ =~= start + csv_drives(next));
        i = i + 1;
    }
    assert(v@.subrange(0, v@.len() as int) == v@);
}

/// The CSV report of all system specifications.
pub fn generate_csv_report(hardware: &SystemHardware) -> (r: String)
    ensures
        r@ == csv_report_for(*hardware),
{
    let mut out = String::new();
    push_csv_summary(&mut out, hardware);
    push_csv_gpus(&mut out, &hardware.gpus);
    push_csv_drives(&mut out, &hardware.storage.drives);
    assert(out@ =~= csv_report_for(*hardware));
    out
}

// ---------------------------------------------------------------------------
// Plain text report
// ---------------------------------------------------------------------------

/// The text report's title block with its generation date.
pub open spec fn text_head(date: Seq<char>) -> Seq<char> {
    "--------------------------------------------------\n"@
        + " RS-CPU RELATORIO DE DIAGNOSTICO DE HARDWARE\n"@
        + " Gerado em: "@ + date + "\n"@
        + "--------------------------------------------------\n\n"@
}

/// The text report's processor section.
pub open spec fn text_cpu(c: CpuInfo) -> Seq<char> {
    "[PROCESSADOR]\n"@
        + "  Nome:             "@ + c.name@ + "\n"@
        + "  Fabricante:       "@ + c.vendor@ + "\n"@
        + "  Codinome:         "@ + c.code_name@ + "\n"@
        + "  Soquete/Pacote:   "@ + c.package_socket@ + "\n"@
        + "  Litografia:       "@ + c.technology@ + "\n"@
        + "  Familia/Mod/Stp:  "@ + hex_upper(c.family as nat) + " / "@ + hex_upper(c.model as nat) + " / "@
            + decimal(c.stepping as nat) + "\n"@
        + "  Nucleos / Threads:"@ + decimal(c.physical_cores as nat) + " Nucleos, "@
            + decimal(c.logical_threads as nat) + " Threads\n"@
        + "  Instrucoes:       "@ + joined_spaced(crate::text::string_views(c.instructions@)) + "\n\n"@
}

/// The text report's motherboard section.
pub open spec fn text_board(m: MotherboardInfo) -> Seq<char> {
    "[PLACA-MAE]\n"@
        + "  Fabricante:       "@ + m.manufacturer@ + "\n"@
        + "  Modelo:           "@ + m.model@ + "\n"@
        + "  Versao:           "@ + m.version@ + "\n"@
        + "  Chipset:          "@ + m.chipset@ + "\n"@
        + "  BIOS Fabricante:  "@ + m.bios_vendor@ + "\n"@
        + "  BIOS Versao:      "@ + m.bios_version@ + "\n"@
        + "  BIOS Data:        "@ + m.bios_date@ + "\n\n"@
}

/// The text report's memory section.
pub open spec fn text_memory(m: MemoryInfo) -> Seq<char> {
    "[MEMORIA RAM]\n"@
        + "  Capacidade Total: "@ + decimal(m.total_mb as nat) + " MB ("@ + decimal((m.total_mb / 1024) as nat)
            + " GB)\n"@
        + "  Tipo:             "@ + m.memory_type@ + "\n"@
        + "  Canais:           "@ + m.channel_mode@ + "\n"@
        + "  Frequencia DRAM:  "@ + tenths_text(m.dram_speed_mts * 5) + " MHz\n"@
        + "  Timings:          CL"@ + decimal(m.cl as nat) + "-"@ + decimal(m.trcd as nat) + "-"@
            + decimal(m.trp as nat) + "-"@ + decimal(m.tras as nat) + "\n\n"@
}

/// The text lines of adapter number `idx`.
pub open spec fn text_gpu_lines(idx: nat, g: GpuInfo) -> Seq<char> {
    "  GPU #"@ + decimal(idx) + ":          "@ + g.name@ + "\n"@
        + "  VRAM:             "@ + decimal(g.vram_mb as nat) + " MB ("@ + g.memory_type@ + ")\n"@
        + "  Driver:           "@ + g.driver_version@ + "\n"@
}

/// The text lines of all adapters, numbered from 0.
pub open spec fn text_gpus(v: Seq<GpuInfo>) -> Seq<char>
    decreases v.len(),
{
    if v.len() == 0 { seq![] } else { text_gpus(v.drop_last()) + text_gpu_lines((v.len() - 1) as nat, v.last()) }
}

/// The whole text report.
pub open spec fn text_report_for(hw: SystemHardware, date: Seq<char>) -> Seq<char> {
    text_head(date) + text_cpu(hw.cpu) + text_board(hw.motherboard) + text_memory(hw.memory) + "[GRAFICOS]\n"@
        + text_gpus(hw.gpus@)
}

#[verifier::rlimit(60)]
fn push_text_cpu(s: &mut String, c: &CpuInfo)
    ensures
        final(s)@ == old(s)@ + text_cpu(*c),
{
    s.append("[PROCESSADOR]\n");
    s.append("  Nome:             ");
    s.append(c.name.as_str());
    s.append("\n");
    s.append("  Fabricante:       ");
    s.append(c.vendor.as_str());
    s.append("\n");
    s.append("  Codinome:         ");
    s.append(c.code_name.as_str());
    s.append("\n");
    s.append("  Soquete/Pacote:   ");
    s.append(c.package_socket.as_str());
    s.append("\n");
    s.append("  Litografia:       ");
    s.append(c.technology.as_str());
    s.append("\n");
    s.append("  Familia/Mod/Stp:  ");
    push_hex_upper(s, c.family as u64);
    s.append(" / ");
    push_hex_upper(s, c.model as u64);
    s.append(" / ");
    push_decimal(s, c.stepping as u64);
    s.append("\n");
    s.append("  Nucleos / Threads:");
    push_decimal(s, c.physical_cores as u64);
    s.append(" Nucleos, ");
    push_decimal(s, c.logical_threads as u64);
    s.append(" Threads\n");
    s.append("  Instrucoes:       ");
    push_joined_spaced(s, &c.instructions);
    s.append("\n\n");
    assert(final(s)@ =~= old(s)@ + text_cpu(*c));
}

fn push_text_board(s: &mut String, m: &MotherboardInfo)
    ensures
        final(s)@ == old(s)@ + text_board(*m),
{
    s.append("[PLACA-MAE]\n");
    s.append("  Fabricante:       ");
    s.append(m.manufacturer.as_str());
    s.append("\n");
    s.append("  Modelo:           ");
    s.append(m.model.as_str());
    s.append("\n");
    s.append("  Versao:           ");
    s.append(m.version.as_str());
    s.append("\n");
    s.append("  Chipset:          ");
    s.append(m.chipset.as_str());
    s.append("\n");
    s.append("  BIOS Fabricante:  ");
    s.append(m.bios_vendor.as_str());
    s.append("\n");
    s.append("  BIOS Versao:      ");
    s.append(m.bios_version.as_str());
    s.append("\n");
    s.append("  BIOS Data:        ");
    s.append(m.bios_date.as_str());
    s.append("\n\n");
    assert(final(s)@ =~= old(s)@ + text_board(*m));
}

#[verifier::rlimit(60)]
fn push_text_memory(s: &mut String, m: &MemoryInfo)
    ensures
        final(s)@ == old(s)@ + text_memory(*m),
{
    s.append("[MEMORIA RAM]\n");
    s.append("  Capacidade Total: ");
    push_decimal(s, m.total_mb);
    s.append(" MB (");
    push_decimal(s, m.total_mb / 1024);
    s.append(" GB)\n");
    s.append("  Tipo:             ");
    s.append(m.memory_type.as_str());
    s.append("\n");
    s.append("  Canais:           ");
    s.append(m.channel_mode.as_str());
    s.append("\n");
    s.append("  Frequencia DRAM:  ");
    push_unsigned_tenths(s, (m.dram_speed_mts as u64) * 5);
    s.append(" MHz\n");
    s.append("  Timings:          CL");
    push_decimal(s, m.cl as u64);
    s.append("-");
    push_decimal(s, m.trcd as u64);
    s.append("-");
    push_decimal(s, m.trp as u64);
    s.append("-");
    push_decimal(s, m.tras as u64);
    s.append("\n\n");
    assert(final(s)@ =~= old(s)@ + text_memory(*m));
}

fn push_text_gpus(s: &mut String, v: &Vec<GpuInfo>)
    ensures
        final(s)@ == old(s)@ + text_gpus(v@),
{
    let ghost start = s@;
    let mut i: usize = 0;
    while i < v.len()
        invariant
            i <= v@.len(),
            s@ == start + text_gpus(v@.subrange(0, i as int)),
        decreases v.len() - i,
    {
        let ghost next = v@.subrange(0, i as int + 1);
        assert(next.drop_last() =~= v@.subrange(0, i as int));
        assert(next.last() == v@[i as int]);
        let g = &v[i];
        s.append("  GPU #");
        push_decimal(s, i as u64);
        s.append(":          ");
        s.append(g.name.as_str());
        s.append("\n");
        s.append("  VRAM:             ");
        push_decimal(s, g.vram_mb);
        s.append(" MB (");
        s.append(g.memory_type.as_str());
        s.append(")\n");
        s.append("  Driver:           ");
        s.append(g.driver_version.as_str());
        s.append("\n");
        assert(s@ =~= start + text_gpus(next));
        i = i + 1;
    }
    assert(v@.subrange(0, v@.len() as int) == v@);
}

/// The plain text report, headed by the given generation date.
pub fn text_report_dated(hardware: &SystemHardware, date: &str) -> (r: String)
    ensures
        r@ == text_report_for(*hardware, date@),
{
    let mut out = String::new();
    out.append("--------------------------------------------------\n");
    out.append(" RS-CPU RELATORIO DE DIAGNOSTICO DE HARDWARE\n");
    out.append(" Gerado em: ");
    out.append(date);
    out.append("\n");
    out.append("--------------------------------------------------\n\n");
    assert(out@ =~= text_head(date@));
    push_text_cpu(&mut out, &hardware.cpu);
    push_text_board(&mut out, &hardware.motherboard);
    push_text_memory(&mut out, &hardware.memory);
    out.append("[GRAFICOS]\n");
    push_text_gpus(&mut out, &hardware.gpus);
    assert(out@ =~= text_report_for(*hardware, date@));
    out
}

// ---------------------------------------------------------------------------
// HTML report
// ---------------------------------------------------------------------------

/// The HTML report's page head, with the generation date and the system.
pub open spec fn html_head(hw: SystemHardware, date: Seq<char>) -> Seq<char> {
    "<!DOCTYPE html>\n<html lang=\"pt-BR\">\n<head>\n<meta charset=\"UTF-8\">\n<title>RS-CPU Relatório de Diagnóstico - "@ + hw.cpu.name@ + "</title>\n<style>\nbody { font-family: 'Segoe UI', system-ui, -apple-system, sans-serif; background: #0f1117; color: #f3f4f6; margin: 0; padding: 24px; }\n.container { max-width: 900px; margin: 0 auto; }\nh1 { color: #00d2ff; margin-bottom: 4px; }\n.subtitle { color: #9ca3af; font-size: 14px; margin-bottom: 24px; }\n.card { background: #181b24; border: 1px solid #2d3444; border-radius: 8px; padding: 18px; margin-bottom: 16px; }\nh2 { color: #10b981; font-size: 16px; margin-top: 0; border-bottom: 1px solid #2d3444; padding-bottom: 8px; }\ntable { width: 100%; border-collapse: collapse; }\ntd { padding: 8px 4px; font-size: 14px; }\ntd.label { color: #9ca3af; width: 35%; }\ntd.value { color: #f3f4f6; font-weight: 600; text-align: right; }\ntr:nth-child(even) td { background: rgba(255,255,255,0.02); }\n</style>\n</head>\n<body>\n<div class=\"container\">\n<h1>⚡ RS-CPU Diagnóstico de Hardware</h1>\n<div class=\"subtitle\">Gerado em: "@ + date + " • Sistema: "@ + hw.os_name@ + " ("@ + hw.os_version@ + ")</div>\n\n<div class=\"card\">\n<h2>🔲 Processador (CPU)</h2>\n<table>\n<tr><td class=\"label\">Modelo:</td><td class=\"value\">"@
}

/// The HTML report's processor card.
pub open spec fn html_cpu(c: CpuInfo) -> Seq<char> {
    c.name@ + "</td></tr>\n<tr><td class=\"label\">Fabricante:</td><td class=\"value\">"@ + c.vendor@ + "</td></tr>\n<tr><td class=\"label\">Codinome:</td><td class=\"value\">"@ + c.code_name@ + "</td></tr>\n<tr><td class=\"label\">Soquete:</td><td class=\"value\">"@ + c.package_socket@ + "</td></tr>\n<tr><td class=\"label\">Litografia:</td><td class=\"value\">"@ + c.technology@
        + "</td></tr>\n<tr><td class=\"label\">Núcleos / Threads:</td><td class=\"value\">"@ + decimal(c.physical_cores as nat) + " Núcleos, "@ + decimal(c.logical_threads as nat) + " Threads</td></tr>\n</table>\n</div>\n\n<div class=\"card\">\n<h2>🖧 Placa-Mãe & BIOS</h2>\n<table>\n<tr><td class=\"label\">Fabricante:</td><td class=\"value\">"@
}

/// The HTML report's motherboard card.
pub open spec fn html_board(m: MotherboardInfo) -> Seq<char> {
    m.manufacturer@ + "</td></tr>\n<tr><td class=\"label\">Modelo:</td><td class=\"value\">"@ + m.model@ + "</td></tr>\n<tr><td class=\"label\">Chipset:</td><td class=\"value\">"@ + m.chipset@ + "</td></tr>\n<tr><td class=\"label\">BIOS:</td><td class=\"value\">"@ + m.bios_vendor@ + " (Versão "@ + m.bios_version@ + ")</td></tr>\n</table>\n</div>\n\n<div class=\"card\">\n<h2>💾 Memória RAM</h2>\n<table>\n<tr><td class=\"label\">Capacidade Total:</td><td class=\"value\">"@
}

/// The HTML report's memory card.
pub open spec fn html_memory(m: MemoryInfo) -> Seq<char> {
    html_memory_size(m) + html_memory_timings(m)
}

/// The capacity, type and channel rows of the memory card.
pub open spec fn html_memory_size(m: MemoryInfo) -> Seq<char> {
    decimal(m.total_mb as nat) + " MB ("@ + tenths_text(round_half_even(m.total_mb * 10, 1024)) + " GB)</td></tr>\n<tr><td class=\"label\">Tipo & Canais:</td><td class=\"value\">"@ + m.memory_type@
        + " ("@ + m.channel_mode@ + ")</td></tr>\n<tr><td class=\"label\">Frequência DRAM:</td><td class=\"value\">"@
}

/// The clock and timing rows of the memory card.
pub open spec fn html_memory_timings(m: MemoryInfo) -> Seq<char> {
    tenths_text(m.dram_speed_mts * 5) + " MHz</td></tr>\n<tr><td class=\"label\">Timings:</td><td class=\"value\">CL"@ + decimal(m.cl as nat) + "-"@
        + decimal(m.trcd as nat) + "-"@ + decimal(m.trp as nat) + "-"@ + decimal(m.tras as nat) + "</td></tr>\n</table>\n</div>\n\n<div class=\"card\">\n<h2>🎮 Placa Gráfica</h2>\n<table>\n<tr><td class=\"label\">GPU:</td><td class=\"value\">"@
}

/// The HTML report's graphics card, for the first adapter (`N/D` and 0
/// without one).
pub open spec fn html_gpu(gpus: Seq<GpuInfo>) -> Seq<char> {
    if gpus.len() == 0 {
        "N/D"@ + "</td></tr>\n<tr><td class=\"label\">VRAM:</td><td class=\"value\">"@ + "0"@ + " MB ("@ + "N/D"@ + ")</td></tr>\n<tr><td class=\"label\">Driver:</td><td class=\"value\">"@ + "N/D"@ + "</td></tr>\n</table>\n</div>\n</div>\n</body>\n</html>"@
    } else {
        gpus[0].name@ + "</td></tr>\n<tr><td class=\"label\">VRAM:</td><td class=\"value\">"@ + decimal(gpus[0].vram_mb as nat) + " MB ("@ + gpus[0].memory_type@ + ")</td></tr>\n<tr><td class=\"label\">Driver:</td><td class=\"value\">"@
            + gpus[0].driver_version@ + "</td></tr>\n</table>\n</div>\n</div>\n</body>\n</html>"@
    }
}

fn push_html_head(s: &mut String, hw: &SystemHardware, date: &str)
    ensures
        final(s)@ == old(s)@ + html_head(*hw, date@),
{
    s.append("<!DOCTYPE html>\n<html lang=\"pt-BR\">\n<head>\n<meta charset=\"UTF-8\">\n<title>RS-CPU Relatório de Diagnóstico - ");
    s.append(hw.cpu.name.as_str());
    s.append("</title>\n<style>\nbody { font-family: 'Segoe UI', system-ui, -apple-system, sans-serif; background: #0f1117; color: #f3f4f6; margin: 0; padding: 24px; }\n.container { max-width: 900px; margin: 0 auto; }\nh1 { color: #00d2ff; margin-bottom: 4px; }\n.subtitle { color: #9ca3af; font-size: 14px; margin-bottom: 24px; }\n.card { background: #181b24; border: 1px solid #2d3444; border-radius: 8px; padding: 18px; margin-bottom: 16px; }\nh2 { color: #10b981; font-size: 16px; margin-top: 0; border-bottom: 1px solid #2d3444; padding-bottom: 8px; }\ntable { width: 100%; border-collapse: collapse; }\ntd { padding: 8px 4px; font-size: 14px; }\ntd.label { color: #9ca3af; width: 35%; }\ntd.value { color: #f3f4f6; font-weight: 600; text-align: right; }\ntr:nth-child(even) td { background: rgba(255,255,255,0.02); }\n</style>\n</head>\n<body>\n<div class=\"container\">\n<h1>⚡ RS-CPU Diagnóstico de Hardware</h1>\n<div class=\"subtitle\">Gerado em: ");
    s.append(date);
    s.append(" • Sistema: ");
    s.append(hw.os_name.as_str());
    s.append(" (");
    s.append(hw.os_version.as_str());
    s.append(")</div>\n\n<div class=\"card\">\n<h2>🔲 Processador (CPU)</h2>\n<table>\n<tr><td class=\"label\">Modelo:</td><td class=\"value\">");
    assert(final(s)@ =~= old(s)@ + html_head(*hw, date@));
}

fn push_html_cpu(s: &mut String, c: &CpuInfo)
    ensures
        final(s)@ == old(s)@ + html_cpu(*c),
{
    s.append(c.name.as_str());
    s.append("</td></tr>\n<tr><td class=\"label\">Fabricante:</td><td class=\"value\">");
    s.append(c.vendor.as_str());
    s.append("</td></tr>\n<tr><td class=\"label\">Codinome:</td><td class=\"value\">");
    s.append(c.code_name.as_str());
    s.append("</td></tr>\n<tr><td class=\"label\">Soquete:</td><td class=\"value\">");
    s.append(c.package_socket.as_str());
    s.append("</td></tr>\n<tr><td class=\"label\">Litografia:</td><td class=\"value\">");
    s.append(c.technology.as_str());
    s.append("</td></tr>\n<tr><td class=\"label\">Núcleos / Threads:</td><td class=\"value\">");
    push_decimal(s, c.physical_cores as u64);
    s.append(" Núcleos, ");
    push_decimal(s, c.logical_threads as u64);
    s.append(" Threads</td></tr>\n</table>\n</div>\n\n<div class=\"card\">\n<h2>🖧 Placa-Mãe & BIOS</h2>\n<table>\n<tr><td class=\"label\">Fabricante:</td><td class=\"value\">");
    assert(final(s)@ =~= old(s)@ + html_cpu(*c));
}

fn push_html_board(s: &mut String, m: &MotherboardInfo)
    ensures
        final(s)@ == old(s)@ + html_board(*m),
{
    s.append(m.manufacturer.as_str());
    s.append("</td></tr>\n<tr><td class=\"label\">Modelo:</td><td class=\"value\">");
    s.append(m.model.as_str());
    s.append("</td></tr>\n<tr><td class=\"label\">Chipset:</td><td class=\"value\">");
    s.append(m.chipset.as_str());
    s.append("</td></tr>\n<tr><td class=\"label\">BIOS:</td><td class=\"value\">");
    s.append(m.bios_vendor.as_str());
    s.append(" (Versão ");
    s.append(m.bios_version.as_str());
    s.append(")</td></tr>\n</table>\n</div>\n\n<div class=\"card\">\n<h2>💾 Memória RAM</h2>\n<table>\n<tr><td class=\"label\">Capacidade Total:</td><td class=\"value\">");
    assert(final(s)@ =~= old(s)@ + html_board(*m));
}

fn push_html_memory(s: &mut String, m: &MemoryInfo)
    ensures
        final(s)@ == old(s)@ + html_memory(*m),
{
    push_html_memory_size(s, m);
    push_html_memory_timings(s, m);
    assert(final(s)@ =~= old(s)@ + html_memory(*m));
}

fn push_html_memory_size(s: &mut String, m: &MemoryInfo)
    ensures
        final(s)@ == old(s)@ + html_memory_size(*m),
{
    push_decimal(s, m.total_mb);
    s.append(" MB (");
    push_unsigned_tenths(s, rounded_tenths_of(m.total_mb, 1024));
    s.append(" GB)</td></tr>\n<tr><td class=\"label\">Tipo & Canais:</td><td class=\"value\">");
    s.append(m.memory_type.as_str());
    s.append(" (");
    s.append(m.channel_mode.as_str());
    s.append(")</td></tr>\n<tr><td class=\"label\">Frequência DRAM:</td><td class=\"value\">");
    assert(final(s)@ =~= old(s)@ + html_memory_size(*m));
}

fn push_html_memory_timings(s: &mut String, m: &MemoryInfo)
    ensures
        final(s)@ == old(s)@ + html_memory_timings(*m),
{
    push_unsigned_tenths(s, (m.dram_speed_mts as u64) * 5);
    s.append(" MHz</td></tr>\n<tr><td class=\"label\">Timings:</td><td class=\"value\">CL");
    push_decimal(s, m.cl as u64);
    s.append("-");
    push_decimal(s, m.trcd as u64);
    s.append("-");
    push_decimal(s, m.trp as u64);
    s.append("-");
    push_decimal(s, m.tras as u64);
    s.append("</td></tr>\n</table>\n</div>\n\n<div class=\"card\">\n<h2>🎮 Placa Gráfica</h2>\n<table>\n<tr><td class=\"label\">GPU:</td><td class=\"value\">");
    assert(final(s)@ =~= old(s)@ + html_memory_timings(*m));
}

fn push_html_gpu(s: &mut String, gpus: &Vec<GpuInfo>)
    ensures
        final(s)@ == old(s)@ + html_gpu(gpus@),
{
    if gpus.len() == 0 {
        s.append("N/D");
        s.append("</td></tr>\n<tr><td class=\"label\">VRAM:</td><td class=\"value\">");
        s.append("0");
        s.append(" MB (");
        s.append("N/D");
        s.append(")</td></tr>\n<tr><td class=\"label\">Driver:</td><td class=\"value\">");
        s.append("N/D");
        s.append("</td></tr>\n</table>\n</div>\n</div>\n</body>\n</html>");
    } else {
        let g = &gpus[0];
        s.append(g.name.as_str());
        s.append("</td></tr>\n<tr><td class=\"label\">VRAM:</td><td class=\"value\">");
        push_decimal(s, g.vram_mb);
        s.append(" MB (");
        s.append(g.memory_type.as_str());
        s.append(")</td></tr>\n<tr><td class=\"label\">Driver:</td><td class=\"value\">");
        s.append(g.driver_version.as_str());
        s.append("</td></tr>\n</table>\n</div>\n</div>\n</body>\n</html>");
    }
    assert(final(s)@ =~= old(s)@ + html_gpu(gpus@));
}

/// The whole HTML report.
pub open spec fn html_report_for(hw: SystemHardware, date: Seq<char>) -> Seq<char> {
    html_head(hw, date) + html_cpu(hw.cpu) + html_board(hw.motherboard) + html_memory(hw.memory) + html_gpu(hw.gpus@)
}

/// The HTML report, headed by the given generation date.
pub fn html_report_dated(hardware: &SystemHardware, date: &str) -> (r: String)
    ensures
        r@ == html_report_for(*hardware, date@),
{
    let mut out = String::new();
    push_html_head(&mut out, hardware, date);
    push_html_cpu(&mut out, &hardware.cpu);
    push_html_board(&mut out, &hardware.motherboard);
    push_html_memory(&mut out, &hardware.memory);
    push_html_gpu(&mut out, &hardware.gpus);
    assert(out@ =~= html_report_for(*hardware, date@));
    out
}

} // verus!
