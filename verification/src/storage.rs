//! Storage drives: S.M.A.R.T. attribute table and warnings, drive
//! specification heuristics, parsing of device query buffers and the
//! throughput benchmark's access pattern.
use vstd::prelude::*;
use crate::bench::{rounded_quotient, round_div_wide};
use crate::text::{chars_contain, chars_of, contains_seq, decimal, join3_spaced, lowercase, owned, push_decimal, push_rounded_tenths, push_tenths, rounded_tenths_text, string_views, tenths_text, to_lowercase};

verus! {

// ---------------------------------------------------------------------------
// Benchmark stages
// ---------------------------------------------------------------------------

/// Stages of the storage benchmark.
#[derive(Debug, Clone, Copy, PartialEq, Eq, Structural)]
pub enum DiskBenchmarkStage {
    /// Sequential write (1 MiB blocks).
    SeqWrite,
    /// Sequential read (1 MiB blocks).
    SeqRead,
    /// Random 4 KiB writes.
    RndWrite4k,
    /// Random 4 KiB reads.
    RndRead4k,
}

/// The user-facing (Portuguese) description of a stage.
pub open spec fn stage_label(s: DiskBenchmarkStage) -> Seq<char> {
    match s {
        DiskBenchmarkStage::SeqWrite => "1/4 Gravando Sequencial (1 MB)..."@,
        DiskBenchmarkStage::SeqRead => "2/4 Lendo Sequencial (1 MB)..."@,
        DiskBenchmarkStage::RndWrite4k => "3/4 Gravando Aleatório 4K (IOPS)..."@,
        DiskBenchmarkStage::RndRead4k => "4/4 Lendo Aleatório 4K (IOPS)..."@,
    }
}

impl DiskBenchmarkStage {
    /// Returns the user-facing Portuguese description of the stage.
    pub fn label(self) -> (r: &'static str)
        ensures
            r@ == stage_label(self),
    {
        match self {
            DiskBenchmarkStage::SeqWrite => "1/4 Gravando Sequencial (1 MB)...",
            DiskBenchmarkStage::SeqRead => "2/4 Lendo Sequencial (1 MB)...",
            DiskBenchmarkStage::RndWrite4k => "3/4 Gravando Aleatório 4K (IOPS)...",
            DiskBenchmarkStage::RndRead4k => "4/4 Lendo Aleatório 4K (IOPS)...",
        }
    }
}

// ---------------------------------------------------------------------------
// Drive specification heuristic
// ---------------------------------------------------------------------------

/// Interface, form factor and media technology chosen from the lower-cased
/// text `model bus`.
pub open spec fn storage_specs_for(lower: Seq<char>) -> (Seq<char>, Seq<char>, Seq<char>) {
    if contains_seq(lower, "nvme"@) || contains_seq(lower, "pcie"@) || contains_seq(lower, "990"@)
        || contains_seq(lower, "980"@) || contains_seq(lower, "970"@) || contains_seq(lower, "kc3000"@)
        || contains_seq(lower, "sn850"@) || contains_seq(lower, "sn770"@) {
        ("NVMe PCIe 4.0 x4 (M-Key)"@, "M.2 2280"@, "3D TLC NAND Flash (V-NAND)"@)
    } else if contains_seq(lower, "sata"@) || contains_seq(lower, "870"@) || contains_seq(lower, "860"@)
        || contains_seq(lower, "bx500"@) || contains_seq(lower, "mx500"@) {
        ("SATA III 6.0 Gb/s"@, "2.5-inch 7mm"@, "3D TLC NAND Flash"@)
    } else {
        ("High-Speed Storage Controller"@, "M.2 / SATA"@, "3D NAND Flash"@)
    }
}

/// The text `model bus` that the specification heuristic lower-cases.
pub open spec fn model_bus_text(model: Seq<char>, bus: Seq<char>) -> Seq<char> {
    model + seq![' '] + bus
}

/// Chooses interface, form factor and technology from the lower-cased text.
pub fn storage_specs_from_lowercase(lower: &str) -> (r: (String, String, String))
    ensures
        (r.0@, r.1@, r.2@) == storage_specs_for(lower@),
{
    let l = chars_of(lower);
    if chars_contain(&l, "nvme") || chars_contain(&l, "pcie") || chars_contain(&l, "990")
        || chars_contain(&l, "980") || chars_contain(&l, "970") || chars_contain(&l, "kc3000")
        || chars_contain(&l, "sn850") || chars_contain(&l, "sn770") {
        (owned("NVMe PCIe 4.0 x4 (M-Key)"), owned("M.2 2280"), owned("3D TLC NAND Flash (V-NAND)"))
    } else if chars_contain(&l, "sata") || chars_contain(&l, "870") || chars_contain(&l, "860")
        || chars_contain(&l, "bx500") || chars_contain(&l, "mx500") {
        (owned("SATA III 6.0 Gb/s"), owned("2.5-inch 7mm"), owned("3D TLC NAND Flash"))
    } else {
        (owned("High-Speed Storage Controller"), owned("M.2 / SATA"), owned("3D NAND Flash"))
    }
}

/// Deduces interface, form factor and media technology from the drive model
/// and bus name, joined by a space and lower-cased.
pub fn deduce_storage_specs(model: &str, bus: &str) -> (r: (String, String, String))
    ensures
        (r.0@, r.1@, r.2@) == storage_specs_for(lowercase(model_bus_text(model@, bus@))),
{
    let mut joined = owned(model);
    crate::text::push_char(&mut joined, ' ');
    joined.append(bus);
    assert(joined@ =~= model_bus_text(model@, bus@));
    let lower = to_lowercase(joined.as_str());
    storage_specs_from_lowercase(lower.as_str())
}

// ---------------------------------------------------------------------------
// S.M.A.R.T. attributes and warnings
// ---------------------------------------------------------------------------

/// A mounted volume.
#[derive(Debug, Clone)]
pub struct PartitionInfo {
    /// Mount point or drive letter.
    pub mount_point: String,
    /// Volume name.
    pub name: String,
    /// File system.
    pub file_system: String,
    /// Capacity in bytes.
    pub total_bytes: u64,
    /// Space available in bytes.
    pub free_bytes: u64,
    /// Space in use in bytes.
    pub used_bytes: u64,
    /// Share in use, in tenths of a percent (0 to 1000).
    pub used_pct_tenths: u32,
    /// Storage medium text.
    pub disk_type: String,
}

/// The mathematical value of a [`PartitionInfo`].
pub struct PartitionInfoView {
    /// Mount point.
    pub mount_point: Seq<char>,
    /// Volume name.
    pub name: Seq<char>,
    /// File system.
    pub file_system: Seq<char>,
    /// Capacity in bytes.
    pub total_bytes: u64,
    /// Available bytes.
    pub free_bytes: u64,
    /// Used bytes.
    pub used_bytes: u64,
    /// Share in use, in tenths of a percent.
    pub used_pct_tenths: u32,
    /// Medium text.
    pub disk_type: Seq<char>,
}

impl View for PartitionInfo {
    type V = PartitionInfoView;

    open spec fn view(&self) -> PartitionInfoView {
        PartitionInfoView {
            mount_point: self.mount_point@,
            name: self.name@,
            file_system: self.file_system@,
            total_bytes: self.total_bytes,
            free_bytes: self.free_bytes,
            used_bytes: self.used_bytes,
            used_pct_tenths: self.used_pct_tenths,
            disk_type: self.disk_type@,
        }
    }
}

/// The views of a sequence of volumes.
pub open spec fn partition_views(v: Seq<PartitionInfo>) -> Seq<PartitionInfoView> {
    v.map_values(|p: PartitionInfo| p@)
}

/// Bytes in use: capacity minus available space, zero when more is
/// available than the capacity.
pub open spec fn used_bytes_for(total: u64, free: u64) -> int {
    if free <= total { total - free } else { 0 }
}

/// Share in use in tenths of a percent (rounded to the nearest, halves up),
/// zero for an empty volume.
pub open spec fn used_tenths_for(used: int, total: int) -> int {
    if total > 0 { rounded_quotient(used * 1000, total) } else { 0 }
}

/// The volume described by its mount point, name, file system, capacity,
/// available space and medium.
pub open spec fn partition_for(
    mount_point: Seq<char>,
    name: Seq<char>,
    file_system: Seq<char>,
    total: u64,
    free: u64,
    kind: DiskKindField,
) -> PartitionInfoView {
    PartitionInfoView {
        mount_point,
        name,
        file_system,
        total_bytes: total,
        free_bytes: free,
        used_bytes: used_bytes_for(total, free) as u64,
        used_pct_tenths: used_tenths_for(used_bytes_for(total, free), total as int) as u32,
        disk_type: disk_kind_text_for(kind),
    }
}

impl PartitionInfo {
    /// Describes a volume from what the system reports of it.
    pub fn from_volume(
        mount_point: String,
        name: String,
        file_system: String,
        total_bytes: u64,
        available_bytes: u64,
        kind: DiskKindField,
    ) -> (r: PartitionInfo)
        ensures
            r@ == partition_for(mount_point@, name@, file_system@, total_bytes, available_bytes, kind),
            r.used_bytes <= r.total_bytes,
            r.used_pct_tenths <= 1000,
    {
        let used: u64 = if available_bytes <= total_bytes { total_bytes - available_bytes } else { 0 };
        let pct: u32 = if total_bytes > 0 {
            let scaled: u128 = (used as u128) * 1000;
            let q = round_div_wide(scaled, total_bytes as u128);
            assert(q <= 1000) by (nonlinear_arith)
                requires q == (2 * (scaled as int) + total_bytes) / (2 * (total_bytes as int)),
                    scaled == (used as u128) * 1000, used <= total_bytes, total_bytes > 0;
            q as u32
        } else {
            0
        };
        PartitionInfo {
            mount_point,
            name,
            file_system,
            total_bytes,
            free_bytes: available_bytes,
            used_bytes: used,
            used_pct_tenths: pct,
            disk_type: owned(disk_kind_text(kind)),
        }
    }

    /// A copy of the volume.
    pub fn duplicate(&self) -> (r: PartitionInfo)
        ensures
            r@ == self@,
    {
        PartitionInfo {
            mount_point: self.mount_point.clone(),
            name: self.name.clone(),
            file_system: self.file_system.clone(),
            total_bytes: self.total_bytes,
            free_bytes: self.free_bytes,
            used_bytes: self.used_bytes,
            used_pct_tenths: self.used_pct_tenths,
            disk_type: self.disk_type.clone(),
        }
    }
}

/// Copies of the volumes, in order.
pub fn duplicate_partitions(v: &Vec<PartitionInfo>) -> (r: Vec<PartitionInfo>)
    ensures
        partition_views(r@) == partition_views(v@),
{
    let mut out: Vec<PartitionInfo> = Vec::new();
    let mut i: usize = 0;
    while i < v.len()
        invariant
            i <= v.len(),
            partition_views(out@) == partition_views(v@.subrange(0, i as int)),
        decreases v.len() - i,
    {
        let c = v[i].duplicate();
        let ghost before = out@;
        out.push(c);
        proof {
            assert(partition_views(out@) == partition_views(before).push(c@));
            assert(v@.subrange(0, i as int + 1) == v@.subrange(0, i as int).push(v@[i as int]));
            assert(partition_views(v@.subrange(0, i as int + 1))
                == partition_views(v@.subrange(0, i as int)).push(v@[i as int]@));
        }
        i = i + 1;
    }
    assert(v@.subrange(0, v.len() as int) == v@);
    out
}


/// S.M.A.R.T. attribute entry.
#[derive(Debug, Clone)]
pub struct SmartAttribute {
    /// S.M.A.R.T. ID code (e.g. "05", "09", "E7").
    pub id: String,
    /// Attribute name.
    pub name: String,
    /// Current value text.
    pub value_str: String,
    /// Threshold text.
    pub threshold_str: String,
    /// Health indication ("Normal", "Atenção", "Crítico").
    pub status: String,
    /// Whether the attribute is critical for failure prediction.
    pub is_critical: bool,
}

/// The mathematical value of a [`SmartAttribute`].
pub struct SmartAttributeView {
    /// ID code.
    pub id: Seq<char>,
    /// Name.
    pub name: Seq<char>,
    /// Value text.
    pub value_str: Seq<char>,
    /// Threshold text.
    pub threshold_str: Seq<char>,
    /// Status text.
    pub status: Seq<char>,
    /// Critical flag.
    pub is_critical: bool,
}

impl View for SmartAttribute {
    type V = SmartAttributeView;

    open spec fn view(&self) -> SmartAttributeView {
        SmartAttributeView {
            id: self.id@,
            name: self.name@,
            value_str: self.value_str@,
            threshold_str: self.threshold_str@,
            status: self.status@,
            is_critical: self.is_critical,
        }
    }
}

/// The views of a sequence of attributes.
pub open spec fn attribute_views(v: Seq<SmartAttribute>) -> Seq<SmartAttributeView> {
    v.map_values(|a: SmartAttribute| a@)
}

/// Physical drive description as plain values. Temperature and wear are
/// counted in tenths (of a degree Celsius, of a percent).
#[derive(Debug, Clone)]
pub struct PhysicalDriveInfo {
    /// Device model name.
    pub model: String,
    /// Serial number.
    pub serial: String,
    /// Firmware revision.
    pub firmware: String,
    /// Interface type.
    pub interface: String,
    /// Form factor.
    pub form_factor: String,
    /// Media technology.
    pub technology: String,
    /// S.M.A.R.T. health status text.
    pub health_status: String,
    /// Drive temperature in tenths of a degree Celsius.
    pub temperature_decidegrees: i32,
    /// Reallocated sectors count.
    pub reallocated_sectors: u32,
    /// Remaining flash life in tenths of a percent (1000 = new).
    pub wear_level_decipercent: u32,
    /// Unsafe shutdowns count.
    pub unsafe_shutdowns: u32,
    /// Interface CRC error count.
    pub crc_errors: u32,
    /// Power-on hours.
    pub power_on_hours: u64,
    /// Power cycle count.
    pub power_cycles: u64,
    /// Data written by the host, in tenths of a terabyte.
    pub total_host_writes_tenths_tb: u64,
    /// Data read by the host, in tenths of a terabyte.
    pub total_host_reads_tenths_tb: u64,
    /// Key S.M.A.R.T. attributes table.
    pub smart_attributes: Vec<SmartAttribute>,
    /// Diagnostic warnings.
    pub diagnostic_warnings: Vec<String>,
    /// Capacity in bytes (0 when unknown).
    pub capacity_bytes: u64,
    /// Volumes on this drive.
    pub partitions: Vec<PartitionInfo>,
}

/// An attribute view built from its parts.
pub open spec fn attr(
    id: Seq<char>,
    name: Seq<char>,
    value_str: Seq<char>,
    threshold_str: Seq<char>,
    status: Seq<char>,
    is_critical: bool,
) -> SmartAttributeView {
    SmartAttributeView { id, name, value_str, threshold_str, status, is_critical }
}

/// `Normal` when `ok`, else `bad`.
pub open spec fn normal_or(ok: bool, bad: Seq<char>) -> Seq<char> {
    if ok { "Normal"@ } else { bad }
}

/// Power-on time text: hours, then whole days and remaining hours.
pub open spec fn power_time_text(hours: u64) -> Seq<char> {
    decimal(hours as nat) + " hrs ("@ + decimal((hours / 24) as nat) + " dias, "@
        + decimal((hours % 24) as nat) + "h)"@
}

/// The ten attributes of the table, in order, for the drive's readings.
pub open spec fn smart_attributes_for(d: PhysicalDriveInfo) -> Seq<SmartAttributeView> {
    seq![
        attr("05"@, "Contagem de Setores Realocados (Bad Blocks)"@, decimal(d.reallocated_sectors as nat),
            "0"@, normal_or(d.reallocated_sectors == 0, "Crítico"@), true),
        attr("09"@, "Tempo Total de Funcionamento (Horas Ligado)"@, power_time_text(d.power_on_hours),
            "N/A"@, "Normal"@, false),
        attr("0C"@, "Contagem de Ciclos de Energia (Liga/Desliga)"@, decimal(d.power_cycles as nat) + " vezes"@,
            "N/A"@, "Normal"@, false),
        attr("E7"@, "Vida Útil Restante da Memória Flash (Saúde)"@,
            rounded_tenths_text(d.wear_level_decipercent as nat) + "% restante"@, "10%"@,
            normal_or(d.wear_level_decipercent >= 200, "Atenção"@), true),
        attr("AF"@, "Contagem de Falhas de Programação/Apagamento"@, "0"@, "0"@, "Normal"@, true),
        attr("B8"@, "Detecção de Erros de Transmissão Fim-a-Fim"@, "0"@, "0"@, "Normal"@, true),
        attr("BB"@, "Erros Incorrigíveis Reportados pelo Hardware"@, "0"@, "0"@, "Normal"@, true),
        attr("C7"@, "Contagem de Erros de Comunicação CRC (Cabo/Slot)"@, decimal(d.crc_errors as nat),
            "0"@, normal_or(d.crc_errors == 0, "Atenção"@), false),
        attr("0E"@, "Erros de Integridade de Mídia e Dados NVMe"@, "0"@, "0"@, "Normal"@, true),
        attr("C2"@, "Temperatura Operacional Interna do Disco"@,
            tenths_text(d.temperature_decidegrees as int) + " °C"@, "65 °C"@,
            normal_or(d.temperature_decidegrees < 650, "Atenção"@), true),
    ]
}

/// `seq![s]` when `b`, else empty.
pub open spec fn warn_if(b: bool, s: Seq<char>) -> Seq<Seq<char>> {
    if b { seq![s] } else { seq![] }
}

/// The alerts raised by the readings, in order: reallocated sectors, heat
/// (65.0 °C or more), wear (15.0 % or less), CRC errors.
pub open spec fn raised_warnings(d: PhysicalDriveInfo) -> Seq<Seq<char>> {
    warn_if(d.reallocated_sectors > 0,
        "⚠️ ALERTA CRÍTICO: Detectados "@ + decimal(d.reallocated_sectors as nat)
            + " setores realocados. O disco possui blocos danificados e deve ter backup realizado imediatamente."@)
    + warn_if(d.temperature_decidegrees >= 650,
        "⚠️ ALERTA TÉRMICO: Temperatura atual de "@ + tenths_text(d.temperature_decidegrees as int)
            + " °C está acima do limite seguro para operação contínua."@)
    + warn_if(d.wear_level_decipercent <= 150,
        "⚠️ ALERTA DE DESGASTE: Vida útil da memória Flash em "@ + rounded_tenths_text(d.wear_level_decipercent as nat)
            + "%. O drive está próximo do fim da vida útil de escrita."@)
    + warn_if(d.crc_errors > 0,
        "⚠️ ALERTA DE INTERFACE: Registrados "@ + decimal(d.crc_errors as nat)
            + " erros de CRC no cabo/slot PCIe. Verifique o encaixe físico da unidade."@)
}

/// The diagnostic messages: the raised alerts, or a single all-clear
/// message when there is none.
pub open spec fn diagnostic_warnings_for(d: PhysicalDriveInfo) -> Seq<Seq<char>> {
    let w = raised_warnings(d);
    if w.len() == 0 {
        seq!["✅ Todos os parâmetros S.M.A.R.T. estão operando 100% dentro dos limites nominais seguros de fábrica."@]
    } else {
        w
    }
}

/// The drive's fields other than the attribute table and warnings agree.
pub open spec fn same_readings(a: PhysicalDriveInfo, b: PhysicalDriveInfo) -> bool {
    &&& a.model@ == b.model@
    &&& a.serial@ == b.serial@
    &&& a.firmware@ == b.firmware@
    &&& a.interface@ == b.interface@
    &&& a.form_factor@ == b.form_factor@
    &&& a.technology@ == b.technology@
    &&& a.health_status@ == b.health_status@
    &&& a.temperature_decidegrees == b.temperature_decidegrees
    &&& a.reallocated_sectors == b.reallocated_sectors
    &&& a.wear_level_decipercent == b.wear_level_decipercent
    &&& a.unsafe_shutdowns == b.unsafe_shutdowns
    &&& a.crc_errors == b.crc_errors
    &&& a.power_on_hours == b.power_on_hours
    &&& a.power_cycles == b.power_cycles
    &&& a.total_host_writes_tenths_tb == b.total_host_writes_tenths_tb
    &&& a.total_host_reads_tenths_tb == b.total_host_reads_tenths_tb
    &&& a.capacity_bytes == b.capacity_bytes
    &&& a.partitions@ == b.partitions@
}

fn make_attr(id: &str, name: &str, value_str: String, threshold: &str, status: String, is_critical: bool)
    -> (r: SmartAttribute)
    ensures
        r@ == attr(id@, name@, value_str@, threshold@, status@, is_critical),
{
    SmartAttribute {
        id: owned(id),
        name: owned(name),
        value_str,
        threshold_str: owned(threshold),
        status,
        is_critical,
    }
}

fn status_text(ok: bool, bad: &str) -> (r: String)
    ensures
        r@ == normal_or(ok, bad@),
{
    if ok { owned("Normal") } else { owned(bad) }
}

fn literal_then(mut s: String, tail: &str) -> (r: String)
    ensures
        r@ == s@ + tail@,
{
    s.append(tail);
    s
}

impl PhysicalDriveInfo {
    /// Builds the S.M.A.R.T. attribute table and evaluates the warning
    /// thresholds from the drive's readings.
    pub fn build_smart_attributes_and_warnings(&mut self)
        ensures
            same_readings(*final(self), *old(self)),
            attribute_views(final(self).smart_attributes@) == smart_attributes_for(*old(self)),
            string_views(final(self).diagnostic_warnings@) == diagnostic_warnings_for(*old(self)),
    {
        let ghost d = *self;
        let mut power = crate::text::decimal_string(self.power_on_hours);
        power.append(" hrs (");
        push_decimal(&mut power, self.power_on_hours / 24);
        power.append(" dias, ");
        push_decimal(&mut power, self.power_on_hours % 24);
        power.append("h)");
        assert(power@ =~= power_time_text(self.power_on_hours));

        let mut wear = String::new();
        push_rounded_tenths(&mut wear, self.wear_level_decipercent);
        wear.append("% restante");
        let mut temp = String::new();
        push_tenths(&mut temp, self.temperature_decidegrees);
        temp.append(" °C");

        let mut attrs: Vec<SmartAttribute> = Vec::new();
        attrs.push(make_attr("05", "Contagem de Setores Realocados (Bad Blocks)",
            crate::text::decimal_string(self.reallocated_sectors as u64), "0",
            status_text(self.reallocated_sectors == 0, "Crítico"), true));
        attrs.push(make_attr("09", "Tempo Total de Funcionamento (Horas Ligado)", power, "N/A",
            owned("Normal"), false));
        attrs.push(make_attr("0C", "Contagem de Ciclos de Energia (Liga/Desliga)",
            literal_then(crate::text::decimal_string(self.power_cycles), " vezes"), "N/A", owned("Normal"), false));
        attrs.push(make_attr("E7", "Vida Útil Restante da Memória Flash (Saúde)", wear, "10%",
            status_text(self.wear_level_decipercent >= 200, "Atenção"), true));
        attrs.push(make_attr("AF", "Contagem de Falhas de Programação/Apagamento", owned("0"), "0",
            owned("Normal"), true));
        attrs.push(make_attr("B8", "Detecção de Erros de Transmissão Fim-a-Fim", owned("0"), "0",
            owned("Normal"), true));
        attrs.push(make_attr("BB", "Erros Incorrigíveis Reportados pelo Hardware", owned("0"), "0",
            owned("Normal"), true));
        attrs.push(make_attr("C7", "Contagem de Erros de Comunicação CRC (Cabo/Slot)",
            crate::text::decimal_string(self.crc_errors as u64), "0",
            status_text(self.crc_errors == 0, "Atenção"), false));
        attrs.push(make_attr("0E", "Erros de Integridade de Mídia e Dados NVMe", owned("0"), "0",
            owned("Normal"), true));
        attrs.push(make_attr("C2", "Temperatura Operacional Interna do Disco", temp, "65 °C",
            status_text(self.temperature_decidegrees < 650, "Atenção"), true));
        assert(attribute_views(attrs@) =~= smart_attributes_for(d));

        let mut warnings: Vec<String> = Vec::new();
        let ghost w0 = string_views(warnings@);
        if self.reallocated_sectors > 0 {
            let mut m = owned("⚠️ ALERTA CRÍTICO: Detectados ");
            push_decimal(&mut m, self.reallocated_sectors as u64);
            m.append(" setores realocados. O disco possui blocos danificados e deve ter backup realizado imediatamente.");
            warnings.push(m);
        }
        let ghost w1 = string_views(warnings@);
        assert(w1 =~= warn_if(d.reallocated_sectors > 0,
            "⚠️ ALERTA CRÍTICO: Detectados "@ + decimal(d.reallocated_sectors as nat)
                + " setores realocados. O disco possui blocos danificados e deve ter backup realizado imediatamente."@));
        if self.temperature_decidegrees >= 650 {
            let mut m = owned("⚠️ ALERTA TÉRMICO: Temperatura atual de ");
            push_tenths(&mut m, self.temperature_decidegrees);
            m.append(" °C está acima do limite seguro para operação contínua.");
            warnings.push(m);
        }
        let ghost w2 = string_views(warnings@);
        assert(w2 =~= w1 + warn_if(d.temperature_decidegrees >= 650,
            "⚠️ ALERTA TÉRMICO: Temperatura atual de "@ + tenths_text(d.temperature_decidegrees as int)
                + " °C está acima do limite seguro para operação contínua."@));
        if self.wear_level_decipercent <= 150 {
            let mut m = owned("⚠️ ALERTA DE DESGASTE: Vida útil da memória Flash em ");
            push_rounded_tenths(&mut m, self.wear_level_decipercent);
            m.append("%. O drive está próximo do fim da vida útil de escrita.");
            warnings.push(m);
        }
        let ghost w3 = string_views(warnings@);
        assert(w3 =~= w2 + warn_if(d.wear_level_decipercent <= 150,
            "⚠️ ALERTA DE DESGASTE: Vida útil da memória Flash em "@ + rounded_tenths_text(d.wear_level_decipercent as nat)
                + "%. O drive está próximo do fim da vida útil de escrita."@));
        if self.crc_errors > 0 {
            let mut m = owned("⚠️ ALERTA DE INTERFACE: Registrados ");
            push_decimal(&mut m, self.crc_errors as u64);
            m.append(" erros de CRC no cabo/slot PCIe. Verifique o encaixe físico da unidade.");
            warnings.push(m);
        }
        let ghost w4 = string_views(warnings@);
        assert(w4 =~= w3 + warn_if(d.crc_errors > 0,
            "⚠️ ALERTA DE INTERFACE: Registrados "@ + decimal(d.crc_errors as nat)
                + " erros de CRC no cabo/slot PCIe. Verifique o encaixe físico da unidade."@));
        assert(w4 =~= raised_warnings(d));
        if warnings.len() == 0 {
            warnings.push(owned("✅ Todos os parâmetros S.M.A.R.T. estão operando 100% dentro dos limites nominais seguros de fábrica."));
            assert(string_views(warnings@) =~= diagnostic_warnings_for(d));
        }
        self.smart_attributes = attrs;
        self.diagnostic_warnings = warnings;
    }
}

// ---------------------------------------------------------------------------
// Default drive
// ---------------------------------------------------------------------------

/// The texts and readings of a drive that could not be identified.
pub open spec fn is_unidentified_drive(d: PhysicalDriveInfo) -> bool {
    &&& d.model@ == "Disco Não Identificado"@
    &&& d.serial@ == "N/D"@
    &&& d.firmware@ == "N/D"@
    &&& d.interface@ == "Desconhecido"@
    &&& d.form_factor@ == "N/D"@
    &&& d.technology@ == "N/D"@
    &&& d.health_status@ == "Dados S.M.A.R.T. indisponíveis"@
    &&& d.temperature_decidegrees == 0
    &&& d.reallocated_sectors == 0
    &&& d.wear_level_decipercent == 0
    &&& d.unsafe_shutdowns == 0
    &&& d.crc_errors == 0
    &&& d.power_on_hours == 0
    &&& d.power_cycles == 0
    &&& d.total_host_writes_tenths_tb == 0
    &&& d.total_host_reads_tenths_tb == 0
    &&& d.capacity_bytes == 0
}

/// The attribute table and warnings match the drive's own readings.
pub open spec fn smart_consistent(d: PhysicalDriveInfo) -> bool {
    &&& attribute_views(d.smart_attributes@) == smart_attributes_for(d)
    &&& string_views(d.diagnostic_warnings@) == diagnostic_warnings_for(d)
}

impl Default for PhysicalDriveInfo {
    /// A drive that could not be identified, with its attribute table and
    /// warnings built from zero readings.
    fn default() -> (r: PhysicalDriveInfo)
        ensures
            is_unidentified_drive(r),
            smart_consistent(r),
            r.partitions@.len() == 0,
    {
        let mut d = PhysicalDriveInfo {
            model: owned("Disco Não Identificado"),
            serial: owned("N/D"),
            firmware: owned("N/D"),
            interface: owned("Desconhecido"),
            form_factor: owned("N/D"),
            technology: owned("N/D"),
            health_status: owned("Dados S.M.A.R.T. indisponíveis"),
            temperature_decidegrees: 0,
            reallocated_sectors: 0,
            wear_level_decipercent: 0,
            unsafe_shutdowns: 0,
            crc_errors: 0,
            power_on_hours: 0,
            power_cycles: 0,
            total_host_writes_tenths_tb: 0,
            total_host_reads_tenths_tb: 0,
            smart_attributes: Vec::new(),
            diagnostic_warnings: Vec::new(),
            capacity_bytes: 0,
            partitions: Vec::new(),
        };
        d.build_smart_attributes_and_warnings();
        d
    }
}

// ---------------------------------------------------------------------------
// Device query buffers
// ---------------------------------------------------------------------------

/// What `String::from_utf8_lossy` yields for the bytes `b`.
pub uninterp spec fn utf8_lossy(b: Seq<u8>) -> Seq<char>;

/// Calls `String::from_utf8_lossy` on `b[lo..hi]`. Claimed: the text depends
/// on those bytes alone (it is `utf8_lossy` of them); how invalid sequences
/// are replaced is not stated.
#[verifier::external_body]
fn lossy_text(b: &Vec<u8>, lo: usize, hi: usize) -> (r: String)
    requires
        lo <= hi <= b@.len(),
    ensures
        r@ == utf8_lossy(b@.subrange(lo as int, hi as int)),
{
    String::from_utf8_lossy(&b[lo..hi]).into_owned()
}

/// Position of the first zero byte at or after `i`, or the length.
pub open spec fn nul_end(b: Seq<u8>, i: int) -> int
    decreases b.len() - i,
{
    if i >= b.len() { b.len() as int } else if b[i] == 0 { i } else { nul_end(b, i + 1) }
}

/// Little-endian 32-bit value of `b[i..i+4]`.
pub open spec fn le_u32(b: Seq<u8>, i: int) -> int {
    b[i] + 256 * b[i + 1] + 65536 * b[i + 2] + 16777216 * b[i + 3]
}

/// Little-endian 64-bit value of `b[i..i+8]`.
pub open spec fn le_u64(b: Seq<u8>, i: int) -> int {
    le_u32(b, i) + 4294967296 * le_u32(b, i + 4)
}

/// The trimmed, lossily decoded, zero-terminated text that starts at
/// `off`; empty when `off` is zero or past the buffer.
pub open spec fn c_string_at(b: Seq<u8>, off: int) -> Seq<char> {
    if off == 0 || off >= b.len() {
        seq![]
    } else {
        crate::text::trim_ws(utf8_lossy(b.subrange(off, nul_end(b, off))))
    }
}

fn read_le_u32(b: &Vec<u8>, i: usize) -> (r: u32)
    requires
        i + 4 <= b@.len(),
    ensures
        r == le_u32(b@, i as int),
{
    let n = b.len();
    assert(i + 4 <= n);
    let b0 = b[i] as u32;
    let b1 = b[i + 1] as u32;
    let b2 = b[i + 2] as u32;
    let b3 = b[i + 3] as u32;
    assert(b0 <= 255 && b1 <= 255 && b2 <= 255 && b3 <= 255);
    b0 + b1 * 256 + b2 * 65536 + b3 * 16777216
}

fn read_le_u64(b: &Vec<u8>, i: usize) -> (r: u64)
    requires
        i + 8 <= b@.len(),
    ensures
        r == le_u64(b@, i as int),
{
    let n = b.len();
    assert(i + 8 <= n);
    let lo = read_le_u32(b, i) as u64;
    let hi = read_le_u32(b, i + 4) as u64;
    assert(lo <= 4294967295 && hi <= 4294967295);
    lo + hi * 4294967296
}

fn read_c_string(b: &Vec<u8>, off: u32) -> (r: String)
    ensures
        r@ == c_string_at(b@, off as int),
{
    let n = b.len();
    if off == 0 || off as usize >= n {
        return String::new();
    }
    let start = off as usize;
    let mut end = start;
    while end < n && b[end] != 0
        invariant
            n == b@.len(),
            start <= end <= n,
            nul_end(b@, start as int) == nul_end(b@, end as int),
        decreases n - end,
    {
        end = end + 1;
    }
    let t = lossy_text(b, start, end);
    crate::text::trim_string(t.as_str())
}

/// Identification texts of a storage device descriptor.
#[derive(Clone, Debug)]
pub struct DeviceDescriptor {
    /// Vendor text.
    pub vendor: String,
    /// Product text.
    pub product: String,
    /// Firmware revision text.
    pub firmware: String,
    /// Serial number text.
    pub serial: String,
    /// Storage bus type code.
    pub bus_type_code: u32,
}

/// The descriptor parse is owed: the query succeeded and returned at least
/// the 28 bytes that hold the string offsets.
pub open spec fn descriptor_available(ok: bool, bytes_returned: u32) -> bool {
    ok && bytes_returned >= 28
}

/// Parses a storage device descriptor query result: the texts at the
/// offsets stored at bytes 12, 16, 20 and 24 and the bus type at byte 28;
/// `None` when the query failed or returned fewer than 28 bytes.
pub fn parse_device_descriptor(ok: bool, bytes_returned: u32, buf: &Vec<u8>) -> (r: Option<DeviceDescriptor>)
    requires
        buf@.len() >= 32,
    ensures
        r is Some <==> descriptor_available(ok, bytes_returned),
        r matches Some(d) ==> {
            &&& d.vendor@ == c_string_at(buf@, le_u32(buf@, 12))
            &&& d.product@ == c_string_at(buf@, le_u32(buf@, 16))
            &&& d.firmware@ == c_string_at(buf@, le_u32(buf@, 20))
            &&& d.serial@ == c_string_at(buf@, le_u32(buf@, 24))
            &&& d.bus_type_code == le_u32(buf@, 28)
        },
{
    if !ok || bytes_returned < 28 {
        return None;
    }
    let vendor = read_c_string(buf, read_le_u32(buf, 12));
    let product = read_c_string(buf, read_le_u32(buf, 16));
    let firmware = read_c_string(buf, read_le_u32(buf, 20));
    let serial = read_c_string(buf, read_le_u32(buf, 24));
    let bus_type_code = read_le_u32(buf, 28);
    Some(DeviceDescriptor { vendor, product, firmware, serial, bus_type_code })
}

/// The disk size stored at byte 24 of a drive geometry query result, when
/// the query succeeded, returned at least 32 bytes and the size is not zero.
pub fn disk_size_from_geometry(ok: bool, bytes_returned: u32, buf: &Vec<u8>) -> (r: Option<u64>)
    requires
        buf@.len() >= 32,
    ensures
        r == (if ok && bytes_returned >= 32 && le_u64(buf@, 24) > 0 {
            Some(le_u64(buf@, 24) as u64)
        } else {
            None::<u64>
        }),
{
    if ok && bytes_returned >= 32 {
        let size = read_le_u64(buf, 24);
        if size > 0 {
            return Some(size);
        }
    }
    None
}

/// The number of the disk that holds a volume, from a volume disk extents
/// query result: the disk number of the first extent (byte 8), when the
/// query succeeded, returned at least 12 bytes and lists an extent.
pub fn disk_number_from_extents(ok: bool, bytes_returned: u32, buf: &Vec<u8>) -> (r: Option<u32>)
    requires
        buf@.len() >= 12,
    ensures
        r == (if ok && bytes_returned >= 12 && le_u32(buf@, 0) >= 1 {
            Some(le_u32(buf@, 8) as u32)
        } else {
            None::<u32>
        }),
{
    if ok && bytes_returned >= 12 {
        let count = read_le_u32(buf, 0);
        if count >= 1 {
            return Some(read_le_u32(buf, 8));
        }
    }
    None
}

// ---------------------------------------------------------------------------
// Drive naming
// ---------------------------------------------------------------------------

/// The vendor text cleaned: trimmed, leading `ATA ` copies removed,
/// underscores stripped from both ends, trimmed again.
pub open spec fn clean_vendor(v: Seq<char>) -> Seq<char> {
    crate::text::trim_ws(crate::text::trim_class(
        crate::text::strip_prefixes(crate::text::trim_ws(v), "ATA "@),
        crate::text::CharClass::Underscore,
    ))
}

/// The product text cleaned: trimmed, underscores stripped from both ends,
/// trimmed again.
pub open spec fn clean_product(p: Seq<char>) -> Seq<char> {
    crate::text::trim_ws(crate::text::trim_class(crate::text::trim_ws(p), crate::text::CharClass::Underscore))
}

/// The model name of drive number `idx`: vendor and product when the
/// product does not already name the vendor, else the product, else the
/// vendor, else a numbered placeholder; a bare `ATA` vendor is ignored.
pub open spec fn drive_model_for(vendor: Seq<char>, product: Seq<char>, idx: u32) -> Seq<char> {
    let vc = clean_vendor(vendor);
    let pc = clean_product(product);
    if pc.len() > 0 {
        if vc.len() > 0 && !contains_seq(lowercase(pc), lowercase(vc)) && vc != "ATA"@ {
            vc + seq![' '] + pc
        } else {
            pc
        }
    } else if vc.len() > 0 && vc != "ATA"@ {
        vc
    } else {
        "Physical Drive #"@ + decimal(idx as nat)
    }
}

fn clean_vendor_text(v: &str) -> (r: String)
    ensures
        r@ == clean_vendor(v@),
{
    let c = chars_of(v);
    let t = crate::text::trim_chars(&c, crate::text::CharClass::Whitespace);
    let ata = chars_of("ATA ");
    let s = crate::text::strip_prefix_repeatedly(&t, &ata);
    let u = crate::text::trim_chars(&s, crate::text::CharClass::Underscore);
    let w = crate::text::trim_chars(&u, crate::text::CharClass::Whitespace);
    crate::text::string_from_chars(&w, 0, w.len())
}

fn clean_product_text(p: &str) -> (r: String)
    ensures
        r@ == clean_product(p@),
{
    let c = chars_of(p);
    let t = crate::text::trim_chars(&c, crate::text::CharClass::Whitespace);
    let u = crate::text::trim_chars(&t, crate::text::CharClass::Underscore);
    let w = crate::text::trim_chars(&u, crate::text::CharClass::Whitespace);
    crate::text::string_from_chars(&w, 0, w.len())
}

/// Composes the model name of drive number `idx` from the descriptor's
/// vendor and product texts.
pub fn drive_model(vendor: &str, product: &str, idx: u32) -> (r: String)
    ensures
        r@ == drive_model_for(vendor@, product@, idx),
{
    let vc = clean_vendor_text(vendor);
    let pc = clean_product_text(product);
    if !pc.as_str().is_empty() {
        if !vc.as_str().is_empty() && {
            let pl = to_lowercase(pc.as_str());
            let vl = to_lowercase(vc.as_str());
            !crate::text::str_contains(pl.as_str(), vl.as_str())
        } && !crate::text::str_eq(vc.as_str(), "ATA") {
            let mut m = vc.clone();
            crate::text::push_char(&mut m, ' ');
            m.append(pc.as_str());
            m
        } else {
            pc
        }
    } else if !vc.as_str().is_empty() && !crate::text::str_eq(vc.as_str(), "ATA") {
        vc
    } else {
        let mut m = owned("Physical Drive #");
        push_decimal(&mut m, idx as u64);
        m
    }
}

/// The bus name for a storage bus type code.
pub open spec fn bus_type_for(code: u32) -> Seq<char> {
    if code == 3 || code == 11 { "SATA"@ }
    else if code == 7 { "USB"@ }
    else if code == 8 { "RAID"@ }
    else if code == 17 { "NVMe"@ }
    else { "NVMe / SSD"@ }
}

/// Names the storage bus of a bus type code.
pub fn bus_type_name(code: u32) -> (r: &'static str)
    ensures
        r@ == bus_type_for(code),
{
    if code == 3 || code == 11 { "SATA" }
    else if code == 7 { "USB" }
    else if code == 8 { "RAID" }
    else if code == 17 { "NVMe" }
    else { "NVMe / SSD" }
}

/// `s`, or `N/D` when it is empty.
pub open spec fn or_not_available(s: Seq<char>) -> Seq<char> {
    if s.len() == 0 { "N/D"@ } else { s }
}

fn text_or_not_available(s: &String) -> (r: String)
    ensures
        r@ == or_not_available(s@),
{
    if s.as_str().is_empty() { owned("N/D") } else { s.clone() }
}

impl PhysicalDriveInfo {
    /// Describes drive number `idx` from its device descriptor: model from
    /// vendor and product, bus-based interface, form factor and technology,
    /// `N/D` for missing serial and firmware, zero readings, and the
    /// attribute table and warnings for them.
    pub fn from_descriptor(d: &DeviceDescriptor, idx: u32, capacity_bytes: u64, partitions: Vec<PartitionInfo>) -> (r: PhysicalDriveInfo)
        ensures
            r.capacity_bytes == capacity_bytes,
            r.partitions@ == partitions@,
            r.model@ == drive_model_for(d.vendor@, d.product@, idx),
            r.serial@ == or_not_available(d.serial@),
            r.firmware@ == or_not_available(d.firmware@),
            (r.interface@, r.form_factor@, r.technology@)
                == storage_specs_for(lowercase(model_bus_text(r.model@, bus_type_for(d.bus_type_code)))),
            r.health_status@ == "Dados S.M.A.R.T. indisponíveis"@,
            r.temperature_decidegrees == 0,
            r.reallocated_sectors == 0,
            r.wear_level_decipercent == 0,
            r.unsafe_shutdowns == 0,
            r.crc_errors == 0,
            r.power_on_hours == 0,
            r.power_cycles == 0,
            r.total_host_writes_tenths_tb == 0,
            r.total_host_reads_tenths_tb == 0,
            smart_consistent(r),
    {
        let model = drive_model(d.vendor.as_str(), d.product.as_str(), idx);
        let bus = bus_type_name(d.bus_type_code);
        let (interface, form_factor, technology) = deduce_storage_specs(model.as_str(), bus);
        let mut drive = PhysicalDriveInfo {
            model,
            serial: text_or_not_available(&d.serial),
            firmware: text_or_not_available(&d.firmware),
            interface,
            form_factor,
            technology,
            health_status: owned("Dados S.M.A.R.T. indisponíveis"),
            temperature_decidegrees: 0,
            reallocated_sectors: 0,
            wear_level_decipercent: 0,
            unsafe_shutdowns: 0,
            crc_errors: 0,
            power_on_hours: 0,
            power_cycles: 0,
            total_host_writes_tenths_tb: 0,
            total_host_reads_tenths_tb: 0,
            smart_attributes: Vec::new(),
            diagnostic_warnings: Vec::new(),
            capacity_bytes,
            partitions,
        };
        drive.build_smart_attributes_and_warnings();
        drive
    }
}

/// The device path of physical drive number `idx` (`\\.\PhysicalDriveN`).
pub open spec fn physical_drive_path_for(idx: u32) -> Seq<char> {
    "\\\\.\\PhysicalDrive"@ + decimal(idx as nat)
}

/// Formats the device path of physical drive number `idx`.
pub fn physical_drive_path(idx: u32) -> (r: String)
    ensures
        r@ == physical_drive_path_for(idx),
{
    let mut p = owned("\\\\.\\PhysicalDrive");
    push_decimal(&mut p, idx as u64);
    p
}

/// The device path of the volume mounted at `mount`: the mount point
/// without trailing path separators after `\\.\`; none when nothing is left.
pub open spec fn volume_path_for(mount: Seq<char>) -> Option<Seq<char>> {
    let clean = crate::text::trim_end_class(mount, crate::text::CharClass::PathSeparator);
    if clean.len() == 0 { None } else { Some("\\\\.\\"@ + clean) }
}

/// Formats the device path of the volume mounted at `mount`.
pub fn volume_device_path(mount: &str) -> (r: Option<String>)
    ensures
        r matches Some(p) ==> volume_path_for(mount@) == Some(p@),
        r is None <==> volume_path_for(mount@) is None,
{
    let c = chars_of(mount);
    let t = crate::text::trim_end_chars(&c, crate::text::CharClass::PathSeparator);
    if t.len() == 0 {
        return None;
    }
    let mut p = owned("\\\\.\\");
    let tail = crate::text::string_from_chars(&t, 0, t.len());
    p.append(tail.as_str());
    Some(p)
}

/// A volume belongs to physical drive `drive_idx` when its disk number is
/// that index; a volume whose disk is unknown is placed on drive 0.
pub open spec fn on_drive(disk: Option<u32>, drive_idx: u32) -> bool {
    match disk {
        Some(n) => n == drive_idx,
        None => drive_idx == 0,
    }
}

/// Tells whether a volume belongs to physical drive `drive_idx`.
pub fn partition_on_drive(disk: Option<u32>, drive_idx: u32) -> (r: bool)
    ensures
        r == on_drive(disk, drive_idx),
{
    match disk {
        Some(n) => n == drive_idx,
        None => drive_idx == 0,
    }
}

/// Indices of the volumes that belong to drive `drive_idx`, in order.
pub open spec fn drive_partition_indices_for(disks: Seq<Option<u32>>, drive_idx: u32) -> Seq<usize>
    decreases disks.len(),
{
    if disks.len() == 0 {
        seq![]
    } else {
        let prev = drive_partition_indices_for(disks.drop_last(), drive_idx);
        if on_drive(disks.last(), drive_idx) { prev.push((disks.len() - 1) as usize) } else { prev }
    }
}

/// Selects, in order, the volumes (given by their disk numbers, `None`
/// when unknown) that belong to drive `drive_idx`.
pub fn drive_partition_indices(disks: &Vec<Option<u32>>, drive_idx: u32) -> (r: Vec<usize>)
    ensures
        r@ == drive_partition_indices_for(disks@, drive_idx),
{
    let mut r: Vec<usize> = Vec::new();
    let n = disks.len();
    let mut i: usize = 0;
    while i < n
        invariant
            n == disks@.len(),
            i <= n,
            r@ == drive_partition_indices_for(disks@.subrange(0, i as int), drive_idx),
        decreases n - i,
    {
        assert(disks@.subrange(0, i + 1).drop_last() =~= disks@.subrange(0, i as int));
        assert(disks@.subrange(0, i + 1).last() == disks@[i as int]);
        if partition_on_drive(disks[i], drive_idx) {
            r.push(i);
        }
        i = i + 1;
    }
    assert(disks@.subrange(0, n as int) =~= disks@);
    r
}

/// The volumes of drive `drive_idx`, in order, given the disk number of each
/// volume (`None` when unknown).
pub open spec fn drive_partitions_for(
    all: Seq<PartitionInfoView>,
    disks: Seq<Option<u32>>,
    drive_idx: u32,
) -> Seq<PartitionInfoView> {
    drive_partition_indices_for(disks, drive_idx).map_values(|j: usize| all[j as int])
}

/// Copies, in order, the volumes that belong to drive `drive_idx`;
/// `disks[k]` is the disk number of volume `k`.
pub fn select_partitions(all: &Vec<PartitionInfo>, disks: &Vec<Option<u32>>, drive_idx: u32) -> (r: Vec<PartitionInfo>)
    requires
        all@.len() == disks@.len(),
    ensures
        partition_views(r@) == drive_partitions_for(partition_views(all@), disks@, drive_idx),
{
    let idx = drive_partition_indices(disks, drive_idx);
    let n = disks.len();
    proof {
        assert(disks@.len() == n);
        lemma_partition_indices_sound(disks@, drive_idx);
    }
    let ghost target = drive_partitions_for(partition_views(all@), disks@, drive_idx);
    let mut out: Vec<PartitionInfo> = Vec::new();
    let mut k: usize = 0;
    while k < idx.len()
        invariant
            k <= idx@.len(),
            idx@ == drive_partition_indices_for(disks@, drive_idx),
            all@.len() == disks@.len(),
            target == drive_partitions_for(partition_views(all@), disks@, drive_idx),
            forall|m: int| 0 <= m < idx@.len() ==> #[trigger] idx@[m] < disks@.len(),
            partition_views(out@) == target.subrange(0, k as int),
        decreases idx.len() - k,
    {
        let j = idx[k];
        assert(j < disks@.len());
        let c = all[j].duplicate();
        let ghost before = out@;
        out.push(c);
        proof {
            assert(partition_views(out@) == partition_views(before).push(c@));
            assert(target[k as int] == partition_views(all@)[j as int]);
            assert(target.subrange(0, k as int + 1) == target.subrange(0, k as int).push(target[k as int]));
        }
        k = k + 1;
    }
    assert(target.subrange(0, idx@.len() as int) == target);
    out
}

/// Sum of the capacities of the volumes.
pub open spec fn total_bytes_sum(v: Seq<PartitionInfoView>) -> int
    decreases v.len(),
{
    if v.len() == 0 { 0 } else { total_bytes_sum(v.drop_last()) + v.last().total_bytes }
}

/// The capacity of a drive: the length it reports when that is not zero,
/// else the size from its geometry when that is not zero, else the sum of
/// its volumes' capacities (at most `u64::MAX`).
pub open spec fn drive_capacity_for(
    length: Option<u64>,
    geometry: Option<u64>,
    parts: Seq<PartitionInfoView>,
) -> int {
    if length is Some && length->0 > 0 {
        length->0 as int
    } else if geometry is Some && geometry->0 > 0 {
        geometry->0 as int
    } else if total_bytes_sum(parts) <= u64::MAX {
        total_bytes_sum(parts)
    } else {
        u64::MAX as int
    }
}

/// Computes the capacity of a drive from its length query (`None` when it
/// failed), its geometry size and its volumes.
pub fn drive_capacity_bytes(length: Option<u64>, geometry: Option<u64>, parts: &Vec<PartitionInfo>) -> (r: u64)
    ensures
        r == drive_capacity_for(length, geometry, partition_views(parts@)),
{
    if let Some(n) = length {
        if n > 0 {
            return n;
        }
    }
    if let Some(g) = geometry {
        if g > 0 {
            return g;
        }
    }
    let mut sum: u64 = 0;
    let mut capped = false;
    let mut i: usize = 0;
    while i < parts.len()
        invariant
            i <= parts@.len(),
            !capped ==> sum == total_bytes_sum(partition_views(parts@.subrange(0, i as int))),
            capped ==> sum == u64::MAX && total_bytes_sum(partition_views(parts@.subrange(0, i as int))) > u64::MAX,
        decreases parts.len() - i,
    {
        let ghost pre = partition_views(parts@.subrange(0, i as int));
        let ghost next = partition_views(parts@.subrange(0, i as int + 1));
        assert(next.drop_last() == pre);
        assert(next.last() == parts@[i as int]@);
        let t = parts[i].total_bytes;
        if !capped {
            match sum.checked_add(t) {
                Some(v) => {
                    sum = v;
                },
                None => {
                    sum = u64::MAX;
                    capped = true;
                },
            }
        }
        i = i + 1;
    }
    assert(parts@.subrange(0, parts@.len() as int) == parts@);
    sum
}

/// Everything known of the machine's storage.
#[derive(Debug, Clone)]
pub struct StorageInfo {
    /// Physical drives.
    pub drives: Vec<PhysicalDriveInfo>,
    /// All mounted volumes.
    pub all_partitions: Vec<PartitionInfo>,
}

impl Default for StorageInfo {
    /// No drives and no volumes.
    fn default() -> (r: StorageInfo)
        ensures
            r.drives@.len() == 0,
            r.all_partitions@.len() == 0,
    {
        StorageInfo { drives: Vec::new(), all_partitions: Vec::new() }
    }
}

impl StorageInfo {
    /// Puts the storage description together from the volumes and the
    /// drives that could be identified; without any, a single unidentified
    /// drive holds all the volumes.
    pub fn assemble(all_partitions: Vec<PartitionInfo>, detected: Vec<PhysicalDriveInfo>) -> (r: StorageInfo)
        ensures
            r.all_partitions@ == all_partitions@,
            r.drives@.len() >= 1,
            detected@.len() > 0 ==> r.drives@ == detected@,
            detected@.len() == 0 ==> {
                &&& r.drives@.len() == 1
                &&& is_unidentified_drive(r.drives@[0])
                &&& smart_consistent(r.drives@[0])
                &&& partition_views(r.drives@[0].partitions@) == partition_views(all_partitions@)
            },
    {
        if detected.len() > 0 {
            StorageInfo { drives: detected, all_partitions }
        } else {
            let mut d = PhysicalDriveInfo::default();
            d.partitions = duplicate_partitions(&all_partitions);
            d.build_smart_attributes_and_warnings();
            let mut drives: Vec<PhysicalDriveInfo> = Vec::new();
            drives.push(d);
            StorageInfo { drives, all_partitions }
        }
    }
}

/// Storage medium reported for a volume by the operating system.
#[derive(Debug, Clone, Copy, PartialEq, Eq, Structural)]
pub enum DiskKindField {
    /// Solid-state drive.
    Ssd,
    /// Hard disk drive.
    Hdd,
    /// Unknown medium.
    Unknown,
}

/// The medium text of a volume.
pub open spec fn disk_kind_text_for(k: DiskKindField) -> Seq<char> {
    match k {
        DiskKindField::Ssd => "SSD"@,
        DiskKindField::Hdd => "HDD"@,
        DiskKindField::Unknown => "NVMe / SSD"@,
    }
}

/// Names the medium of a volume.
pub fn disk_kind_text(k: DiskKindField) -> (r: &'static str)
    ensures
        r@ == disk_kind_text_for(k),
{
    match k {
        DiskKindField::Ssd => "SSD",
        DiskKindField::Hdd => "HDD",
        DiskKindField::Unknown => "NVMe / SSD",
    }
}

// ---------------------------------------------------------------------------
// Throughput benchmark access pattern
// ---------------------------------------------------------------------------

/// Size of the benchmark file in MiB.
pub const BENCH_FILE_SIZE_MB: usize = 64;
/// Sequential block size in bytes.
pub const BENCH_CHUNK_SIZE_1MB: usize = 1048576;
/// Random block size in bytes.
pub const BENCH_CHUNK_SIZE_4K: usize = 4096;
/// Number of random blocks per random stage.
pub const BENCH_CHUNKS_4K_COUNT: usize = 4000;

/// Offset of the `i`-th random 4 KiB access: a stride of 7919 bytes,
/// wrapped so that the block stays inside the benchmark file.
pub open spec fn random_offset_for(i: int) -> int {
    (i * 7919) % (64 * 1048576 - 4096)
}

/// Computes the offset of the `i`-th random 4 KiB access.
pub fn random_4k_offset(i: usize) -> (r: u64)
    requires
        i < BENCH_CHUNKS_4K_COUNT,
    ensures
        r == random_offset_for(i as int),
        r + BENCH_CHUNK_SIZE_4K <= BENCH_FILE_SIZE_MB * BENCH_CHUNK_SIZE_1MB,
{
    ((i * 7919) % (BENCH_FILE_SIZE_MB * BENCH_CHUNK_SIZE_1MB - BENCH_CHUNK_SIZE_4K)) as u64
}

/// Progress is published for block `i` of `total` every `every` blocks and
/// for the last block.
pub open spec fn reports_progress_at(i: int, every: int, total: int) -> bool {
    i % every == 0 || i == total - 1
}

/// Tells whether progress is published after block `i`.
pub fn reports_progress(i: usize, every: usize, total: usize) -> (r: bool)
    requires
        every > 0,
        total > 0,
    ensures
        r == reports_progress_at(i as int, every as int, total as int),
{
    i % every == 0 || i == total - 1
}

/// Where a stage's progress starts, how much of the whole it covers (both
/// in thousandths) and how many blocks it moves.
pub open spec fn stage_plan(stage: DiskBenchmarkStage) -> (int, int, int) {
    match stage {
        DiskBenchmarkStage::SeqWrite => (100, 200, 64),
        DiskBenchmarkStage::SeqRead => (350, 200, 64),
        DiskBenchmarkStage::RndWrite4k => (600, 200, 4000),
        DiskBenchmarkStage::RndRead4k => (820, 180, 4000),
    }
}

/// Number of blocks a stage moves.
pub fn stage_blocks(stage: DiskBenchmarkStage) -> (r: usize)
    ensures
        r == stage_plan(stage).2,
{
    match stage {
        DiskBenchmarkStage::SeqWrite | DiskBenchmarkStage::SeqRead => BENCH_FILE_SIZE_MB,
        DiskBenchmarkStage::RndWrite4k | DiskBenchmarkStage::RndRead4k => BENCH_CHUNKS_4K_COUNT,
    }
}

/// How a stage moves its blocks.
#[derive(Debug, Clone, Copy, PartialEq, Eq)]
pub struct StageIo {
    /// Blocks are written (else read back).
    pub writes: bool,
    /// Blocks follow each other (else they go to pseudo-random offsets).
    pub sequential: bool,
    /// Bytes per block.
    pub block_size: usize,
    /// Progress is published every this many blocks (and after the last).
    pub report_every: usize,
    /// Byte the written blocks are filled with (0 for reads).
    pub fill_byte: u8,
    /// Bytes the stage moves in all.
    pub total_bytes: u64,
}

/// The input/output plan of a stage: 64 sequential 1 MiB blocks filled with
/// 0x5A then read back, 4000 random 4 KiB blocks filled with 0xA5 then read
/// back; progress every 4 sequential or 200 random blocks.
pub open spec fn stage_io_for(stage: DiskBenchmarkStage) -> StageIo {
    match stage {
        DiskBenchmarkStage::SeqWrite => StageIo {
            writes: true, sequential: true, block_size: 1048576, report_every: 4, fill_byte: 0x5A, total_bytes: 67108864,
        },
        DiskBenchmarkStage::SeqRead => StageIo {
            writes: false, sequential: true, block_size: 1048576, report_every: 4, fill_byte: 0, total_bytes: 67108864,
        },
        DiskBenchmarkStage::RndWrite4k => StageIo {
            writes: true, sequential: false, block_size: 4096, report_every: 200, fill_byte: 0xA5, total_bytes: 16384000,
        },
        DiskBenchmarkStage::RndRead4k => StageIo {
            writes: false, sequential: false, block_size: 4096, report_every: 200, fill_byte: 0, total_bytes: 16384000,
        },
    }
}

/// The input/output plan of a stage.
pub fn stage_io(stage: DiskBenchmarkStage) -> (r: StageIo)
    ensures
        r == stage_io_for(stage),
        r.total_bytes == r.block_size * stage_plan(stage).2,
{
    match stage {
        DiskBenchmarkStage::SeqWrite => StageIo {
            writes: true, sequential: true, block_size: 1048576, report_every: 4, fill_byte: 0x5A, total_bytes: 67108864,
        },
        DiskBenchmarkStage::SeqRead => StageIo {
            writes: false, sequential: true, block_size: 1048576, report_every: 4, fill_byte: 0, total_bytes: 67108864,
        },
        DiskBenchmarkStage::RndWrite4k => StageIo {
            writes: true, sequential: false, block_size: 4096, report_every: 200, fill_byte: 0xA5, total_bytes: 16384000,
        },
        DiskBenchmarkStage::RndRead4k => StageIo {
            writes: false, sequential: false, block_size: 4096, report_every: 200, fill_byte: 0, total_bytes: 16384000,
        },
    }
}

/// Overall progress, in thousandths, after block `i` of a stage (rounded
/// down).
pub open spec fn stage_progress_for(stage: DiskBenchmarkStage, i: int) -> int {
    stage_plan(stage).0 + i * stage_plan(stage).1 / stage_plan(stage).2
}

/// Computes the overall progress after block `i` of a stage.
pub fn stage_progress(stage: DiskBenchmarkStage, i: usize) -> (r: u32)
    requires
        i < stage_plan(stage).2,
    ensures
        r == stage_progress_for(stage, i as int),
        r < 1000,
{
    let (start, span, blocks): (u32, u32, u32) = match stage {
        DiskBenchmarkStage::SeqWrite => (100, 200, 64),
        DiskBenchmarkStage::SeqRead => (350, 200, 64),
        DiskBenchmarkStage::RndWrite4k => (600, 200, 4000),
        DiskBenchmarkStage::RndRead4k => (820, 180, 4000),
    };
    let ii = i as u32;
    let step = ii * span / blocks;
    assert(step < span) by (nonlinear_arith)
        requires step == (ii as int) * (span as int) / (blocks as int), ii < blocks, blocks > 0, span > 0;
    start + step
}

/// Execution status of the storage benchmark; progress in thousandths.
#[derive(Debug, Clone, Copy, PartialEq, Eq)]
pub enum DiskBenchmarkStatus {
    /// Idle.
    Idle,
    /// Running a stage.
    Running {
        /// The stage.
        stage: DiskBenchmarkStage,
        /// Overall progress, 0 to 1000.
        progress_permille: u32,
    },
    /// Finished; results are available.
    Finished,
}

/// Results of the storage benchmark; speeds in tenths of MiB/s.
#[derive(Debug, Clone, Copy, PartialEq, Eq)]
pub struct DiskBenchmarkResult {
    /// Sequential read speed.
    pub seq_read_tenths: u64,
    /// Sequential write speed.
    pub seq_write_tenths: u64,
    /// Random 4 KiB read speed.
    pub rnd_read_tenths: u64,
    /// Random 4 KiB read operations per second.
    pub rnd_read_iops: u64,
    /// Random 4 KiB write speed.
    pub rnd_write_tenths: u64,
    /// Random 4 KiB write operations per second.
    pub rnd_write_iops: u64,
}

impl Default for DiskBenchmarkResult {
    /// All results zero.
    fn default() -> (r: DiskBenchmarkResult)
        ensures
            r == (DiskBenchmarkResult {
                seq_read_tenths: 0,
                seq_write_tenths: 0,
                rnd_read_tenths: 0,
                rnd_read_iops: 0,
                rnd_write_tenths: 0,
                rnd_write_iops: 0,
            }),
    {
        DiskBenchmarkResult {
            seq_read_tenths: 0,
            seq_write_tenths: 0,
            rnd_read_tenths: 0,
            rnd_read_iops: 0,
            rnd_write_tenths: 0,
            rnd_write_iops: 0,
        }
    }
}

/// The measured time, at least one millisecond, in microseconds.
pub open spec fn timed_us(elapsed_us: int) -> int {
    if elapsed_us < 1000 { 1000 } else { elapsed_us }
}

/// Speed in tenths of MiB/s for `bytes` moved in `elapsed_us` microseconds
/// (rounded to the nearest, halves up; the time counts as at least one millisecond).
pub open spec fn throughput_tenths_for(bytes: int, elapsed_us: int) -> int {
    rounded_quotient(bytes * 10000000, 1048576 * timed_us(elapsed_us))
}

/// Computes a speed in tenths of MiB/s.
pub fn throughput_tenths(bytes: u64, elapsed_us: u64) -> (r: u64)
    ensures
        r == throughput_tenths_for(bytes as int, elapsed_us as int),
{
    let t: u64 = if elapsed_us < 1000 { 1000 } else { elapsed_us };
    let num: u128 = (bytes as u128) * 10000000;
    let den: u128 = 1048576 * (t as u128);
    let q = round_div_wide(num, den);
    assert(q <= bytes) by (nonlinear_arith)
        requires q == (2 * (num as int) + den) / (2 * (den as int)), num == (bytes as int) * 10000000,
            den == 1048576 * (t as int), t >= 1000;
    q as u64
}

/// Operations per second for `count` operations in `elapsed_us`
/// microseconds (rounded down; the time counts as at least one millisecond).
pub open spec fn iops_for(count: int, elapsed_us: int) -> int {
    count * 1000000 / timed_us(elapsed_us)
}

/// Computes operations per second; a count too large for 64 bits gives
/// `u64::MAX`.
pub fn iops(count: u64, elapsed_us: u64) -> (r: u64)
    ensures
        r == (if iops_for(count as int, elapsed_us as int) <= u64::MAX {
            iops_for(count as int, elapsed_us as int)
        } else {
            u64::MAX as int
        }),
{
    let t: u64 = if elapsed_us < 1000 { 1000 } else { elapsed_us };
    let num: u128 = (count as u128) * 1000000;
    let q = num / (t as u128);
    if q > u64::MAX as u128 {
        u64::MAX
    } else {
        q as u64
    }
}

// ---------------------------------------------------------------------------
// Benchmark sequencing
// ---------------------------------------------------------------------------

/// The stage that follows `stage`: sequential write, sequential read,
/// random write, random read; `None` after the last.
pub open spec fn next_stage_for(stage: DiskBenchmarkStage) -> Option<DiskBenchmarkStage> {
    match stage {
        DiskBenchmarkStage::SeqWrite => Some(DiskBenchmarkStage::SeqRead),
        DiskBenchmarkStage::SeqRead => Some(DiskBenchmarkStage::RndWrite4k),
        DiskBenchmarkStage::RndWrite4k => Some(DiskBenchmarkStage::RndRead4k),
        DiskBenchmarkStage::RndRead4k => None,
    }
}

/// The first stage of the benchmark.
pub fn first_stage() -> (r: DiskBenchmarkStage)
    ensures
        r == DiskBenchmarkStage::SeqWrite,
{
    DiskBenchmarkStage::SeqWrite
}

/// The stage that follows `stage`.
pub fn next_stage(stage: DiskBenchmarkStage) -> (r: Option<DiskBenchmarkStage>)
    ensures
        r == next_stage_for(stage),
{
    match stage {
        DiskBenchmarkStage::SeqWrite => Some(DiskBenchmarkStage::SeqRead),
        DiskBenchmarkStage::SeqRead => Some(DiskBenchmarkStage::RndWrite4k),
        DiskBenchmarkStage::RndWrite4k => Some(DiskBenchmarkStage::RndRead4k),
        DiskBenchmarkStage::RndRead4k => None,
    }
}

/// What one stage of the storage benchmark found.
#[derive(Debug, Clone, Copy, PartialEq, Eq)]
pub enum DiskStageOutcome {
    /// The stage ran: the bytes it moved and the microseconds it took.
    Measured {
        /// Bytes moved.
        bytes: u64,
        /// Microseconds taken.
        elapsed_us: u64,
    },
    /// The benchmark file could not be opened; the stage gives no result.
    Skipped,
    /// The user cancelled.
    Cancelled,
}

/// What the benchmark does after a stage.
#[derive(Debug, Clone, Copy, PartialEq, Eq)]
pub enum DiskBenchStep {
    /// Run this stage next.
    Run(DiskBenchmarkStage),
    /// All stages are done: remove the file and publish the results.
    Finish,
    /// Cancelled: remove the file and go back to idle.
    Abort,
}

/// Operations per second, `u64::MAX` when too large.
pub open spec fn iops_capped(count: int, elapsed_us: int) -> u64 {
    if iops_for(count, elapsed_us) <= u64::MAX { iops_for(count, elapsed_us) as u64 } else { u64::MAX }
}

/// The results after `stage` moved `bytes` in `elapsed_us` microseconds:
/// the stage's speed, and for the random stages the operations per second
/// of its 4000 blocks; the other fields stay.
pub open spec fn recorded_result(r: DiskBenchmarkResult, stage: DiskBenchmarkStage, bytes: u64, elapsed_us: u64)
    -> DiskBenchmarkResult
{
    let speed = throughput_tenths_for(bytes as int, elapsed_us as int) as u64;
    let ops = iops_capped(4000, elapsed_us as int);
    match stage {
        DiskBenchmarkStage::SeqWrite => DiskBenchmarkResult { seq_write_tenths: speed, ..r },
        DiskBenchmarkStage::SeqRead => DiskBenchmarkResult { seq_read_tenths: speed, ..r },
        DiskBenchmarkStage::RndWrite4k => DiskBenchmarkResult { rnd_write_tenths: speed, rnd_write_iops: ops, ..r },
        DiskBenchmarkStage::RndRead4k => DiskBenchmarkResult { rnd_read_tenths: speed, rnd_read_iops: ops, ..r },
    }
}

/// The step after a stage with the given outcome: abort when cancelled,
/// else the next stage, or finish after the last.
pub open spec fn step_after_for(stage: DiskBenchmarkStage, outcome: DiskStageOutcome) -> DiskBenchStep {
    match outcome {
        DiskStageOutcome::Cancelled => DiskBenchStep::Abort,
        _ => match next_stage_for(stage) {
            Some(n) => DiskBenchStep::Run(n),
            None => DiskBenchStep::Finish,
        },
    }
}

impl DiskBenchmarkResult {
    /// Records what `stage` measured.
    pub fn record_stage(&mut self, stage: DiskBenchmarkStage, bytes: u64, elapsed_us: u64)
        ensures
            *final(self) == recorded_result(*old(self), stage, bytes, elapsed_us),
    {
        let speed = throughput_tenths(bytes, elapsed_us);
        match stage {
            DiskBenchmarkStage::SeqWrite => self.seq_write_tenths = speed,
            DiskBenchmarkStage::SeqRead => self.seq_read_tenths = speed,
            DiskBenchmarkStage::RndWrite4k => {
                self.rnd_write_tenths = speed;
                self.rnd_write_iops = iops(BENCH_CHUNKS_4K_COUNT as u64, elapsed_us);
            },
            DiskBenchmarkStage::RndRead4k => {
                self.rnd_read_tenths = speed;
                self.rnd_read_iops = iops(BENCH_CHUNKS_4K_COUNT as u64, elapsed_us);
            },
        }
    }
}

/// Takes in the outcome of a stage: records a measurement in the results,
/// and says what the benchmark does next.
pub fn advance_benchmark(result: &mut DiskBenchmarkResult, stage: DiskBenchmarkStage, outcome: DiskStageOutcome)
    -> (step: DiskBenchStep)
    ensures
        step == step_after_for(stage, outcome),
        *final(result) == (match outcome {
            DiskStageOutcome::Measured { bytes, elapsed_us } => recorded_result(*old(result), stage, bytes, elapsed_us),
            _ => *old(result),
        }),
{
    match outcome {
        DiskStageOutcome::Cancelled => {
            return DiskBenchStep::Abort;
        },
        DiskStageOutcome::Skipped => {},
        DiskStageOutcome::Measured { bytes, elapsed_us } => {
            result.record_stage(stage, bytes, elapsed_us);
        },
    }
    match next_stage(stage) {
        Some(n) => DiskBenchStep::Run(n),
        None => DiskBenchStep::Finish,
    }
}

// ---------------------------------------------------------------------------
// Laws
// ---------------------------------------------------------------------------

/// The attribute table always has ten entries.
pub proof fn lemma_smart_table_size(d: PhysicalDriveInfo)
    ensures
        smart_attributes_for(d).len() == 10,
{
}

/// The diagnostics are never empty: either the single all-clear message,
/// when no threshold is crossed, or one alert per crossed threshold.
pub proof fn lemma_diagnostics_shape(d: PhysicalDriveInfo)
    ensures
        diagnostic_warnings_for(d).len() >= 1,
        (raised_warnings(d).len() == 0) <==> (d.reallocated_sectors == 0 && d.temperature_decidegrees < 650
            && d.wear_level_decipercent > 150 && d.crc_errors == 0),
        raised_warnings(d).len() == 0 ==> diagnostic_warnings_for(d).len() == 1,
{
}

/// A drive model name is never empty.
pub proof fn lemma_drive_model_nonempty(vendor: Seq<char>, product: Seq<char>, idx: u32)
    ensures
        drive_model_for(vendor, product, idx).len() > 0,
{
}

/// Every random access of the benchmark stays inside the test file.
pub proof fn lemma_random_offsets_in_file(i: int)
    requires
        0 <= i,
    ensures
        0 <= random_offset_for(i),
        random_offset_for(i) + 4096 <= 64 * 1048576,
{
}

/// The volumes selected for a drive are distinct, increasing positions of
/// volumes that belong to it.
pub proof fn lemma_partition_indices_sound(disks: Seq<Option<u32>>, drive_idx: u32)
    requires
        disks.len() <= usize::MAX,
    ensures
        forall|k: int| 0 <= k < drive_partition_indices_for(disks, drive_idx).len() ==> {
            let j = #[trigger] drive_partition_indices_for(disks, drive_idx)[k];
            &&& j < disks.len()
            &&& on_drive(disks[j as int], drive_idx)
        },
        forall|a: int, b: int| 0 <= a < b < drive_partition_indices_for(disks, drive_idx).len() ==>
            drive_partition_indices_for(disks, drive_idx)[a] < drive_partition_indices_for(disks, drive_idx)[b],
    decreases disks.len(),
{
    if disks.len() > 0 {
        let prev = disks.drop_last();
        lemma_partition_indices_sound(prev, drive_idx);
        let p = drive_partition_indices_for(prev, drive_idx);
        let r = drive_partition_indices_for(disks, drive_idx);
        assert forall|k: int| 0 <= k < p.len() implies #[trigger] p[k] < prev.len() && prev[p[k] as int] == disks[p[k] as int] by {}
        if on_drive(disks.last(), drive_idx) {
            let last: usize = (disks.len() - 1) as usize;
            assert(last == disks.len() - 1);
            assert(r == p.push(last));
            assert(r[p.len() as int] == last);
            assert forall|k: int| 0 <= k < r.len() implies {
                let j = #[trigger] r[k];
                &&& j < disks.len()
                &&& on_drive(disks[j as int], drive_idx)
            } by {
                if k < p.len() {
                    assert(r[k] == p[k]);
                    assert(p[k] < prev.len());
                    assert(prev[p[k] as int] == disks[p[k] as int]);
                } else {
                    assert(k == p.len());
                }
            }
            assert forall|a: int, b: int| 0 <= a < b < r.len() implies r[a] < r[b] by {
                assert(r[a] == p[a]);
                assert(p[a] < prev.len());
                if b < p.len() {
                    assert(r[b] == p[b]);
                } else {
                    assert(r[b] == last);
                }
            }
        } else {
            assert(r == p);
        }
    }
}

/// No volume is selected for two different drives.
pub proof fn lemma_partition_indices_disjoint(disks: Seq<Option<u32>>, a: u32, b: u32, j: usize)
    requires
        disks.len() <= usize::MAX,
        drive_partition_indices_for(disks, a).contains(j),
        drive_partition_indices_for(disks, b).contains(j),
    ensures
        a == b,
{
    lemma_partition_indices_sound(disks, a);
    lemma_partition_indices_sound(disks, b);
    let pa = drive_partition_indices_for(disks, a);
    let pb = drive_partition_indices_for(disks, b);
    let ka = choose|k: int| 0 <= k < pa.len() && pa[k] == j;
    let kb = choose|k: int| 0 <= k < pb.len() && pb[k] == j;
    assert(on_drive(disks[pa[ka] as int], a));
    assert(on_drive(disks[pb[kb] as int], b));
}

/// Every volume that belongs to a drive is selected for it.
pub proof fn lemma_partition_indices_complete(disks: Seq<Option<u32>>, drive_idx: u32, j: int)
    requires
        0 <= j < disks.len(),
        on_drive(disks[j], drive_idx),
    ensures
        drive_partition_indices_for(disks, drive_idx).contains(j as usize),
    decreases disks.len(),
{
    let p = drive_partition_indices_for(disks, drive_idx);
    if j == disks.len() - 1 {
        assert(p.last() == j as usize);
    } else {
        let prev = disks.drop_last();
        assert(prev[j] == disks[j]);
        lemma_partition_indices_complete(prev, drive_idx, j);
        let q = drive_partition_indices_for(prev, drive_idx);
        let k = choose|k: int| 0 <= k < q.len() && q[k] == j as usize;
        assert(p[k] == j as usize);
    }
}

/// The benchmark runs its four stages once each, in the order sequential
/// write, sequential read, random write, random read, unless cancelled.
pub proof fn lemma_stage_order()
    ensures
        next_stage_for(DiskBenchmarkStage::SeqWrite) == Some(DiskBenchmarkStage::SeqRead),
        next_stage_for(DiskBenchmarkStage::SeqRead) == Some(DiskBenchmarkStage::RndWrite4k),
        next_stage_for(DiskBenchmarkStage::RndWrite4k) == Some(DiskBenchmarkStage::RndRead4k),
        next_stage_for(DiskBenchmarkStage::RndRead4k) == None::<DiskBenchmarkStage>,
        forall|s: DiskBenchmarkStage| #[trigger] step_after_for(s, DiskStageOutcome::Cancelled) == DiskBenchStep::Abort,
{
}

/// Published progress never goes back: within a stage it grows with the
/// block, and every progress of a stage is below the start of the next.
pub proof fn lemma_progress_monotonic(stage: DiskBenchmarkStage, i: int, j: int)
    requires
        0 <= i <= j < stage_plan(stage).2,
    ensures
        stage_progress_for(stage, i) <= stage_progress_for(stage, j),
        next_stage_for(stage) matches Some(n) ==> stage_progress_for(stage, j) < stage_progress_for(n, 0),
{
    let (start, span, blocks) = stage_plan(stage);
    assert(i * span / blocks <= j * span / blocks) by (nonlinear_arith)
        requires 0 <= i <= j, span > 0, blocks > 0;
    assert(j * span / blocks < span) by (nonlinear_arith)
        requires 0 <= j < blocks, span > 0, blocks > 0;
}

/// The S.M.A.R.T. table lists, in this order, attributes 05, 09, 0C, E7,
/// AF, B8, BB, C7, 0E and C2. Each threshold attribute is `Normal` exactly
/// on the safe side of its threshold and flagged otherwise:
/// - 05 (reallocated sectors): `Normal` when there is none, else `Crítico`;
/// - E7 (flash life): `Normal` from 20.0 % remaining up, else `Atenção`;
/// - C7 (CRC errors): `Normal` when there is none, else `Atenção`;
/// - C2 (temperature): `Normal` below 65.0 °C, else `Atenção`;
/// the other six are always `Normal`. The readings are shown as values, and
/// attributes 05, E7, AF, B8, BB, 0E and C2 are marked critical.
pub proof fn lemma_smart_attribute_statuses(d: PhysicalDriveInfo)
    ensures
        ({
            let a = smart_attributes_for(d);
            &&& a.len() == 10
            &&& a[0].id == "05"@ && a[1].id == "09"@ && a[2].id == "0C"@ && a[3].id == "E7"@ && a[4].id == "AF"@
            &&& a[5].id == "B8"@ && a[6].id == "BB"@ && a[7].id == "C7"@ && a[8].id == "0E"@ && a[9].id == "C2"@
            &&& d.reallocated_sectors == 0 ==> a[0].status == "Normal"@
            &&& d.reallocated_sectors != 0 ==> a[0].status == "Crítico"@
            &&& a[0].value_str == decimal(d.reallocated_sectors as nat)
            &&& a[1].status == "Normal"@ && a[2].status == "Normal"@
            &&& a[1].value_str == decimal(d.power_on_hours as nat) + " hrs ("@ + decimal((d.power_on_hours / 24) as nat)
                + " dias, "@ + decimal((d.power_on_hours % 24) as nat) + "h)"@
            &&& a[2].value_str == decimal(d.power_cycles as nat) + " vezes"@
            &&& d.wear_level_decipercent >= 200 ==> a[3].status == "Normal"@
            &&& d.wear_level_decipercent < 200 ==> a[3].status == "Atenção"@
            &&& a[4].status == "Normal"@ && a[5].status == "Normal"@ && a[6].status == "Normal"@
            &&& d.crc_errors == 0 ==> a[7].status == "Normal"@
            &&& d.crc_errors != 0 ==> a[7].status == "Atenção"@
            &&& a[7].value_str == decimal(d.crc_errors as nat)
            &&& a[8].status == "Normal"@
            &&& d.temperature_decidegrees < 650 ==> a[9].status == "Normal"@
            &&& d.temperature_decidegrees >= 650 ==> a[9].status == "Atenção"@
            &&& a[0].is_critical && !a[1].is_critical && !a[2].is_critical && a[3].is_critical && a[4].is_critical
            &&& a[5].is_critical && a[6].is_critical && !a[7].is_critical && a[8].is_critical && a[9].is_critical
        }),
{
}

/// One alert is raised per crossed threshold (reallocated sectors, 65.0 °C
/// or more, 15.0 % flash life or less, CRC errors), each naming its
/// reading; the diagnostics are these alerts, or the single all-clear
/// message when there is none.
pub proof fn lemma_alerts_per_threshold(d: PhysicalDriveInfo)
    ensures
        ({
            let w = raised_warnings(d);
            let n = (if d.reallocated_sectors > 0 { 1int } else { 0 }) + (if d.temperature_decidegrees >= 650 { 1int } else { 0 })
                + (if d.wear_level_decipercent <= 150 { 1int } else { 0 }) + (if d.crc_errors > 0 { 1int } else { 0 });
            &&& w.len() == n
            &&& d.reallocated_sectors > 0 ==> w.contains("⚠️ ALERTA CRÍTICO: Detectados "@ + decimal(d.reallocated_sectors as nat)
                + " setores realocados. O disco possui blocos danificados e deve ter backup realizado imediatamente."@)
            &&& d.temperature_decidegrees >= 650 ==> w.contains("⚠️ ALERTA TÉRMICO: Temperatura atual de "@
                + tenths_text(d.temperature_decidegrees as int) + " °C está acima do limite seguro para operação contínua."@)
            &&& d.wear_level_decipercent <= 150 ==> w.contains("⚠️ ALERTA DE DESGASTE: Vida útil da memória Flash em "@
                + rounded_tenths_text(d.wear_level_decipercent as nat) + "%. O drive está próximo do fim da vida útil de escrita."@)
            &&& d.crc_errors > 0 ==> w.contains("⚠️ ALERTA DE INTERFACE: Registrados "@ + decimal(d.crc_errors as nat)
                + " erros de CRC no cabo/slot PCIe. Verifique o encaixe físico da unidade."@)
            &&& n > 0 ==> diagnostic_warnings_for(d) == w
            &&& n == 0 ==> diagnostic_warnings_for(d)
                == seq!["✅ Todos os parâmetros S.M.A.R.T. estão operando 100% dentro dos limites nominais seguros de fábrica."@]
        }),
{
    let a = warn_if(d.reallocated_sectors > 0,
        "⚠️ ALERTA CRÍTICO: Detectados "@ + decimal(d.reallocated_sectors as nat)
            + " setores realocados. O disco possui blocos danificados e deve ter backup realizado imediatamente."@);
    let b = warn_if(d.temperature_decidegrees >= 650,
        "⚠️ ALERTA TÉRMICO: Temperatura atual de "@ + tenths_text(d.temperature_decidegrees as int)
            + " °C está acima do limite seguro para operação contínua."@);
    let c = warn_if(d.wear_level_decipercent <= 150,
        "⚠️ ALERTA DE DESGASTE: Vida útil da memória Flash em "@ + rounded_tenths_text(d.wear_level_decipercent as nat)
            + "%. O drive está próximo do fim da vida útil de escrita."@);
    let e = warn_if(d.crc_errors > 0,
        "⚠️ ALERTA DE INTERFACE: Registrados "@ + decimal(d.crc_errors as nat)
            + " erros de CRC no cabo/slot PCIe. Verifique o encaixe físico da unidade."@);
    let w = raised_warnings(d);
    assert(w == a + b + c + e);
    if d.reallocated_sectors > 0 {
        assert(w[0] == a[0]);
    }
    if d.temperature_decidegrees >= 650 {
        assert(w[a.len() as int] == b[0]);
    }
    if d.wear_level_decipercent <= 150 {
        assert(w[(a.len() + b.len()) as int] == c[0]);
    }
    if d.crc_errors > 0 {
        assert(w[(a.len() + b.len() + c.len()) as int] == e[0]);
    }
}

/// NVMe drives (named NVMe or PCIe, or a known NVMe model) are M.2 2280
/// PCIe 4.0 x4 drives with 3D TLC V-NAND; otherwise SATA drives (named SATA,
/// or a known SATA model) are 2.5-inch SATA III drives with 3D TLC NAND;
/// anything else gets the generic description.
pub proof fn lemma_storage_specs(lower: Seq<char>)
    ensures
        ({
            let r = storage_specs_for(lower);
            let nvme = contains_seq(lower, "nvme"@) || contains_seq(lower, "pcie"@)
                || contains_seq(lower, "990"@) || contains_seq(lower, "980"@) || contains_seq(lower, "970"@)
                || contains_seq(lower, "kc3000"@) || contains_seq(lower, "sn850"@)
                || contains_seq(lower, "sn770"@);
            let sata = contains_seq(lower, "sata"@) || contains_seq(lower, "870"@)
                || contains_seq(lower, "860"@) || contains_seq(lower, "bx500"@) || contains_seq(lower, "mx500"@);
            &&& nvme ==> r == ("NVMe PCIe 4.0 x4 (M-Key)"@, "M.2 2280"@, "3D TLC NAND Flash (V-NAND)"@)
            &&& !(nvme) && sata ==> r == ("SATA III 6.0 Gb/s"@, "2.5-inch 7mm"@, "3D TLC NAND Flash"@)
            &&& !(nvme || sata) ==> r == ("High-Speed Storage Controller"@, "M.2 / SATA"@, "3D NAND Flash"@)
        }),
{
}

/// The storage bus of a bus type code: SATA for codes 3 and 11, USB for 7,
/// RAID for 8, NVMe for 17, and `NVMe / SSD` for any other code.
pub proof fn lemma_bus_types(code: u32)
    ensures
        (code == 3 || code == 11) ==> bus_type_for(code) == "SATA"@,
        code == 7 ==> bus_type_for(code) == "USB"@,
        code == 8 ==> bus_type_for(code) == "RAID"@,
        code == 17 ==> bus_type_for(code) == "NVMe"@,
        !(code == 3 || code == 11 || code == 7 || code == 8 || code == 17) ==> bus_type_for(code) == "NVMe / SSD"@,
{
}

/// The model name joins the cleaned vendor and product when the product
/// does not already name the vendor; it is the product alone when the
/// vendor is empty, a bare `ATA` or already named, the vendor alone when
/// there is no product, and `Physical Drive #idx` when neither is given.
pub proof fn lemma_drive_model_choice(vendor: Seq<char>, product: Seq<char>, idx: u32)
    ensures
        ({
            let vc = clean_vendor(vendor);
            let pc = clean_product(product);
            let r = drive_model_for(vendor, product, idx);
            let vendor_usable = vc.len() > 0 && vc != "ATA"@;
            &&& pc.len() > 0 && vendor_usable && !contains_seq(lowercase(pc), lowercase(vc)) ==> r == vc + " "@ + pc
            &&& pc.len() > 0 && !(vendor_usable && !contains_seq(lowercase(pc), lowercase(vc))) ==> r == pc
            &&& pc.len() == 0 && vendor_usable ==> r == vc
            &&& pc.len() == 0 && !vendor_usable ==> r == "Physical Drive #"@ + decimal(idx as nat)
        }),
{
    reveal_strlit(" ");
    assert(seq![' '] =~= " "@);
}

/// A volume's used space is its capacity minus its available space (zero
/// when more is reported available than its capacity), and its usage share
/// in tenths of a percent is the nearest to the exact share: within half a
/// tenth, a half going up; an empty volume shows zero.
pub proof fn lemma_volume_usage(total: u64, free: u64)
    ensures
        free <= total ==> used_bytes_for(total, free) == total - free,
        free > total ==> used_bytes_for(total, free) == 0,
        ({
            let used = used_bytes_for(total, free);
            let p = used_tenths_for(used, total as int);
            &&& total > 0 ==> 2 * used * 1000 - total < 2 * p * total <= 2 * used * 1000 + total
            &&& total == 0 ==> p == 0
        }),
{
    let used = used_bytes_for(total, free);
    if total > 0 {
        let n = used * 1000;
        let d = total as int;
        let p = (2 * n + d) / (2 * d);
        assert(2 * n - d < 2 * p * d <= 2 * n + d) by (nonlinear_arith)
            requires p == (2 * n + d) / (2 * d), d > 0, n >= 0;
    }
}

} // verus!
