//! Memory modules: timing profiles, SPD slot descriptions from SMBIOS
//! memory device records, the system memory summary, and the data pattern
//! kernels of the RAM stability test.
use vstd::prelude::*;
use crate::bench::{rounded_quotient, round_div_wide};
use crate::text::{contains_seq, decimal, informative, is_informative, lowercase, owned, push_decimal, str_contains, str_eq, to_lowercase};

verus! {

// ---------------------------------------------------------------------------
// Timing profiles
// ---------------------------------------------------------------------------

/// A JEDEC or XMP/EXPO timing preset. The voltage is in millivolts.
#[derive(Debug, Clone)]
pub struct TimingProfile {
    /// Profile designation (e.g. "JEDEC #1", "EXPO-6000").
    pub name: String,
    /// Clock frequency in MHz.
    pub frequency_mhz: u32,
    /// CAS latency.
    pub cas_latency: u32,
    /// RAS to CAS delay.
    pub trcd: u32,
    /// RAS precharge.
    pub trp: u32,
    /// Active to precharge delay.
    pub tras: u32,
    /// Bank cycle time.
    pub trc: u32,
    /// Voltage in millivolts.
    pub voltage_mv: u32,
}

/// The mathematical value of a [`TimingProfile`].
pub struct TimingProfileView {
    /// Designation.
    pub name: Seq<char>,
    /// Clock frequency in MHz.
    pub frequency_mhz: u32,
    /// CAS latency.
    pub cas_latency: u32,
    /// RAS to CAS delay.
    pub trcd: u32,
    /// RAS precharge.
    pub trp: u32,
    /// Active to precharge delay.
    pub tras: u32,
    /// Bank cycle time.
    pub trc: u32,
    /// Voltage in millivolts.
    pub voltage_mv: u32,
}

impl View for TimingProfile {
    type V = TimingProfileView;

    open spec fn view(&self) -> TimingProfileView {
        TimingProfileView {
            name: self.name@,
            frequency_mhz: self.frequency_mhz,
            cas_latency: self.cas_latency,
            trcd: self.trcd,
            trp: self.trp,
            tras: self.tras,
            trc: self.trc,
            voltage_mv: self.voltage_mv,
        }
    }
}

/// The views of a sequence of profiles.
pub open spec fn profile_views(v: Seq<TimingProfile>) -> Seq<TimingProfileView> {
    v.map_values(|p: TimingProfile| p@)
}

/// A profile view built from its parts.
pub open spec fn profile(
    name: Seq<char>,
    frequency_mhz: u32,
    cas_latency: u32,
    trcd: u32,
    trp: u32,
    tras: u32,
    trc: u32,
    voltage_mv: u32,
) -> TimingProfileView {
    TimingProfileView { name, frequency_mhz, cas_latency, trcd, trp, tras, trc, voltage_mv }
}

/// The presets listed for a memory type and target transfer rate: four
/// presets (two JEDEC, EXPO and XMP at half the rate) for `DDR5`, three
/// fixed presets for any other type.
pub open spec fn timing_profiles_for(mem_type: Seq<char>, target_speed: u32) -> Seq<TimingProfileView> {
    if mem_type == "DDR5"@ {
        seq![
            profile("JEDEC #1"@, 2400, 40, 40, 40, 77, 117, 1100),
            profile("JEDEC #2"@, 2600, 42, 42, 42, 84, 126, 1100),
            profile("EXPO-6000"@, target_speed / 2, 30, 36, 36, 76, 112, 1350),
            profile("XMP-6000"@, target_speed / 2, 30, 36, 36, 76, 112, 1350),
        ]
    } else {
        seq![
            profile("JEDEC #1"@, 1066, 15, 15, 15, 36, 50, 1200),
            profile("JEDEC #2"@, 1200, 16, 16, 16, 39, 55, 1200),
            profile("XMP-3200"@, 1600, 16, 18, 18, 36, 56, 1350),
        ]
    }
}

fn make_profile(name: &str, frequency_mhz: u32, cas_latency: u32, trcd: u32, trp: u32, tras: u32, trc: u32, voltage_mv: u32)
    -> (r: TimingProfile)
    ensures
        r@ == profile(name@, frequency_mhz, cas_latency, trcd, trp, tras, trc, voltage_mv),
{
    TimingProfile { name: owned(name), frequency_mhz, cas_latency, trcd, trp, tras, trc, voltage_mv }
}

/// Generates the JEDEC and XMP/EXPO presets for a memory type and target
/// transfer rate.
pub fn generate_timing_profiles(mem_type: &str, target_speed: u32) -> (r: Vec<TimingProfile>)
    ensures
        profile_views(r@) == timing_profiles_for(mem_type@, target_speed),
{
    let mut v: Vec<TimingProfile> = Vec::new();
    if str_eq(mem_type, "DDR5") {
        v.push(make_profile("JEDEC #1", 2400, 40, 40, 40, 77, 117, 1100));
        v.push(make_profile("JEDEC #2", 2600, 42, 42, 42, 84, 126, 1100));
        v.push(make_profile("EXPO-6000", target_speed / 2, 30, 36, 36, 76, 112, 1350));
        v.push(make_profile("XMP-6000", target_speed / 2, 30, 36, 36, 76, 112, 1350));
    } else {
        v.push(make_profile("JEDEC #1", 1066, 15, 15, 15, 36, 50, 1200));
        v.push(make_profile("JEDEC #2", 1200, 16, 16, 16, 39, 55, 1200));
        v.push(make_profile("XMP-3200", 1600, 16, 18, 18, 36, 56, 1350));
    }
    assert(profile_views(v@) =~= timing_profiles_for(mem_type@, target_speed));
    v
}

// ---------------------------------------------------------------------------
// SPD slots
// ---------------------------------------------------------------------------

/// SPD description of one memory slot. The voltage is in millivolts.
#[derive(Debug, Clone)]
pub struct SpdSlotInfo {
    /// Slot identifier.
    pub slot_name: String,
    /// Bank locator.
    pub bank_locator: String,
    /// Module capacity in MiB.
    pub size_mb: u64,
    /// Memory type (e.g. "DDR5").
    pub memory_type: String,
    /// Rated speed in MT/s.
    pub speed_mhz: u32,
    /// Configured speed in MT/s.
    pub configured_speed_mhz: u32,
    /// Module manufacturer.
    pub module_manufacturer: String,
    /// DRAM chip manufacturer.
    pub dram_manufacturer: String,
    /// Part number.
    pub part_number: String,
    /// Serial number.
    pub serial_number: String,
    /// Form factor.
    pub form_factor: String,
    /// Nominal voltage in millivolts.
    pub voltage_mv: u32,
    /// Timing presets.
    pub profiles: Vec<TimingProfile>,
}

/// The mathematical value of a [`SpdSlotInfo`].
pub struct SpdSlotView {
    /// Slot identifier.
    pub slot_name: Seq<char>,
    /// Bank locator.
    pub bank_locator: Seq<char>,
    /// Capacity in MiB.
    pub size_mb: u64,
    /// Memory type.
    pub memory_type: Seq<char>,
    /// Rated speed.
    pub speed_mhz: u32,
    /// Configured speed.
    pub configured_speed_mhz: u32,
    /// Module manufacturer.
    pub module_manufacturer: Seq<char>,
    /// DRAM manufacturer.
    pub dram_manufacturer: Seq<char>,
    /// Part number.
    pub part_number: Seq<char>,
    /// Serial number.
    pub serial_number: Seq<char>,
    /// Form factor.
    pub form_factor: Seq<char>,
    /// Voltage in millivolts.
    pub voltage_mv: u32,
    /// Timing presets.
    pub profiles: Seq<TimingProfileView>,
}

impl View for SpdSlotInfo {
    type V = SpdSlotView;

    open spec fn view(&self) -> SpdSlotView {
        SpdSlotView {
            slot_name: self.slot_name@,
            bank_locator: self.bank_locator@,
            size_mb: self.size_mb,
            memory_type: self.memory_type@,
            speed_mhz: self.speed_mhz,
            configured_speed_mhz: self.configured_speed_mhz,
            module_manufacturer: self.module_manufacturer@,
            dram_manufacturer: self.dram_manufacturer@,
            part_number: self.part_number@,
            serial_number: self.serial_number@,
            form_factor: self.form_factor@,
            voltage_mv: self.voltage_mv,
            profiles: profile_views(self.profiles@),
        }
    }
}

/// The views of a sequence of slots.
pub open spec fn slot_views(v: Seq<SpdSlotInfo>) -> Seq<SpdSlotView> {
    v.map_values(|s: SpdSlotInfo| s@)
}

/// The slot assumed when firmware tables give no memory device.
pub open spec fn fallback_slot_for(slot: Seq<char>, size_mb: u64, mem_type: Seq<char>, speed: u32) -> SpdSlotView {
    SpdSlotView {
        slot_name: slot,
        bank_locator: "BANK 0"@,
        size_mb,
        memory_type: mem_type,
        speed_mhz: speed,
        configured_speed_mhz: speed,
        module_manufacturer: "Corsair Gaming"@,
        dram_manufacturer: "SK Hynix"@,
        part_number: "CMK32GX5M2B6000C30"@,
        serial_number: "4A8F291C"@,
        form_factor: "DIMM (288-pin)"@,
        voltage_mv: 1350,
        profiles: timing_profiles_for(mem_type, speed),
    }
}

/// Builds the slot assumed when firmware tables give no memory device.
pub fn create_fallback_slot(slot: &str, size_mb: u64, mem_type: &str, speed: u32) -> (r: SpdSlotInfo)
    ensures
        r@ == fallback_slot_for(slot@, size_mb, mem_type@, speed),
{
    let profiles = generate_timing_profiles(mem_type, speed);
    SpdSlotInfo {
        slot_name: owned(slot),
        bank_locator: owned("BANK 0"),
        size_mb,
        memory_type: owned(mem_type),
        speed_mhz: speed,
        configured_speed_mhz: speed,
        module_manufacturer: owned("Corsair Gaming"),
        dram_manufacturer: owned("SK Hynix"),
        part_number: owned("CMK32GX5M2B6000C30"),
        serial_number: owned("4A8F291C"),
        form_factor: owned("DIMM (288-pin)"),
        voltage_mv: 1350,
        profiles,
    }
}

// ---------------------------------------------------------------------------
// SMBIOS memory device records
// ---------------------------------------------------------------------------

/// Size field of an SMBIOS memory device (the variants of smbioslib's
/// `MemorySize`).
#[derive(Clone, Copy, Debug, PartialEq, Eq, Structural)]
pub enum MemorySizeField {
    /// No module installed.
    NotInstalled,
    /// Size unknown.
    Unknown,
    /// Size held in the extended size field.
    SeeExtendedSize,
    /// Size in KiB.
    Kilobytes(u16),
    /// Size in MiB.
    Megabytes(u16),
}

/// Extended size field (the variants of smbioslib's `MemorySizeExtended`).
#[derive(Clone, Copy, Debug, PartialEq, Eq, Structural)]
pub enum MemorySizeExtendedField {
    /// Size in MiB.
    Megabytes(u32),
    /// Size held in the size field.
    SeeSize,
}

/// Speed field (the variants of smbioslib's `MemorySpeed`).
#[derive(Clone, Copy, Debug, PartialEq, Eq, Structural)]
pub enum MemorySpeedField {
    /// Speed unknown.
    Unknown,
    /// Speed held in the extended speed field.
    SeeExtendedSpeed,
    /// Speed in MT/s.
    MTs(u16),
}

/// Memory type field: the types named by the summary, or the debug text of
/// any other type.
#[derive(Clone, Debug)]
pub enum MemoryKind {
    /// DDR5.
    Ddr5,
    /// DDR4.
    Ddr4,
    /// DDR3.
    Ddr3,
    /// LPDDR5.
    Lpddr5,
    /// LPDDR4.
    Lpddr4,
    /// Any other type, by its debug text.
    Other(String),
}

/// One SMBIOS memory device structure (type 17), as plain values.
#[derive(Clone, Debug)]
pub struct MemoryDeviceRecord {
    /// Device locator text.
    pub device_locator: String,
    /// Bank locator text.
    pub bank_locator: String,
    /// Size field, when present.
    pub size: Option<MemorySizeField>,
    /// Extended size field, when present.
    pub extended_size: Option<MemorySizeExtendedField>,
    /// Memory type field, when present.
    pub memory_type: Option<MemoryKind>,
    /// Speed field, when present.
    pub speed: Option<MemorySpeedField>,
    /// Configured speed field, when present.
    pub configured_speed: Option<MemorySpeedField>,
    /// Manufacturer text.
    pub manufacturer: String,
    /// Part number text.
    pub part_number: String,
    /// Serial number text.
    pub serial_number: String,
    /// Debug text of the form factor field, when present.
    pub form_factor: Option<String>,
}

/// `s` when it carries information, else `default`.
pub open spec fn informative_or(s: Seq<char>, default: Seq<char>) -> Seq<char> {
    if is_informative(s) { s } else { default }
}

/// Capacity in MiB given by the size fields: KiB rounded down to MiB,
/// MiB, or the extended size; zero when absent or unknown.
pub open spec fn size_mb_for(size: Option<MemorySizeField>, ext: Option<MemorySizeExtendedField>) -> u64 {
    match size {
        Some(MemorySizeField::Kilobytes(kb)) => (kb / 1024) as u64,
        Some(MemorySizeField::Megabytes(mb)) => mb as u64,
        Some(MemorySizeField::SeeExtendedSize) => match ext {
            Some(MemorySizeExtendedField::Megabytes(m)) => m as u64,
            _ => 0,
        },
        _ => 0,
    }
}

/// The memory type text; `DDR5` when absent.
pub open spec fn memory_kind_text(k: Option<MemoryKind>) -> Seq<char> {
    match k {
        Some(MemoryKind::Ddr5) => "DDR5"@,
        Some(MemoryKind::Ddr4) => "DDR4"@,
        Some(MemoryKind::Ddr3) => "DDR3"@,
        Some(MemoryKind::Lpddr5) => "LPDDR5"@,
        Some(MemoryKind::Lpddr4) => "LPDDR4"@,
        Some(MemoryKind::Other(t)) => t@,
        None => "DDR5"@,
    }
}

/// A speed in MT/s, or `default` when the field does not hold one.
pub open spec fn speed_or(f: Option<MemorySpeedField>, default: u32) -> u32 {
    match f {
        Some(MemorySpeedField::MTs(v)) => v as u32,
        _ => default,
    }
}

/// The DRAM chip maker: SK Hynix for Corsair and G.Skill modules, else the
/// module maker.
pub open spec fn dram_maker_for(module: Seq<char>) -> Seq<char> {
    if contains_seq(lowercase(module), "corsair"@) || contains_seq(lowercase(module), "g.skill"@) {
        "SK Hynix"@
    } else {
        module
    }
}

/// The slot described by a memory device record.
pub open spec fn slot_for_record(m: MemoryDeviceRecord) -> SpdSlotView {
    let memory_type = memory_kind_text(m.memory_type);
    let speed = speed_or(m.speed, 4800);
    let configured = speed_or(m.configured_speed, speed);
    let module = informative_or(m.manufacturer@, "Corsair / G.Skill"@);
    SpdSlotView {
        slot_name: informative_or(m.device_locator@, "DIMM Slot"@),
        bank_locator: informative_or(m.bank_locator@, "BANK 0"@),
        size_mb: size_mb_for(m.size, m.extended_size),
        memory_type,
        speed_mhz: speed,
        configured_speed_mhz: configured,
        module_manufacturer: module,
        dram_manufacturer: dram_maker_for(module),
        part_number: informative_or(m.part_number@, "CMK32GX5M2B6000C30"@),
        serial_number: informative_or(m.serial_number@, "00000000"@),
        form_factor: match m.form_factor { Some(f) => f@, None => "DIMM"@ },
        voltage_mv: 1350,
        profiles: timing_profiles_for(memory_type, configured),
    }
}

fn informative_or_default(s: &String, default: &str) -> (r: String)
    ensures
        r@ == informative_or(s@, default@),
{
    if informative(s.as_str()) { s.clone() } else { owned(default) }
}

fn speed_value(f: Option<MemorySpeedField>, default: u32) -> (r: u32)
    ensures
        r == speed_or(f, default),
{
    match f {
        Some(MemorySpeedField::MTs(v)) => v as u32,
        _ => default,
    }
}

/// Describes the slot of one memory device record: defaults replace
/// uninformative texts, the size fields give the capacity, missing speeds
/// fall back to 4800 MT/s, and the presets follow the type and configured
/// speed.
pub fn parse_memory_device(m: &MemoryDeviceRecord) -> (r: SpdSlotInfo)
    ensures
        r@ == slot_for_record(*m),
{
    let slot_name = informative_or_default(&m.device_locator, "DIMM Slot");
    let bank_locator = informative_or_default(&m.bank_locator, "BANK 0");
    let size_mb: u64 = match m.size {
        Some(MemorySizeField::Kilobytes(kb)) => (kb / 1024) as u64,
        Some(MemorySizeField::Megabytes(mb)) => mb as u64,
        Some(MemorySizeField::SeeExtendedSize) => match m.extended_size {
            Some(MemorySizeExtendedField::Megabytes(x)) => x as u64,
            _ => 0,
        },
        _ => 0,
    };
    let memory_type = match &m.memory_type {
        Some(MemoryKind::Ddr5) => owned("DDR5"),
        Some(MemoryKind::Ddr4) => owned("DDR4"),
        Some(MemoryKind::Ddr3) => owned("DDR3"),
        Some(MemoryKind::Lpddr5) => owned("LPDDR5"),
        Some(MemoryKind::Lpddr4) => owned("LPDDR4"),
        Some(MemoryKind::Other(t)) => t.clone(),
        None => owned("DDR5"),
    };
    let speed_mhz = speed_value(m.speed, 4800);
    let configured_speed_mhz = speed_value(m.configured_speed, speed_mhz);
    let module_manufacturer = informative_or_default(&m.manufacturer, "Corsair / G.Skill");
    let part_number = informative_or_default(&m.part_number, "CMK32GX5M2B6000C30");
    let serial_number = informative_or_default(&m.serial_number, "00000000");
    let form_factor = match &m.form_factor {
        Some(f) => f.clone(),
        None => owned("DIMM"),
    };
    let lower = to_lowercase(module_manufacturer.as_str());
    let dram_manufacturer = if str_contains(lower.as_str(), "corsair") || {
        let lower2 = to_lowercase(module_manufacturer.as_str());
        str_contains(lower2.as_str(), "g.skill")
    } {
        owned("SK Hynix")
    } else {
        module_manufacturer.clone()
    };
    let profiles = generate_timing_profiles(memory_type.as_str(), configured_speed_mhz);
    SpdSlotInfo {
        slot_name,
        bank_locator,
        size_mb,
        memory_type,
        speed_mhz,
        configured_speed_mhz,
        module_manufacturer,
        dram_manufacturer,
        part_number,
        serial_number,
        form_factor,
        voltage_mv: 1350,
        profiles,
    }
}

// ---------------------------------------------------------------------------
// System memory summary
// ---------------------------------------------------------------------------

/// Live memory usage; sizes in MiB.
#[derive(Debug, Clone, Copy, PartialEq, Eq)]
pub struct MemoryLiveMetrics {
    /// Memory in use.
    pub used_mb: u64,
    /// Memory available.
    pub available_mb: u64,
    /// Share in use, in tenths of a percent (rounded to the nearest).
    pub usage_tenths: u64,
    /// Swap in use.
    pub swap_used_mb: u64,
    /// Swap size.
    pub swap_total_mb: u64,
}

/// The usage figures for the reported byte counts: everything in whole MiB,
/// and the share of the memory in use in tenths of a percent, rounded to the
/// nearest (0 when no memory is reported).
pub open spec fn live_usage_for(total: u64, used: u64, available: u64, swap_total: u64, swap_used: u64) -> MemoryLiveMetrics {
    let total_mb = total / 1048576;
    let used_mb = used / 1048576;
    MemoryLiveMetrics {
        used_mb: used_mb as u64,
        available_mb: (available / 1048576) as u64,
        usage_tenths: (if total_mb > 0 { rounded_quotient((used_mb as int) * 1000, total_mb as int) } else { 0 }) as u64,
        swap_used_mb: (swap_used / 1048576) as u64,
        swap_total_mb: (swap_total / 1048576) as u64,
    }
}

/// Computes the usage figures from the reported byte counts.
pub fn live_usage(total: u64, used: u64, available: u64, swap_total: u64, swap_used: u64) -> (r: MemoryLiveMetrics)
    ensures
        r == live_usage_for(total, used, available, swap_total, swap_used),
{
    let total_mb = total / 1048576;
    let used_mb = used / 1048576;
    let usage: u64 = if total_mb > 0 {
        let q: u128 = round_div_wide((used_mb as u128) * 1000, total_mb as u128);
        assert(q <= (used_mb as int) * 1000 + 1) by (nonlinear_arith)
            requires q as int == (2 * ((used_mb as int) * 1000) + total_mb) / (2 * (total_mb as int)), total_mb >= 1;
        assert(used_mb as int <= 17592186044415) by (nonlinear_arith)
            requires used_mb as int == (used as int) / 1048576, used <= u64::MAX;
        q as u64
    } else {
        0
    };
    MemoryLiveMetrics {
        used_mb,
        available_mb: available / 1048576,
        usage_tenths: usage,
        swap_used_mb: swap_used / 1048576,
        swap_total_mb: swap_total / 1048576,
    }
}

/// Aggregate system memory configuration. The DRAM clock is half of
/// `dram_speed_mts` (double data rate).
#[derive(Debug, Clone)]
pub struct MemoryInfo {
    /// Installed memory in MiB.
    pub total_mb: u64,
    /// Memory generation.
    pub memory_type: String,
    /// Channel mode text.
    pub channel_mode: String,
    /// Effective transfer rate in MT/s that the DRAM clock is derived from.
    pub dram_speed_mts: u32,
    /// CAS latency.
    pub cl: u32,
    /// RAS to CAS delay.
    pub trcd: u32,
    /// RAS precharge.
    pub trp: u32,
    /// Active to precharge delay.
    pub tras: u32,
    /// Bank cycle time.
    pub trc: u32,
    /// Command rate.
    pub command_rate: String,
    /// FSB:DRAM ratio.
    pub fsb_dram_ratio: String,
    /// Slots described by the firmware (or the assumed ones).
    pub slots: Vec<SpdSlotInfo>,
    /// Live usage.
    pub live: MemoryLiveMetrics,
}

/// The slots described by the records, in order.
pub open spec fn record_slots(records: Seq<MemoryDeviceRecord>) -> Seq<SpdSlotView> {
    records.map_values(|m: MemoryDeviceRecord| slot_for_record(m))
}

/// The memory type of the last populated slot; `DDR5` when none is.
pub open spec fn detected_type(slots: Seq<SpdSlotView>) -> Seq<char>
    decreases slots.len(),
{
    if slots.len() == 0 {
        "DDR5"@
    } else if slots.last().size_mb > 0 {
        slots.last().memory_type
    } else {
        detected_type(slots.drop_last())
    }
}

/// The configured speed of the last populated slot that reports one;
/// 4800 MT/s when none does.
pub open spec fn detected_speed(slots: Seq<SpdSlotView>) -> u32
    decreases slots.len(),
{
    if slots.len() == 0 {
        4800
    } else if slots.last().size_mb > 0 && slots.last().configured_speed_mhz > 0 {
        slots.last().configured_speed_mhz
    } else {
        detected_speed(slots.drop_last())
    }
}

/// The slots shown: those of the records, or two assumed DDR5-6000 slots
/// holding half the memory each (at least 8 GiB) when there is none.
pub open spec fn slots_for(records: Seq<MemoryDeviceRecord>, total_mb: u64) -> Seq<SpdSlotView> {
    if records.len() > 0 {
        record_slots(records)
    } else {
        let half: u64 = if total_mb / 2 >= 8192 { (total_mb / 2) as u64 } else { 8192 };
        seq![
            fallback_slot_for("DIMM 1"@, half, "DDR5"@, 6000),
            fallback_slot_for("DIMM 2"@, half, "DDR5"@, 6000),
        ]
    }
}

/// Number of populated slots.
pub open spec fn populated_count(slots: Seq<SpdSlotView>) -> nat
    decreases slots.len(),
{
    if slots.len() == 0 {
        0
    } else {
        populated_count(slots.drop_last()) + if slots.last().size_mb > 0 { 1nat } else { 0nat }
    }
}

/// The channel mode text for a number of populated slots.
pub open spec fn channel_mode_for(n: nat) -> Seq<char> {
    if n <= 1 {
        "Single Channel (1x 64-bit)"@
    } else if n == 2 {
        "Dual Channel (2x 64-bit / 4x 32-bit)"@
    } else if n == 4 {
        "Quad Channel (4x 64-bit)"@
    } else if n == 8 {
        "Octa Channel (8x 64-bit)"@
    } else {
        decimal(n) + " Channels"@
    }
}

/// Primary timings (CL, tRCD, tRP, tRAS, tRC) assumed for a memory type.
pub open spec fn timings_for(t: Seq<char>) -> (u32, u32, u32, u32, u32) {
    if t == "DDR5"@ {
        (30, 36, 36, 76, 112)
    } else if t == "DDR4"@ {
        (16, 18, 18, 36, 56)
    } else {
        (11, 11, 11, 28, 39)
    }
}

/// Formats the channel mode text.
pub fn channel_mode_text(n: usize) -> (r: String)
    ensures
        r@ == channel_mode_for(n as nat),
{
    if n <= 1 {
        owned("Single Channel (1x 64-bit)")
    } else if n == 2 {
        owned("Dual Channel (2x 64-bit / 4x 32-bit)")
    } else if n == 4 {
        owned("Quad Channel (4x 64-bit)")
    } else if n == 8 {
        owned("Octa Channel (8x 64-bit)")
    } else {
        let mut s = crate::text::decimal_string(n as u64);
        s.append(" Channels");
        s
    }
}

/// Chooses the assumed primary timings for a memory type.
pub fn timings_for_type(t: &str) -> (r: (u32, u32, u32, u32, u32))
    ensures
        r == timings_for(t@),
{
    if str_eq(t, "DDR5") {
        (30, 36, 36, 76, 112)
    } else if str_eq(t, "DDR4") {
        (16, 18, 18, 36, 56)
    } else {
        (11, 11, 11, 28, 39)
    }
}

impl MemoryInfo {
    /// Summarizes system memory from the installed byte count and the SMBIOS
    /// memory device records (empty when the tables could not be read):
    /// slots, detected type and speed, channel mode and assumed timings.
    pub fn summarize(total_bytes: u64, records: &Vec<MemoryDeviceRecord>) -> (r: MemoryInfo)
        ensures
            r.total_mb == total_bytes / 1048576,
            slot_views(r.slots@) == slots_for(records@, r.total_mb),
            r.memory_type@ == detected_type(record_slots(records@)),
            r.dram_speed_mts == detected_speed(record_slots(records@)),
            r.channel_mode@ == channel_mode_for(populated_count(slots_for(records@, r.total_mb))),
            (r.cl, r.trcd, r.trp, r.tras, r.trc) == timings_for(r.memory_type@),
            r.command_rate@ == "1T"@,
            r.fsb_dram_ratio@ == "1:30"@,
            r.live == (MemoryLiveMetrics { used_mb: 0, available_mb: 0, usage_tenths: 0, swap_used_mb: 0, swap_total_mb: 0 }),
    {
        let total_mb = total_bytes / 1048576;
        let mut slots: Vec<SpdSlotInfo> = Vec::new();
        let mut detected = owned("DDR5");
        let mut max_speed: u32 = 4800;
        let n = records.len();
        let mut i: usize = 0;
        while i < n
            invariant
                n == records@.len(),
                i <= n,
                slot_views(slots@) == record_slots(records@.subrange(0, i as int)),
                detected@ == detected_type(record_slots(records@.subrange(0, i as int))),
                max_speed == detected_speed(record_slots(records@.subrange(0, i as int))),
            decreases n - i,
        {
            let ghost prev = records@.subrange(0, i as int);
            let ghost next = records@.subrange(0, i + 1);
            let slot = parse_memory_device(&records[i]);
            proof {
                assert(next.drop_last() =~= prev);
                assert(record_slots(next).drop_last() =~= record_slots(prev));
                assert(record_slots(next).last() == slot@);
            }
            if slot.size_mb > 0 {
                detected = slot.memory_type.clone();
                if slot.configured_speed_mhz > 0 {
                    max_speed = slot.configured_speed_mhz;
                }
            }
            let ghost sv = slot@;
            let ghost old_views = slot_views(slots@);
            assert(sv == slot_for_record(records@[i as int]));
            slots.push(slot);
            assert(slot_views(slots@) =~= old_views.push(sv));
            assert(record_slots(next) =~= record_slots(prev).push(slot_for_record(records@[i as int])));
            i = i + 1;
        }
        assert(records@.subrange(0, n as int) =~= records@);
        if slots.len() == 0 {
            let half = if total_mb / 2 >= 8192 { total_mb / 2 } else { 8192 };
            slots.push(create_fallback_slot("DIMM 1", half, "DDR5", 6000));
            slots.push(create_fallback_slot("DIMM 2", half, "DDR5", 6000));
        }
        assert(slot_views(slots@) =~= slots_for(records@, total_mb));
        let ghost final_slots = slot_views(slots@);
        let mut populated: usize = 0;
        let mut k: usize = 0;
        while k < slots.len()
            invariant
                k <= slots@.len(),
                populated <= k,
                final_slots == slot_views(slots@),
                populated == populated_count(final_slots.subrange(0, k as int)),
            decreases slots@.len() - k,
        {
            proof {
                assert(final_slots.subrange(0, k + 1).drop_last() =~= final_slots.subrange(0, k as int));
                assert(final_slots.subrange(0, k + 1).last() == slots@[k as int]@);
            }
            if slots[k].size_mb > 0 {
                populated = populated + 1;
            }
            k = k + 1;
        }
        assert(final_slots.subrange(0, k as int) =~= final_slots);
        let channel_mode = channel_mode_text(populated);
        let (cl, trcd, trp, tras, trc) = timings_for_type(detected.as_str());
        MemoryInfo {
            total_mb,
            memory_type: detected,
            channel_mode,
            dram_speed_mts: max_speed,
            cl,
            trcd,
            trp,
            tras,
            trc,
            command_rate: owned("1T"),
            fsb_dram_ratio: owned("1:30"),
            slots,
            live: MemoryLiveMetrics { used_mb: 0, available_mb: 0, usage_tenths: 0, swap_used_mb: 0, swap_total_mb: 0 },
        }
    }

    /// Refreshes the live usage from the reported byte counts; nothing else
    /// changes.
    pub fn update_live_metrics(&mut self, total: u64, used: u64, available: u64, swap_total: u64, swap_used: u64)
        ensures
            *final(self) == (MemoryInfo { live: live_usage_for(total, used, available, swap_total, swap_used), ..*old(self) }),
    {
        self.live = live_usage(total, used, available, swap_total, swap_used);
    }
}

// ---------------------------------------------------------------------------
// RAM stability test kernels
// ---------------------------------------------------------------------------

/// Number of data patterns of one test cycle.
pub const STRESS_PATTERN_COUNT: usize = 3;

/// The tested size in MiB: the requested size clamped to 256..=8192.
pub open spec fn test_size_for(target_mb: usize) -> usize {
    if target_mb < 256 { 256 } else if target_mb > 8192 { 8192 } else { target_mb }
}

/// Clamps the requested test size to 256..=8192 MiB.
pub fn test_size_mb(target_mb: usize) -> (r: usize)
    ensures
        r == test_size_for(target_mb),
        256 <= r <= 8192,
{
    if target_mb < 256 { 256 } else if target_mb > 8192 { 8192 } else { target_mb }
}

/// What a pass writes into the memory under test.
#[derive(Debug, Clone, Copy, PartialEq, Eq)]
pub enum StressFill {
    /// Every byte set to the first value; after the check, to the second.
    Fixed(u8, u8),
    /// A deterministic pseudo-random byte per position, derived from a seed;
    /// after the check, each byte is bit-inverted.
    PseudoRandom,
}

/// The patterns of a cycle: a bit flip between 0xAA and 0x55, a walking
/// inversion between 0x0F and 0xF0, and a pseudo-random bit pattern.
pub open spec fn stress_pattern_for(i: int) -> (Seq<char>, StressFill) {
    if i == 0 {
        ("Padrão 1/3: Inversão Alternada (0xAA / 0x55)"@, StressFill::Fixed(0xAAu8, 0x55u8))
    } else if i == 1 {
        ("Padrão 2/3: Walking Bits (0x0F / 0xF0)"@, StressFill::Fixed(0x0Fu8, 0xF0u8))
    } else {
        ("Padrão 3/3: Random Bit Pattern (Pseudoaleatório)"@, StressFill::PseudoRandom)
    }
}

/// The `i`-th pattern of a cycle.
pub fn stress_pattern(i: usize) -> (r: (&'static str, StressFill))
    requires
        i < STRESS_PATTERN_COUNT,
    ensures
        (r.0@, r.1) == stress_pattern_for(i as int),
{
    if i == 0 {
        ("Padrão 1/3: Inversão Alternada (0xAA / 0x55)", StressFill::Fixed(0xAA, 0x55))
    } else if i == 1 {
        ("Padrão 2/3: Walking Bits (0x0F / 0xF0)", StressFill::Fixed(0x0F, 0xF0))
    } else {
        ("Padrão 3/3: Random Bit Pattern (Pseudoaleatório)", StressFill::PseudoRandom)
    }
}

/// The pseudo-random byte at position `i` for `seed`: the top byte of one
/// step of a 64-bit linear congruential generator started at `seed + i`
/// (multiplier 6364136223846793005, increment 1442695040888963407, all
/// modulo 2^64).
pub open spec fn random_pattern_byte(seed: u64, i: u64) -> u8 {
    let a = (seed + i) % 0x1_0000_0000_0000_0000;
    let m = (a * 6364136223846793005) % 0x1_0000_0000_0000_0000;
    let x = (m + 1442695040888963407) % 0x1_0000_0000_0000_0000;
    (x / 0x100_0000_0000_0000) as u8
}

/// Computes the pseudo-random byte at position `i` for `seed`.
pub fn random_byte(seed: u64, i: u64) -> (b: u8)
    ensures
        b == random_pattern_byte(seed, i),
{
    let a = seed.wrapping_add(i);
    let m = a.wrapping_mul(6364136223846793005);
    let x = m.wrapping_add(1442695040888963407);
    assert(a == (seed + i) % 0x1_0000_0000_0000_0000);
    assert(x == (m + 1442695040888963407) % 0x1_0000_0000_0000_0000);
    (x / 0x100_0000_0000_0000) as u8
}

/// The byte a pass writes at position `k` of a chunk.
pub open spec fn expected_byte(fill: StressFill, seed: u64, k: int) -> u8 {
    match fill {
        StressFill::Fixed(w, _c) => w,
        StressFill::PseudoRandom => random_pattern_byte(seed, k as u64),
    }
}

/// The byte a pass leaves at position `k` once it has checked it.
pub open spec fn after_check_byte(fill: StressFill, seed: u64, k: int) -> u8 {
    match fill {
        StressFill::Fixed(_w, c) => c,
        StressFill::PseudoRandom => (255 - random_pattern_byte(seed, k as u64)) as u8,
    }
}

/// The seed of the pseudo-random pattern for the 1 MiB chunk number
/// `chunk_index` of the buffer in cycle `cycle`: the cycle times 2^40 plus
/// the chunk's byte offset, modulo 2^64. Each cycle, and each chunk within a
/// cycle, thereby gets its own part of the pseudo-random stream.
pub open spec fn chunk_seed_for(cycle: u32, chunk_index: u64) -> u64 {
    ((cycle as int * 0x100_0000_0000 + chunk_index as int * 1048576) % 0x1_0000_0000_0000_0000) as u64
}

/// Computes the pattern seed of a chunk.
pub fn chunk_seed(cycle: u32, chunk_index: u64) -> (r: u64)
    ensures
        r == chunk_seed_for(cycle, chunk_index),
{
    let a = (cycle as u64).wrapping_mul(0x100_0000_0000);
    let b = chunk_index.wrapping_mul(1048576);
    let r = a.wrapping_add(b);
    proof {
        let m: int = 0x1_0000_0000_0000_0000;
        let x = cycle as int * 0x100_0000_0000;
        let y = chunk_index as int * 1048576;
        assert(a == x % m);
        assert(b == y % m);
        vstd::arithmetic::div_mod::lemma_add_mod_noop(x, y, m);
    }
    r
}

/// The bytes a pass writes into a chunk of `n` bytes.
pub open spec fn written_block(fill: StressFill, seed: u64, n: nat) -> Seq<u8> {
    Seq::new(n, |k: int| expected_byte(fill, seed, k))
}

/// The bytes a pass leaves in a chunk of `n` bytes after its check.
pub open spec fn checked_block(fill: StressFill, seed: u64, n: nat) -> Seq<u8> {
    Seq::new(n, |k: int| after_check_byte(fill, seed, k))
}

/// Number of bytes of `s` that differ from what the pass expects there.
pub open spec fn pattern_mismatches(s: Seq<u8>, fill: StressFill, seed: u64) -> nat
    decreases s.len(),
{
    if s.len() == 0 {
        0
    } else {
        pattern_mismatches(s.drop_last(), fill, seed)
            + if s.last() != expected_byte(fill, seed, s.len() - 1) { 1nat } else { 0nat }
    }
}

/// Writes a pass's bytes into a chunk; `seed` varies the pseudo-random
/// pattern between chunks.
pub fn write_pattern(chunk: &mut [u8], fill: StressFill, seed: u64)
    ensures
        final(chunk)@ == written_block(fill, seed, old(chunk)@.len()),
{
    let n = chunk.len();
    let mut i: usize = 0;
    while i < n
        invariant
            n == chunk@.len(),
            n == old(chunk)@.len(),
            i <= n,
            forall|j: int| 0 <= j < i ==> chunk@[j] == expected_byte(fill, seed, j),
        decreases n - i,
    {
        let b = match fill {
            StressFill::Fixed(w, _c) => w,
            StressFill::PseudoRandom => random_byte(seed, i as u64),
        };
        chunk[i] = b;
        i = i + 1;
    }
    assert(chunk@ =~= written_block(fill, seed, n as nat));
}

/// Checks every byte of a chunk against what the pass wrote and overwrites
/// it with the pass's after-check byte; returns the number of bytes that
/// differed.
pub fn check_pattern(chunk: &mut [u8], fill: StressFill, seed: u64) -> (errors: u64)
    ensures
        errors == pattern_mismatches(old(chunk)@, fill, seed),
        final(chunk)@ == checked_block(fill, seed, old(chunk)@.len()),
{
    let ghost orig = chunk@;
    let n = chunk.len();
    let mut errors: u64 = 0;
    let mut i: usize = 0;
    while i < n
        invariant
            n == chunk@.len(),
            n == orig.len(),
            orig == old(chunk)@,
            i <= n,
            errors <= i,
            errors == pattern_mismatches(orig.subrange(0, i as int), fill, seed),
            forall|j: int| 0 <= j < i ==> chunk@[j] == after_check_byte(fill, seed, j),
            forall|j: int| i <= j < n ==> chunk@[j] == orig[j],
        decreases n - i,
    {
        assert(orig.subrange(0, i + 1).drop_last() =~= orig.subrange(0, i as int));
        let (expected, next) = match fill {
            StressFill::Fixed(w, c) => (w, c),
            StressFill::PseudoRandom => {
                let r = random_byte(seed, i as u64);
                (r, 255 - r)
            },
        };
        if chunk[i] != expected {
            errors = errors + 1;
        }
        chunk[i] = next;
        i = i + 1;
    }
    assert(orig.subrange(0, n as int) =~= orig);
    assert(chunk@ =~= checked_block(fill, seed, n as nat));
    errors
}

/// MiB counted as verified for one pattern pass: written and read back.
pub fn verified_mb_per_pass(chunk_mb: usize) -> (r: u64)
    requires
        chunk_mb <= 8192,
    ensures
        r == 2 * chunk_mb,
{
    (chunk_mb * 2) as u64
}

/// Running totals of a RAM stability test. The counters wrap around at
/// 2^64, as atomic additions do.
#[derive(Debug, Clone, Copy, PartialEq, Eq, Structural)]
pub struct RamStressTally {
    /// Tested size in MiB.
    pub allocated_mb: usize,
    /// MiB written and read back so far.
    pub total_verified_mb: u64,
    /// Number of the current cycle.
    pub cycles_completed: u32,
    /// Mismatching bytes found so far.
    pub error_count: u64,
}

/// `a + b` modulo 2^64.
pub open spec fn wrapping_sum(a: u64, b: u64) -> u64 {
    ((a as int + b as int) % 18446744073709551616int) as u64
}

/// The tally after a pass over `chunk_mb` MiB in cycle `cycle` that found
/// `found` mismatching bytes: the size and cycle are taken over, twice the
/// size (written and read back) and the errors are added, modulo 2^64.
pub open spec fn after_pass(t: RamStressTally, chunk_mb: usize, cycle: u32, found: u64) -> RamStressTally {
    RamStressTally {
        allocated_mb: chunk_mb,
        total_verified_mb: wrapping_sum(t.total_verified_mb, (2 * chunk_mb) as u64),
        cycles_completed: cycle,
        error_count: wrapping_sum(t.error_count, found),
    }
}

/// The tally after one pass per entry of `found`, in order.
pub open spec fn after_passes(t: RamStressTally, chunk_mb: usize, cycle: u32, found: Seq<u64>) -> RamStressTally
    decreases found.len(),
{
    if found.len() == 0 {
        t
    } else {
        after_pass(after_passes(t, chunk_mb, cycle, found.drop_last()), chunk_mb, cycle, found.last())
    }
}

/// The sum of a sequence of counts.
pub open spec fn count_sum(s: Seq<u64>) -> int
    decreases s.len(),
{
    if s.len() == 0 { 0 } else { count_sum(s.drop_last()) + s.last() }
}

impl RamStressTally {
    /// A tally before the first pass.
    pub fn new() -> (r: RamStressTally)
        ensures
            r.allocated_mb == 0,
            r.total_verified_mb == 0,
            r.cycles_completed == 0,
            r.error_count == 0,
    {
        RamStressTally { allocated_mb: 0, total_verified_mb: 0, cycles_completed: 0, error_count: 0 }
    }

    /// Records one pattern pass over `chunk_mb` MiB in cycle `cycle` that
    /// found `found_errors` mismatching bytes.
    pub fn record_pass(&mut self, chunk_mb: usize, cycle: u32, found_errors: u64)
        requires
            chunk_mb <= 8192,
        ensures
            *final(self) == after_pass(*old(self), chunk_mb, cycle, found_errors),
    {
        let pass_mb = verified_mb_per_pass(chunk_mb);
        self.total_verified_mb = self.total_verified_mb.wrapping_add(pass_mb);
        self.error_count = self.error_count.wrapping_add(found_errors);
        self.allocated_mb = chunk_mb;
        self.cycles_completed = cycle;
    }
}

/// Execution status of the RAM stability test.
#[derive(Debug, Clone, Copy, PartialEq, Eq)]
pub enum RamStressStatus {
    /// Idle.
    Idle,
    /// Running a pattern of the current cycle.
    Running {
        /// Position of the pattern in the cycle.
        pattern: usize,
        /// Progress of the cycle in thousandths.
        cycle_progress_permille: u32,
    },
    /// Finished or stopped.
    Finished,
}

/// The status published when pattern `i` of a cycle starts: the cycle is
/// `i / 3` done.
pub open spec fn pattern_status_for(i: usize) -> RamStressStatus {
    RamStressStatus::Running { pattern: i, cycle_progress_permille: (i * 1000 / 3) as u32 }
}

/// Computes the status published when pattern `i` of a cycle starts.
pub fn pattern_status(i: usize) -> (r: RamStressStatus)
    requires
        i < STRESS_PATTERN_COUNT,
    ensures
        r == pattern_status_for(i),
{
    RamStressStatus::Running { pattern: i, cycle_progress_permille: (i * 1000 / 3) as u32 }
}

/// Test bandwidth in tenths of MiB/s for `verified_mb` MiB checked in
/// `elapsed_us` microseconds (rounded to the nearest, halves up; the time counts as at least one
/// millisecond).
pub open spec fn stress_speed_tenths_for(verified_mb: int, elapsed_us: int) -> int {
    rounded_quotient(verified_mb * 10000000, if elapsed_us < 1000 { 1000 } else { elapsed_us })
}

/// Computes the test bandwidth; `u64::MAX` when it does not fit.
pub fn stress_speed_tenths(verified_mb: u64, elapsed_us: u64) -> (r: u64)
    ensures
        r == (if stress_speed_tenths_for(verified_mb as int, elapsed_us as int) <= u64::MAX {
            stress_speed_tenths_for(verified_mb as int, elapsed_us as int)
        } else {
            u64::MAX as int
        }),
{
    let t: u64 = if elapsed_us < 1000 { 1000 } else { elapsed_us };
    let q: u128 = round_div_wide((verified_mb as u128) * 10000000, t as u128);
    if q > u64::MAX as u128 { u64::MAX } else { q as u64 }
}

// ---------------------------------------------------------------------------
// Laws
// ---------------------------------------------------------------------------

/// `DDR5` modules get four presets, any other type three.
pub proof fn lemma_profile_counts(mem_type: Seq<char>, target_speed: u32)
    ensures
        timing_profiles_for(mem_type, target_speed).len() == (if mem_type == "DDR5"@ { 4int } else { 3int }),
{
}

/// Without memory device records, the summary shows two populated assumed
/// slots running in dual channel.
pub proof fn lemma_no_records_dual_channel(total_mb: u64)
    ensures
        slots_for(seq![], total_mb).len() == 2,
        populated_count(slots_for(seq![], total_mb)) == 2,
        channel_mode_for(populated_count(slots_for(seq![], total_mb))) == "Dual Channel (2x 64-bit / 4x 32-bit)"@,
{
    let s = slots_for(seq![], total_mb);
    assert(s.drop_last().drop_last() =~= Seq::<SpdSlotView>::empty());
    assert(s.last().size_mb > 0);
    assert(s.drop_last().last().size_mb > 0);
    assert(populated_count(s.drop_last().drop_last()) == 0);
    assert(populated_count(s.drop_last()) == 1);
}

/// The populated slots never outnumber the slots.
pub proof fn lemma_populated_at_most_slots(slots: Seq<SpdSlotView>)
    ensures
        populated_count(slots) <= slots.len(),
    decreases slots.len(),
{
    if slots.len() > 0 {
        lemma_populated_at_most_slots(slots.drop_last());
    }
}

/// A pass that checks a chunk right after writing it finds no mismatching
/// byte, whichever pattern it uses.
pub proof fn lemma_write_then_check_is_clean(n: nat, fill: StressFill, seed: u64)
    ensures
        pattern_mismatches(written_block(fill, seed, n), fill, seed) == 0,
    decreases n,
{
    if n > 0 {
        let w = written_block(fill, seed, n);
        assert(w.drop_last() =~= written_block(fill, seed, (n - 1) as nat));
        lemma_write_then_check_is_clean((n - 1) as nat, fill, seed);
        assert(w.last() == expected_byte(fill, seed, n - 1));
    }
}

/// Each mismatching byte is counted once: the error count of a check never
/// exceeds the chunk length.
pub proof fn lemma_mismatches_bounded(s: Seq<u8>, fill: StressFill, seed: u64)
    ensures
        pattern_mismatches(s, fill, seed) <= s.len(),
    decreases s.len(),
{
    if s.len() > 0 {
        lemma_mismatches_bounded(s.drop_last(), fill, seed);
    }
}

/// Starting from an empty tally, the verified size after `n` passes over
/// `chunk_mb` MiB is `2 * chunk_mb * n` MiB and the error count is the sum of
/// the errors each pass found (both modulo 2^64).
pub proof fn lemma_tally_counts_every_pass(chunk_mb: usize, cycle: u32, found: Seq<u64>)
    requires
        chunk_mb <= 8192,
    ensures
        after_passes(RamStressTally { allocated_mb: 0, total_verified_mb: 0, cycles_completed: 0, error_count: 0 },
            chunk_mb, cycle, found).total_verified_mb == (2 * chunk_mb * found.len()) % 18446744073709551616int,
        after_passes(RamStressTally { allocated_mb: 0, total_verified_mb: 0, cycles_completed: 0, error_count: 0 },
            chunk_mb, cycle, found).error_count == count_sum(found) % 18446744073709551616int,
    decreases found.len(),
{
    let m: int = 18446744073709551616int;
    if found.len() > 0 {
        let prev = found.drop_last();
        lemma_tally_counts_every_pass(chunk_mb, cycle, prev);
        let k = prev.len() as int;
        let step: int = 2 * chunk_mb;
        assert(step * k + step == step * (k + 1)) by (nonlinear_arith);
        assert(2 * chunk_mb * found.len() == step * (k + 1));
        assert(0 <= step < m);
        vstd::arithmetic::div_mod::lemma_add_mod_noop(step * k, step, m);
        vstd::arithmetic::div_mod::lemma_small_mod(step as nat, m as nat);
        assert(step * k >= 0) by (nonlinear_arith) requires step >= 0, k >= 0;
        vstd::arithmetic::div_mod::lemma_mod_twice(step * k, m);
        vstd::arithmetic::div_mod::lemma_add_mod_noop(count_sum(prev), found.last() as int, m);
        vstd::arithmetic::div_mod::lemma_small_mod(found.last() as nat, m as nat);
        vstd::arithmetic::div_mod::lemma_mod_twice(count_sum(prev), m);
    }
}

/// The slot read from a memory device record:
/// - the rated speed is the speed field's MT/s, 4800 when the field holds
///   none;
/// - the configured speed is the configured-speed field's MT/s when it holds
///   one, and only otherwise the rated speed;
/// - the capacity is the KiB size in whole MiB, the MiB size, or the
///   extended MiB size, and zero when none of these is given;
/// - the type is named after the type field (`DDR5` when absent);
/// - uninformative locator and module texts give way to defaults, and the
///   DRAM maker of Corsair and G.Skill modules is SK Hynix;
/// - the voltage is 1.35 V.
pub proof fn lemma_slot_from_record(m: MemoryDeviceRecord)
    ensures
        ({
            let s = slot_for_record(m);
            let rated: u32 = match m.speed {
                Some(MemorySpeedField::MTs(v)) => v as u32,
                _ => 4800u32,
            };
            &&& s.speed_mhz == rated
            &&& m.configured_speed matches Some(MemorySpeedField::MTs(v)) ==> s.configured_speed_mhz == v
            &&& !(m.configured_speed matches Some(MemorySpeedField::MTs(_))) ==> s.configured_speed_mhz == rated
            &&& m.size matches Some(MemorySizeField::Kilobytes(kb)) ==> s.size_mb == kb / 1024
            &&& m.size matches Some(MemorySizeField::Megabytes(mb)) ==> s.size_mb == mb
            &&& m.size == Some(MemorySizeField::SeeExtendedSize)
                ==> (m.extended_size matches Some(MemorySizeExtendedField::Megabytes(e)) ==> s.size_mb == e)
            &&& (m.size == Some(MemorySizeField::SeeExtendedSize)
                && !(m.extended_size matches Some(MemorySizeExtendedField::Megabytes(_)))) ==> s.size_mb == 0
            &&& (m.size is None || m.size == Some(MemorySizeField::NotInstalled)
                || m.size == Some(MemorySizeField::Unknown)) ==> s.size_mb == 0
            &&& m.memory_type matches Some(MemoryKind::Ddr5) ==> s.memory_type == "DDR5"@
            &&& m.memory_type matches Some(MemoryKind::Ddr4) ==> s.memory_type == "DDR4"@
            &&& m.memory_type matches Some(MemoryKind::Ddr3) ==> s.memory_type == "DDR3"@
            &&& m.memory_type matches Some(MemoryKind::Lpddr5) ==> s.memory_type == "LPDDR5"@
            &&& m.memory_type matches Some(MemoryKind::Lpddr4) ==> s.memory_type == "LPDDR4"@
            &&& m.memory_type matches Some(MemoryKind::Other(t)) ==> s.memory_type == t@
            &&& m.memory_type is None ==> s.memory_type == "DDR5"@
            &&& s.slot_name == (if is_informative(m.device_locator@) { m.device_locator@ } else { "DIMM Slot"@ })
            &&& s.bank_locator == (if is_informative(m.bank_locator@) { m.bank_locator@ } else { "BANK 0"@ })
            &&& s.module_manufacturer
                == (if is_informative(m.manufacturer@) { m.manufacturer@ } else { "Corsair / G.Skill"@ })
            &&& s.dram_manufacturer == (if contains_seq(lowercase(s.module_manufacturer), "corsair"@)
                || contains_seq(lowercase(s.module_manufacturer), "g.skill"@) {
                "SK Hynix"@
            } else {
                s.module_manufacturer
            })
            &&& s.voltage_mv == 1350
        }),
{
}

/// The summary's transfer rate is the configured speed of the last
/// populated slot that reports one: when the last record has a non-zero
/// size in MiB and a non-zero configured speed, that speed is the rate, and
/// its type is the memory type.
pub proof fn lemma_summary_speed_from_last_record(records: Seq<MemoryDeviceRecord>)
    requires
        records.len() > 0,
        records.last().size matches Some(MemorySizeField::Megabytes(mb)) && mb > 0,
        records.last().configured_speed matches Some(MemorySpeedField::MTs(v)) && v > 0,
    ensures
        records.last().configured_speed matches Some(MemorySpeedField::MTs(v))
            && detected_speed(record_slots(records)) == v,
        detected_type(record_slots(records)) == slot_for_record(records.last()).memory_type,
{
    let slots = record_slots(records);
    assert(slots.last() == slot_for_record(records.last()));
    lemma_slot_from_record(records.last());
}

/// The channel mode of a number of populated slots: single channel for at
/// most one, dual for two, quad for four, octa for eight, and the count of
/// channels otherwise.
pub proof fn lemma_channel_modes(n: nat)
    ensures
        n <= 1 ==> channel_mode_for(n) == "Single Channel (1x 64-bit)"@,
        n == 2 ==> channel_mode_for(n) == "Dual Channel (2x 64-bit / 4x 32-bit)"@,
        n == 4 ==> channel_mode_for(n) == "Quad Channel (4x 64-bit)"@,
        n == 8 ==> channel_mode_for(n) == "Octa Channel (8x 64-bit)"@,
        !(n <= 1 || n == 2 || n == 4 || n == 8) ==> channel_mode_for(n) == decimal(n) + " Channels"@,
{
}

/// The assumed primary timings: CL30-36-36-76 tRC 112 for DDR5, CL16-18-18-36
/// tRC 56 for DDR4, CL11-11-11-28 tRC 39 for any other type.
pub proof fn lemma_timings(t: Seq<char>)
    ensures
        t == "DDR5"@ ==> timings_for(t) == (30u32, 36u32, 36u32, 76u32, 112u32),
        t == "DDR4"@ ==> timings_for(t) == (16u32, 18u32, 18u32, 36u32, 56u32),
        t != "DDR5"@ && t != "DDR4"@ ==> timings_for(t) == (11u32, 11u32, 11u32, 28u32, 39u32),
{
    reveal_strlit("DDR5");
    reveal_strlit("DDR4");
    assert("DDR5"@[3] != "DDR4"@[3]);
}

/// The presets of a module: for DDR5 the JEDEC 4800 and 5200 presets then
/// EXPO and XMP at the target transfer rate (clock at half the rate,
/// CL30-36-36-76, 1.35 V); for any other type two JEDEC presets and
/// XMP-3200.
pub proof fn lemma_timing_presets(mem_type: Seq<char>, target_speed: u32)
    ensures
        ({
            let p = timing_profiles_for(mem_type, target_speed);
            &&& mem_type == "DDR5"@ ==> {
                &&& p.len() == 4
                &&& p[0] == TimingProfileView { name: "JEDEC #1"@, frequency_mhz: 2400, cas_latency: 40, trcd: 40, trp: 40,
                    tras: 77, trc: 117, voltage_mv: 1100 }
                &&& p[1] == TimingProfileView { name: "JEDEC #2"@, frequency_mhz: 2600, cas_latency: 42, trcd: 42, trp: 42,
                    tras: 84, trc: 126, voltage_mv: 1100 }
                &&& p[2] == TimingProfileView { name: "EXPO-6000"@, frequency_mhz: target_speed / 2, cas_latency: 30,
                    trcd: 36, trp: 36, tras: 76, trc: 112, voltage_mv: 1350 }
                &&& p[3] == TimingProfileView { name: "XMP-6000"@, frequency_mhz: target_speed / 2, cas_latency: 30,
                    trcd: 36, trp: 36, tras: 76, trc: 112, voltage_mv: 1350 }
            }
            &&& mem_type != "DDR5"@ ==> {
                &&& p.len() == 3
                &&& p[0] == TimingProfileView { name: "JEDEC #1"@, frequency_mhz: 1066, cas_latency: 15, trcd: 15, trp: 15,
                    tras: 36, trc: 50, voltage_mv: 1200 }
                &&& p[1] == TimingProfileView { name: "JEDEC #2"@, frequency_mhz: 1200, cas_latency: 16, trcd: 16, trp: 16,
                    tras: 39, trc: 55, voltage_mv: 1200 }
                &&& p[2] == TimingProfileView { name: "XMP-3200"@, frequency_mhz: 1600, cas_latency: 16, trcd: 18, trp: 18,
                    tras: 36, trc: 56, voltage_mv: 1350 }
            }
        }),
{
}

/// Without memory device records the summary assumes two DDR5-6000 slots,
/// DIMM 1 and DIMM 2, each holding half the memory but at least 8 GiB.
pub proof fn lemma_assumed_slots(total_mb: u64)
    ensures
        ({
            let s = slots_for(seq![], total_mb);
            let half: int = if total_mb / 2 >= 8192 { (total_mb / 2) as int } else { 8192 };
            &&& s.len() == 2
            &&& s[0].slot_name == "DIMM 1"@ && s[1].slot_name == "DIMM 2"@
            &&& s[0].size_mb == half && s[1].size_mb == half
            &&& s[0].memory_type == "DDR5"@ && s[1].memory_type == "DDR5"@
            &&& s[0].speed_mhz == 6000 && s[0].configured_speed_mhz == 6000
            &&& s[1].speed_mhz == 6000 && s[1].configured_speed_mhz == 6000
        }),
{
}

} // verus!
