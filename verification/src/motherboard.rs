//! Motherboard and BIOS description built from SMBIOS strings, and the
//! chipset heuristic.
use vstd::prelude::*;
use crate::text::{informative, is_informative, str_eq, chars_contain, chars_of, concat2, contains_seq, owned, push_char, push_decimal, str_contains, trim_string, trim_ws, to_uppercase, uppercase, decimal};

verus! {

/// Motherboard and BIOS hardware information.
#[derive(Clone, Debug)]
pub struct MotherboardInfo {
    /// Motherboard manufacturer.
    pub manufacturer: String,
    /// Motherboard product model.
    pub model: String,
    /// Motherboard hardware version.
    pub version: String,
    /// Motherboard serial number.
    pub serial_number: String,
    /// System manufacturer (OEM name).
    pub system_manufacturer: String,
    /// System SKU.
    pub system_sku: String,
    /// Chipset estimate.
    pub chipset: String,
    /// Bus specifications.
    pub bus_specs: String,
    /// Graphic interface support.
    pub graphic_interface: String,
    /// BIOS vendor.
    pub bios_vendor: String,
    /// BIOS version.
    pub bios_version: String,
    /// BIOS release date.
    pub bios_date: String,
    /// SMBIOS table version.
    pub smbios_version: String,
}

/// The mathematical value of a [`MotherboardInfo`]: its thirteen texts.
pub struct MotherboardView {
    /// Motherboard manufacturer.
    pub manufacturer: Seq<char>,
    /// Product model.
    pub model: Seq<char>,
    /// Hardware version.
    pub version: Seq<char>,
    /// Serial number.
    pub serial_number: Seq<char>,
    /// System manufacturer.
    pub system_manufacturer: Seq<char>,
    /// System SKU.
    pub system_sku: Seq<char>,
    /// Chipset estimate.
    pub chipset: Seq<char>,
    /// Bus specifications.
    pub bus_specs: Seq<char>,
    /// Graphic interface.
    pub graphic_interface: Seq<char>,
    /// BIOS vendor.
    pub bios_vendor: Seq<char>,
    /// BIOS version.
    pub bios_version: Seq<char>,
    /// BIOS release date.
    pub bios_date: Seq<char>,
    /// SMBIOS version.
    pub smbios_version: Seq<char>,
}

impl View for MotherboardInfo {
    type V = MotherboardView;

    open spec fn view(&self) -> MotherboardView {
        MotherboardView {
            manufacturer: self.manufacturer@,
            model: self.model@,
            version: self.version@,
            serial_number: self.serial_number@,
            system_manufacturer: self.system_manufacturer@,
            system_sku: self.system_sku@,
            chipset: self.chipset@,
            bus_specs: self.bus_specs@,
            graphic_interface: self.graphic_interface@,
            bios_vendor: self.bios_vendor@,
            bios_version: self.bios_version@,
            bios_date: self.bios_date@,
            smbios_version: self.smbios_version@,
        }
    }
}

/// The description used before (or without) any SMBIOS data.
pub open spec fn default_motherboard() -> MotherboardView {
    MotherboardView {
        manufacturer: "Unknown Manufacturer"@,
        model: "Base Board Model"@,
        version: "Rev 1.0"@,
        serial_number: "Default string"@,
        system_manufacturer: "System Manufacturer"@,
        system_sku: "Default SKU"@,
        chipset: "AMD / Intel Platform Controller Hub"@,
        bus_specs: "PCI-Express 4.0 / 5.0"@,
        graphic_interface: "PCI-Express 5.0 x16"@,
        bios_vendor: "American Megatrends Inc."@,
        bios_version: "1.00"@,
        bios_date: "01/01/2024"@,
        smbios_version: "3.5"@,
    }
}

impl Default for MotherboardInfo {
    /// The description used before (or without) any SMBIOS data.
    fn default() -> (r: MotherboardInfo)
        ensures
            r@ == default_motherboard(),
    {
        MotherboardInfo {
            manufacturer: owned("Unknown Manufacturer"),
            model: owned("Base Board Model"),
            version: owned("Rev 1.0"),
            serial_number: owned("Default string"),
            system_manufacturer: owned("System Manufacturer"),
            system_sku: owned("Default SKU"),
            chipset: owned("AMD / Intel Platform Controller Hub"),
            bus_specs: owned("PCI-Express 4.0 / 5.0"),
            graphic_interface: owned("PCI-Express 5.0 x16"),
            bios_vendor: owned("American Megatrends Inc."),
            bios_version: owned("1.00"),
            bios_date: owned("01/01/2024"),
            smbios_version: owned("3.5"),
        }
    }
}

// ---------------------------------------------------------------------------
// Chipset heuristic
// ---------------------------------------------------------------------------

/// The chipset chosen from the upper-cased model and the manufacturer.
pub open spec fn chipset_for(upper: Seq<char>, manufacturer: Seq<char>) -> Seq<char> {
    if contains_seq(upper, "X870E"@) { "AMD X870E Promontory 21"@ }
    else if contains_seq(upper, "X870"@) { "AMD X870 Promontory 21"@ }
    else if contains_seq(upper, "X670E"@) { "AMD X670E Dual Promontory 21"@ }
    else if contains_seq(upper, "X670"@) { "AMD X670 Dual Promontory 21"@ }
    else if contains_seq(upper, "B650E"@) { "AMD B650E Extreme"@ }
    else if contains_seq(upper, "B650"@) { "AMD B650 Promontory 21"@ }
    else if contains_seq(upper, "A620"@) { "AMD A620"@ }
    else if contains_seq(upper, "X570"@) { "AMD X570"@ }
    else if contains_seq(upper, "B550"@) { "AMD B550"@ }
    else if contains_seq(upper, "B450"@) { "AMD B450 Promontory"@ }
    else if contains_seq(upper, "A520"@) { "AMD A520"@ }
    else if contains_seq(upper, "Z890"@) { "Intel Z890 Chipset (Arrow Lake)"@ }
    else if contains_seq(upper, "Z790"@) { "Intel Z790 Express Chipset"@ }
    else if contains_seq(upper, "B760"@) { "Intel B760 Express Chipset"@ }
    else if contains_seq(upper, "H770"@) { "Intel H770 Express Chipset"@ }
    else if contains_seq(upper, "Z690"@) { "Intel Z690 Express Chipset"@ }
    else if contains_seq(upper, "B660"@) { "Intel B660 Express Chipset"@ }
    else if contains_seq(upper, "Z590"@) { "Intel Z590 Express Chipset"@ }
    else if contains_seq(upper, "B560"@) { "Intel B560 Express Chipset"@ }
    else if contains_seq(upper, "Z490"@) { "Intel Z490 Express Chipset"@ }
    else if contains_seq(upper, "B460"@) { "Intel B460 Express Chipset"@ }
    else { manufacturer + " Host Bridge / PCH"@ }
}

/// Chooses the chipset from the already upper-cased model.
pub fn chipset_from_uppercase(upper: &str, manufacturer: &str) -> (r: String)
    ensures
        r@ == chipset_for(upper@, manufacturer@),
{
    let m = chars_of(upper);
    if chars_contain(&m, "X870E") { owned("AMD X870E Promontory 21") }
    else if chars_contain(&m, "X870") { owned("AMD X870 Promontory 21") }
    else if chars_contain(&m, "X670E") { owned("AMD X670E Dual Promontory 21") }
    else if chars_contain(&m, "X670") { owned("AMD X670 Dual Promontory 21") }
    else if chars_contain(&m, "B650E") { owned("AMD B650E Extreme") }
    else if chars_contain(&m, "B650") { owned("AMD B650 Promontory 21") }
    else if chars_contain(&m, "A620") { owned("AMD A620") }
    else if chars_contain(&m, "X570") { owned("AMD X570") }
    else if chars_contain(&m, "B550") { owned("AMD B550") }
    else if chars_contain(&m, "B450") { owned("AMD B450 Promontory") }
    else if chars_contain(&m, "A520") { owned("AMD A520") }
    else if chars_contain(&m, "Z890") { owned("Intel Z890 Chipset (Arrow Lake)") }
    else if chars_contain(&m, "Z790") { owned("Intel Z790 Express Chipset") }
    else if chars_contain(&m, "B760") { owned("Intel B760 Express Chipset") }
    else if chars_contain(&m, "H770") { owned("Intel H770 Express Chipset") }
    else if chars_contain(&m, "Z690") { owned("Intel Z690 Express Chipset") }
    else if chars_contain(&m, "B660") { owned("Intel B660 Express Chipset") }
    else if chars_contain(&m, "Z590") { owned("Intel Z590 Express Chipset") }
    else if chars_contain(&m, "B560") { owned("Intel B560 Express Chipset") }
    else if chars_contain(&m, "Z490") { owned("Intel Z490 Express Chipset") }
    else if chars_contain(&m, "B460") { owned("Intel B460 Express Chipset") }
    else { concat2(manufacturer, " Host Bridge / PCH") }
}

/// Deduces the chipset family from the motherboard model (compared after
/// Unicode upper-casing), falling back to a host bridge of the manufacturer.
pub fn guess_chipset(model: &str, manufacturer: &str) -> (r: String)
    ensures
        r@ == chipset_for(uppercase(model@), manufacturer@),
{
    let upper = to_uppercase(model);
    chipset_from_uppercase(upper.as_str(), manufacturer)
}


// ---------------------------------------------------------------------------
// SMBIOS records
// ---------------------------------------------------------------------------

/// SMBIOS entry point version.
#[derive(Clone, Copy, Debug, PartialEq, Eq, Structural)]
pub struct SmbiosVersion {
    /// Major version.
    pub major: u8,
    /// Minor version.
    pub minor: u8,
    /// Revision.
    pub revision: u8,
}

/// Texts of one baseboard structure (SMBIOS type 2).
#[derive(Clone, Debug)]
pub struct BaseboardStrings {
    /// Manufacturer.
    pub manufacturer: String,
    /// Product.
    pub product: String,
    /// Version.
    pub version: String,
    /// Serial number.
    pub serial_number: String,
}

/// Texts of one system information structure (SMBIOS type 1).
#[derive(Clone, Debug)]
pub struct SystemStrings {
    /// Manufacturer.
    pub manufacturer: String,
    /// SKU number.
    pub sku_number: String,
    /// Product name.
    pub product_name: String,
}

/// Texts of one BIOS information structure (SMBIOS type 0).
#[derive(Clone, Debug)]
pub struct BiosStrings {
    /// Vendor.
    pub vendor: String,
    /// Version.
    pub version: String,
    /// Release date.
    pub release_date: String,
}

/// The SMBIOS structures that the motherboard description reads.
#[derive(Clone, Debug)]
pub struct SmbiosTables {
    /// Entry point version, when present.
    pub version: Option<SmbiosVersion>,
    /// Baseboard structures, in table order.
    pub baseboards: Vec<BaseboardStrings>,
    /// System information structures, in table order.
    pub systems: Vec<SystemStrings>,
    /// BIOS information structures, in table order.
    pub bioses: Vec<BiosStrings>,
}

/// `new` when it carries information, else `cur`.
pub open spec fn pick(cur: Seq<char>, new: Seq<char>) -> Seq<char> {
    if is_informative(new) { new } else { cur }
}

/// The description after reading one baseboard structure.
pub open spec fn with_baseboard(m: MotherboardView, b: BaseboardStrings) -> MotherboardView {
    MotherboardView {
        manufacturer: pick(m.manufacturer, b.manufacturer@),
        model: pick(m.model, b.product@),
        version: pick(m.version, b.version@),
        serial_number: pick(m.serial_number, b.serial_number@),
        ..m
    }
}

/// The description after reading one system information structure: the
/// system product name replaces the model only while the model is still
/// the default one.
pub open spec fn with_system(m: MotherboardView, s: SystemStrings) -> MotherboardView {
    MotherboardView {
        system_manufacturer: pick(m.system_manufacturer, s.manufacturer@),
        system_sku: pick(m.system_sku, s.sku_number@),
        model: if m.model == "Base Board Model"@ { pick(m.model, s.product_name@) } else { m.model },
        ..m
    }
}

/// The description after reading one BIOS information structure.
pub open spec fn with_bios(m: MotherboardView, b: BiosStrings) -> MotherboardView {
    MotherboardView {
        bios_vendor: pick(m.bios_vendor, b.vendor@),
        bios_version: pick(m.bios_version, b.version@),
        bios_date: pick(m.bios_date, b.release_date@),
        ..m
    }
}

/// The description after reading the baseboard structures in order.
pub open spec fn with_baseboards(m: MotherboardView, bs: Seq<BaseboardStrings>) -> MotherboardView
    decreases bs.len(),
{
    if bs.len() == 0 { m } else { with_baseboard(with_baseboards(m, bs.drop_last()), bs.last()) }
}

/// The description after reading the system structures in order.
pub open spec fn with_systems(m: MotherboardView, ss: Seq<SystemStrings>) -> MotherboardView
    decreases ss.len(),
{
    if ss.len() == 0 { m } else { with_system(with_systems(m, ss.drop_last()), ss.last()) }
}

/// The description after reading the BIOS structures in order.
pub open spec fn with_bioses(m: MotherboardView, bs: Seq<BiosStrings>) -> MotherboardView
    decreases bs.len(),
{
    if bs.len() == 0 { m } else { with_bios(with_bioses(m, bs.drop_last()), bs.last()) }
}

/// `major.minor.revision` in decimal.
pub open spec fn version_text(v: SmbiosVersion) -> Seq<char> {
    decimal(v.major as nat) + seq!['.'] + decimal(v.minor as nat) + seq!['.'] + decimal(v.revision as nat)
}

/// The description read from the SMBIOS tables, before the chipset is
/// deduced: version, then baseboards, system structures and BIOS structures.
pub open spec fn read_tables(t: SmbiosTables) -> MotherboardView {
    let d = default_motherboard();
    let v = match t.version {
        Some(ver) => MotherboardView { smbios_version: version_text(ver), ..d },
        None => d,
    };
    with_bioses(with_systems(with_baseboards(v, t.baseboards@), t.systems@), t.bioses@)
}

/// The description for the tables, or for their absence, with the chipset
/// deduced from the final model and manufacturer.
pub open spec fn motherboard_for(tables: Option<SmbiosTables>) -> MotherboardView {
    let m = match tables {
        Some(t) => read_tables(t),
        None => default_motherboard(),
    };
    MotherboardView { chipset: chipset_for(uppercase(m.model), m.manufacturer), ..m }
}

fn pick_into(cur: &mut String, new: &String)
    ensures
        final(cur)@ == pick(old(cur)@, new@),
{
    if informative(new.as_str()) {
        *cur = new.clone();
    }
}

impl MotherboardInfo {
    fn apply_baseboard(&mut self, b: &BaseboardStrings)
        ensures
            final(self)@ == with_baseboard(old(self)@, *b),
    {
        pick_into(&mut self.manufacturer, &b.manufacturer);
        pick_into(&mut self.model, &b.product);
        pick_into(&mut self.version, &b.version);
        pick_into(&mut self.serial_number, &b.serial_number);
    }

    fn apply_system(&mut self, s: &SystemStrings)
        ensures
            final(self)@ == with_system(old(self)@, *s),
    {
        pick_into(&mut self.system_manufacturer, &s.manufacturer);
        pick_into(&mut self.system_sku, &s.sku_number);
        if str_eq(self.model.as_str(), "Base Board Model") {
            pick_into(&mut self.model, &s.product_name);
        }
    }

    fn apply_bios(&mut self, b: &BiosStrings)
        ensures
            final(self)@ == with_bios(old(self)@, *b),
    {
        pick_into(&mut self.bios_vendor, &b.vendor);
        pick_into(&mut self.bios_version, &b.version);
        pick_into(&mut self.bios_date, &b.release_date);
    }

    /// Builds the motherboard and BIOS description from the SMBIOS tables
    /// (`None` when they could not be read): informative texts replace the
    /// defaults, later structures over earlier ones, and the chipset is
    /// deduced from the resulting model.
    pub fn from_smbios(tables: &Option<SmbiosTables>) -> (r: MotherboardInfo)
        ensures
            r@ == motherboard_for(*tables),
    {
        let mut info = MotherboardInfo::default();
        match tables {
            Some(t) => {
                match t.version {
                    Some(ver) => {
                        let mut s = String::new();
                        push_decimal(&mut s, ver.major as u64);
                        push_char(&mut s, '.');
                        push_decimal(&mut s, ver.minor as u64);
                        push_char(&mut s, '.');
                        push_decimal(&mut s, ver.revision as u64);
                        assert(s@ =~= version_text(ver));
                        info.smbios_version = s;
                    },
                    None => {},
                }
                let ghost start = info@;
                let mut i: usize = 0;
                while i < t.baseboards.len()
                    invariant
                        i <= t.baseboards@.len(),
                        info@ == with_baseboards(start, t.baseboards@.subrange(0, i as int)),
                    decreases t.baseboards@.len() - i,
                {
                    assert(t.baseboards@.subrange(0, i + 1).drop_last() =~= t.baseboards@.subrange(0, i as int));
                    info.apply_baseboard(&t.baseboards[i]);
                    i = i + 1;
                }
                assert(t.baseboards@.subrange(0, i as int) =~= t.baseboards@);
                let ghost after_b = info@;
                let mut i: usize = 0;
                while i < t.systems.len()
                    invariant
                        i <= t.systems@.len(),
                        info@ == with_systems(after_b, t.systems@.subrange(0, i as int)),
                    decreases t.systems@.len() - i,
                {
                    assert(t.systems@.subrange(0, i + 1).drop_last() =~= t.systems@.subrange(0, i as int));
                    info.apply_system(&t.systems[i]);
                    i = i + 1;
                }
                assert(t.systems@.subrange(0, i as int) =~= t.systems@);
                let ghost after_s = info@;
                let mut i: usize = 0;
                while i < t.bioses.len()
                    invariant
                        i <= t.bioses@.len(),
                        info@ == with_bioses(after_s, t.bioses@.subrange(0, i as int)),
                    decreases t.bioses@.len() - i,
                {
                    assert(t.bioses@.subrange(0, i + 1).drop_last() =~= t.bioses@.subrange(0, i as int));
                    info.apply_bios(&t.bioses[i]);
                    i = i + 1;
                }
                assert(t.bioses@.subrange(0, i as int) =~= t.bioses@);
            },
            None => {},
        }
        info.chipset = guess_chipset(info.model.as_str(), info.manufacturer.as_str());
        info
    }
}

// ---------------------------------------------------------------------------
// Laws
// ---------------------------------------------------------------------------

/// Reading SMBIOS tables without any structure or version changes nothing
/// compared with having no tables.
pub proof fn lemma_empty_tables_change_nothing(t: SmbiosTables)
    requires
        t.version is None,
        t.baseboards@.len() == 0,
        t.systems@.len() == 0,
        t.bioses@.len() == 0,
    ensures
        motherboard_for(Some(t)) == motherboard_for(None),
{
}

/// An uninformative text never replaces a value.
pub proof fn lemma_uninformative_kept(cur: Seq<char>, new: Seq<char>)
    requires
        !is_informative(new),
    ensures
        pick(cur, new) == cur,
{
}

/// The last informative baseboard manufacturer is the one shown.
pub proof fn lemma_last_baseboard_wins(m: MotherboardView, bs: Seq<BaseboardStrings>)
    requires
        bs.len() > 0,
        is_informative(bs.last().manufacturer@),
    ensures
        with_baseboards(m, bs).manufacturer == bs.last().manufacturer@,
{
}

/// The chipset is named after the first chipset model found in the
/// upper-cased board model, checked from the newest AMD (X870E) to the oldest
/// Intel (B460), an `E` variant before its plain model; a board naming none of
/// them gets the manufacturer's host bridge.
pub proof fn lemma_chipsets(upper: Seq<char>, manufacturer: Seq<char>)
    ensures
        ({
            let r = chipset_for(upper, manufacturer);
            let x870e = contains_seq(upper, "X870E"@);
            let x870 = contains_seq(upper, "X870"@);
            let x670e = contains_seq(upper, "X670E"@);
            let x670 = contains_seq(upper, "X670"@);
            let b650e = contains_seq(upper, "B650E"@);
            let b650 = contains_seq(upper, "B650"@);
            let a620 = contains_seq(upper, "A620"@);
            let x570 = contains_seq(upper, "X570"@);
            let b550 = contains_seq(upper, "B550"@);
            let b450 = contains_seq(upper, "B450"@);
            let a520 = contains_seq(upper, "A520"@);
            let z890 = contains_seq(upper, "Z890"@);
            let z790 = contains_seq(upper, "Z790"@);
            let b760 = contains_seq(upper, "B760"@);
            let h770 = contains_seq(upper, "H770"@);
            let z690 = contains_seq(upper, "Z690"@);
            let b660 = contains_seq(upper, "B660"@);
            let z590 = contains_seq(upper, "Z590"@);
            let b560 = contains_seq(upper, "B560"@);
            let z490 = contains_seq(upper, "Z490"@);
            let b460 = contains_seq(upper, "B460"@);
            &&& x870e ==> r == "AMD X870E Promontory 21"@
            &&& !(x870e) && x870 ==> r == "AMD X870 Promontory 21"@
            &&& !(x870e || x870) && x670e ==> r == "AMD X670E Dual Promontory 21"@
            &&& !(x870e || x870 || x670e) && x670 ==> r == "AMD X670 Dual Promontory 21"@
            &&& !(x870e || x870 || x670e || x670) && b650e ==> r == "AMD B650E Extreme"@
            &&& !(x870e || x870 || x670e || x670 || b650e) && b650 ==> r == "AMD B650 Promontory 21"@
            &&& !(x870e || x870 || x670e || x670 || b650e || b650) && a620 ==> r == "AMD A620"@
            &&& !(x870e || x870 || x670e || x670 || b650e || b650 || a620) && x570 ==> r == "AMD X570"@
            &&& !(x870e || x870 || x670e || x670 || b650e || b650 || a620 || x570) && b550 ==> r == "AMD B550"@
            &&& !(x870e || x870 || x670e || x670 || b650e || b650 || a620 || x570 || b550) && b450 ==> r == "AMD B450 Promontory"@
            &&& !(x870e || x870 || x670e || x670 || b650e || b650 || a620 || x570 || b550 || b450) && a520 ==> r == "AMD A520"@
            &&& !(x870e || x870 || x670e || x670 || b650e || b650 || a620 || x570 || b550 || b450 || a520) && z890 ==> r == "Intel Z890 Chipset (Arrow Lake)"@
            &&& !(x870e || x870 || x670e || x670 || b650e || b650 || a620 || x570 || b550 || b450 || a520 || z890) && z790 ==> r == "Intel Z790 Express Chipset"@
            &&& !(x870e || x870 || x670e || x670 || b650e || b650 || a620 || x570 || b550 || b450 || a520 || z890 || z790) && b760 ==> r == "Intel B760 Express Chipset"@
            &&& !(x870e || x870 || x670e || x670 || b650e || b650 || a620 || x570 || b550 || b450 || a520 || z890 || z790 || b760) && h770 ==> r == "Intel H770 Express Chipset"@
            &&& !(x870e || x870 || x670e || x670 || b650e || b650 || a620 || x570 || b550 || b450 || a520 || z890 || z790 || b760 || h770) && z690 ==> r == "Intel Z690 Express Chipset"@
            &&& !(x870e || x870 || x670e || x670 || b650e || b650 || a620 || x570 || b550 || b450 || a520 || z890 || z790 || b760 || h770 || z690) && b660 ==> r == "Intel B660 Express Chipset"@
            &&& !(x870e || x870 || x670e || x670 || b650e || b650 || a620 || x570 || b550 || b450 || a520 || z890 || z790 || b760 || h770 || z690 || b660) && z590 ==> r == "Intel Z590 Express Chipset"@
            &&& !(x870e || x870 || x670e || x670 || b650e || b650 || a620 || x570 || b550 || b450 || a520 || z890 || z790 || b760 || h770 || z690 || b660 || z590) && b560 ==> r == "Intel B560 Express Chipset"@
            &&& !(x870e || x870 || x670e || x670 || b650e || b650 || a620 || x570 || b550 || b450 || a520 || z890 || z790 || b760 || h770 || z690 || b660 || z590 || b560) && z490 ==> r == "Intel Z490 Express Chipset"@
            &&& !(x870e || x870 || x670e || x670 || b650e || b650 || a620 || x570 || b550 || b450 || a520 || z890 || z790 || b760 || h770 || z690 || b660 || z590 || b560 || z490) && b460 ==> r == "Intel B460 Express Chipset"@
            &&& !(x870e || x870 || x670e || x670 || b650e || b650 || a620 || x570 || b550 || b450 || a520 || z890 || z790 || b760 || h770 || z690 || b660 || z590 || b560 || z490 || b460) ==> r == manufacturer + " Host Bridge / PCH"@
        }),
{
}

/// Without SMBIOS tables the board is described by the defaults: unknown
/// manufacturer, base board model, revision 1.0, AMI BIOS 1.00 of
/// 01/01/2024, SMBIOS 3.5, PCIe 4.0 / 5.0 buses and a PCIe 5.0 x16 slot;
/// the chipset is then deduced from that model and manufacturer.
pub proof fn lemma_board_without_tables()
    ensures
        ({
            let m = motherboard_for(None);
            &&& m.manufacturer == "Unknown Manufacturer"@
            &&& m.model == "Base Board Model"@
            &&& m.version == "Rev 1.0"@
            &&& m.serial_number == "Default string"@
            &&& m.system_manufacturer == "System Manufacturer"@
            &&& m.system_sku == "Default SKU"@
            &&& m.bus_specs == "PCI-Express 4.0 / 5.0"@
            &&& m.graphic_interface == "PCI-Express 5.0 x16"@
            &&& m.bios_vendor == "American Megatrends Inc."@
            &&& m.bios_version == "1.00"@
            &&& m.bios_date == "01/01/2024"@
            &&& m.smbios_version == "3.5"@
            &&& m.chipset == chipset_for(uppercase("Base Board Model"@), "Unknown Manufacturer"@)
        }),
{
}

/// Each structure read fills its own fields with its informative texts: a
/// baseboard its manufacturer, product, version and serial; a system its
/// manufacturer and SKU, and its product name as the model only while the
/// model is still the default; a BIOS its vendor, version and date.
pub proof fn lemma_structures_fill_fields(m: MotherboardView, b: BaseboardStrings, s: SystemStrings, bios: BiosStrings)
    ensures
        is_informative(b.manufacturer@) ==> with_baseboard(m, b).manufacturer == b.manufacturer@,
        is_informative(b.product@) ==> with_baseboard(m, b).model == b.product@,
        is_informative(b.version@) ==> with_baseboard(m, b).version == b.version@,
        is_informative(b.serial_number@) ==> with_baseboard(m, b).serial_number == b.serial_number@,
        is_informative(s.manufacturer@) ==> with_system(m, s).system_manufacturer == s.manufacturer@,
        is_informative(s.sku_number@) ==> with_system(m, s).system_sku == s.sku_number@,
        m.model == "Base Board Model"@ && is_informative(s.product_name@) ==> with_system(m, s).model == s.product_name@,
        m.model != "Base Board Model"@ ==> with_system(m, s).model == m.model,
        is_informative(bios.vendor@) ==> with_bios(m, bios).bios_vendor == bios.vendor@,
        is_informative(bios.version@) ==> with_bios(m, bios).bios_version == bios.version@,
        is_informative(bios.release_date@) ==> with_bios(m, bios).bios_date == bios.release_date@,
        with_bios(m, bios).model == m.model && with_system(m, s).bios_vendor == m.bios_vendor,
{
}

} // verus!
