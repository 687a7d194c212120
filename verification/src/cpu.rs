//! Processor identification: microarchitecture, lithography and socket
//! heuristics, instruction-set listing and cache topology.
use vstd::prelude::*;
use crate::bench::{rounded_quotient, round_div_wide};
use crate::text::{hex_upper, push_char, push_hex_upper, trim_string, trim_ws, eq_ignore_ascii_case, range_eq_ignore_ascii_case, chars_contain, decimal, decimal_string, opt_name, push_if, string_views, chars_of, contains_seq, join3_spaced, lowercase, owned, str_contains, to_lowercase};

verus! {

// ---------------------------------------------------------------------------
// Code name, lithography and socket heuristics
// ---------------------------------------------------------------------------

/// The code name chosen for a processor from its vendor string, its
/// lower-cased brand string and its CPUID family.
pub open spec fn code_name_for(vendor: Seq<char>, lower: Seq<char>, family: u32) -> Seq<char> {
    if contains_seq(vendor, "AMD"@) || contains_seq(lower, "ryzen"@) || contains_seq(lower, "amd"@) {
        if contains_seq(lower, "9950"@) || contains_seq(lower, "9900"@) || contains_seq(lower, "9800"@)
            || contains_seq(lower, "9700"@) || contains_seq(lower, "9600"@) || contains_seq(lower, "granite"@) {
            "Granite Ridge (Zen 5)"@
        } else if contains_seq(lower, "hx 3"@) || contains_seq(lower, "strix"@) {
            "Strix Point (Zen 5)"@
        } else if contains_seq(lower, "8700"@) || contains_seq(lower, "8600"@) || contains_seq(lower, "8500"@)
            || contains_seq(lower, "hawk"@) || contains_seq(lower, "phoenix"@) {
            "Hawk Point / Phoenix (Zen 4)"@
        } else if contains_seq(lower, "7950"@) || contains_seq(lower, "7900"@) || contains_seq(lower, "7800"@)
            || contains_seq(lower, "7700"@) || contains_seq(lower, "7600"@) || contains_seq(lower, "raphael"@) {
            "Raphael (Zen 4)"@
        } else if contains_seq(lower, "5950"@) || contains_seq(lower, "5900"@) || contains_seq(lower, "5800"@)
            || contains_seq(lower, "5700"@) || contains_seq(lower, "5600"@) {
            "Vermeer / Cezanne (Zen 3)"@
        } else if contains_seq(lower, "3950"@) || contains_seq(lower, "3900"@) || contains_seq(lower, "3800"@)
            || contains_seq(lower, "3700"@) || contains_seq(lower, "3600"@) {
            "Matisse (Zen 2)"@
        } else if contains_seq(lower, "2700"@) || contains_seq(lower, "2600"@) {
            "Pinnacle Ridge (Zen+)"@
        } else if contains_seq(lower, "1800"@) || contains_seq(lower, "1700"@) || contains_seq(lower, "1600"@) {
            "Summit Ridge (Zen)"@
        } else if family == 25 {
            "Zen 3 / Zen 4"@
        } else if family == 26 {
            "Zen 5"@
        } else {
            "AMD Microarchitecture"@
        }
    } else if contains_seq(vendor, "Intel"@) || contains_seq(lower, "intel"@) || contains_seq(lower, "core"@) {
        if contains_seq(lower, "285"@) || contains_seq(lower, "265"@) || contains_seq(lower, "245"@)
            || contains_seq(lower, "arrow"@) {
            "Arrow Lake (Core Ultra 200)"@
        } else if contains_seq(lower, "185"@) || contains_seq(lower, "165"@) || contains_seq(lower, "155"@)
            || contains_seq(lower, "meteor"@) {
            "Meteor Lake (Core Ultra 100)"@
        } else if contains_seq(lower, "14900"@) || contains_seq(lower, "14700"@) || contains_seq(lower, "14600"@)
            || contains_seq(lower, "14400"@) {
            "Raptor Lake Refresh"@
        } else if contains_seq(lower, "13900"@) || contains_seq(lower, "13700"@) || contains_seq(lower, "13600"@)
            || contains_seq(lower, "13400"@) {
            "Raptor Lake"@
        } else if contains_seq(lower, "12900"@) || contains_seq(lower, "12700"@) || contains_seq(lower, "12600"@)
            || contains_seq(lower, "12400"@) {
            "Alder Lake"@
        } else if contains_seq(lower, "11900"@) || contains_seq(lower, "11700"@) || contains_seq(lower, "11600"@) {
            "Rocket Lake"@
        } else if contains_seq(lower, "10900"@) || contains_seq(lower, "10700"@) || contains_seq(lower, "10600"@)
            || contains_seq(lower, "10400"@) {
            "Comet Lake"@
        } else if contains_seq(lower, "9900"@) || contains_seq(lower, "9700"@) || contains_seq(lower, "9600"@) {
            "Coffee Lake Refresh"@
        } else if contains_seq(lower, "ultra"@) {
            "Core Ultra Microarchitecture"@
        } else {
            "Intel Core Microarchitecture"@
        }
    } else {
        "x86-64 Architecture"@
    }
}

/// Chooses the code name from the vendor string, the already lower-cased
/// brand string and the CPUID family.
pub fn code_name_from_lowercase(vendor: &str, name_lower: &str, family: u32) -> (r: String)
    ensures
        r@ == code_name_for(vendor@, name_lower@, family),
{
    let l = chars_of(name_lower);
    if str_contains(vendor, "AMD") || chars_contain(&l, "ryzen") || chars_contain(&l, "amd") {
        if chars_contain(&l, "9950") || chars_contain(&l, "9900") || chars_contain(&l, "9800")
            || chars_contain(&l, "9700") || chars_contain(&l, "9600") || chars_contain(&l, "granite") {
            owned("Granite Ridge (Zen 5)")
        } else if chars_contain(&l, "hx 3") || chars_contain(&l, "strix") {
            owned("Strix Point (Zen 5)")
        } else if chars_contain(&l, "8700") || chars_contain(&l, "8600") || chars_contain(&l, "8500")
            || chars_contain(&l, "hawk") || chars_contain(&l, "phoenix") {
            owned("Hawk Point / Phoenix (Zen 4)")
        } else if chars_contain(&l, "7950") || chars_contain(&l, "7900") || chars_contain(&l, "7800")
            || chars_contain(&l, "7700") || chars_contain(&l, "7600") || chars_contain(&l, "raphael") {
            owned("Raphael (Zen 4)")
        } else if chars_contain(&l, "5950") || chars_contain(&l, "5900") || chars_contain(&l, "5800")
            || chars_contain(&l, "5700") || chars_contain(&l, "5600") {
            owned("Vermeer / Cezanne (Zen 3)")
        } else if chars_contain(&l, "3950") || chars_contain(&l, "3900") || chars_contain(&l, "3800")
            || chars_contain(&l, "3700") || chars_contain(&l, "3600") {
            owned("Matisse (Zen 2)")
        } else if chars_contain(&l, "2700") || chars_contain(&l, "2600") {
            owned("Pinnacle Ridge (Zen+)")
        } else if chars_contain(&l, "1800") || chars_contain(&l, "1700") || chars_contain(&l, "1600") {
            owned("Summit Ridge (Zen)")
        } else if family == 25 {
            owned("Zen 3 / Zen 4")
        } else if family == 26 {
            owned("Zen 5")
        } else {
            owned("AMD Microarchitecture")
        }
    } else if str_contains(vendor, "Intel") || chars_contain(&l, "intel") || chars_contain(&l, "core") {
        if chars_contain(&l, "285") || chars_contain(&l, "265") || chars_contain(&l, "245")
            || chars_contain(&l, "arrow") {
            owned("Arrow Lake (Core Ultra 200)")
        } else if chars_contain(&l, "185") || chars_contain(&l, "165") || chars_contain(&l, "155")
            || chars_contain(&l, "meteor") {
            owned("Meteor Lake (Core Ultra 100)")
        } else if chars_contain(&l, "14900") || chars_contain(&l, "14700") || chars_contain(&l, "14600")
            || chars_contain(&l, "14400") {
            owned("Raptor Lake Refresh")
        } else if chars_contain(&l, "13900") || chars_contain(&l, "13700") || chars_contain(&l, "13600")
            || chars_contain(&l, "13400") {
            owned("Raptor Lake")
        } else if chars_contain(&l, "12900") || chars_contain(&l, "12700") || chars_contain(&l, "12600")
            || chars_contain(&l, "12400") {
            owned("Alder Lake")
        } else if chars_contain(&l, "11900") || chars_contain(&l, "11700") || chars_contain(&l, "11600") {
            owned("Rocket Lake")
        } else if chars_contain(&l, "10900") || chars_contain(&l, "10700") || chars_contain(&l, "10600")
            || chars_contain(&l, "10400") {
            owned("Comet Lake")
        } else if chars_contain(&l, "9900") || chars_contain(&l, "9700") || chars_contain(&l, "9600") {
            owned("Coffee Lake Refresh")
        } else if chars_contain(&l, "ultra") {
            owned("Core Ultra Microarchitecture")
        } else {
            owned("Intel Core Microarchitecture")
        }
    } else {
        owned("x86-64 Architecture")
    }
}

/// Deduces the microarchitecture code name from the vendor string, the
/// brand string (compared after Unicode lower-casing) and the CPUID family.
/// The extended family, model and extended model are accepted and unused.
pub fn guess_code_name(
    vendor: &str,
    name: &str,
    family: u32,
    _ext_family: u32,
    _model: u32,
    _ext_model: u32,
) -> (r: String)
    ensures
        r@ == code_name_for(vendor@, lowercase(name@), family),
{
    let lower = to_lowercase(name);
    code_name_from_lowercase(vendor, lower.as_str(), family)
}

/// The characters `name code_name vendor`, the text that the lithography
/// and socket heuristics lower-case and search.
pub open spec fn identity_text(name: Seq<char>, code_name: Seq<char>, vendor: Seq<char>) -> Seq<char> {
    name + seq![' '] + code_name + seq![' '] + vendor
}

/// The manufacturing process chosen from the lower-cased identity text.
pub open spec fn technology_for(lower: Seq<char>) -> Seq<char> {
    if contains_seq(lower, "zen 5"@) || contains_seq(lower, "granite"@) {
        "4 nm / 3 nm"@
    } else if contains_seq(lower, "zen 4"@) || contains_seq(lower, "raphael"@) {
        "5 nm TSMC"@
    } else if contains_seq(lower, "zen 3"@) || contains_seq(lower, "vermeer"@) || contains_seq(lower, "cezanne"@)
        || contains_seq(lower, "zen 2"@) || contains_seq(lower, "matisse"@) {
        "7 nm TSMC"@
    } else if contains_seq(lower, "raptor"@) || contains_seq(lower, "alder"@) {
        "Intel 7 (10 nm Enhanced SuperFin)"@
    } else if contains_seq(lower, "rocket"@) || contains_seq(lower, "comet"@) || contains_seq(lower, "coffee"@) {
        "14 nm"@
    } else if contains_seq(lower, "meteor"@) || contains_seq(lower, "arrow"@) {
        "Intel 4 / TSMC N3B"@
    } else {
        "FinFET"@
    }
}

/// Chooses the manufacturing process from the lower-cased identity text.
pub fn technology_from_lowercase(lower: &str) -> (r: String)
    ensures
        r@ == technology_for(lower@),
{
    let l = chars_of(lower);
    if chars_contain(&l, "zen 5") || chars_contain(&l, "granite") {
        owned("4 nm / 3 nm")
    } else if chars_contain(&l, "zen 4") || chars_contain(&l, "raphael") {
        owned("5 nm TSMC")
    } else if chars_contain(&l, "zen 3") || chars_contain(&l, "vermeer") || chars_contain(&l, "cezanne")
        || chars_contain(&l, "zen 2") || chars_contain(&l, "matisse") {
        owned("7 nm TSMC")
    } else if chars_contain(&l, "raptor") || chars_contain(&l, "alder") {
        owned("Intel 7 (10 nm Enhanced SuperFin)")
    } else if chars_contain(&l, "rocket") || chars_contain(&l, "comet") || chars_contain(&l, "coffee") {
        owned("14 nm")
    } else if chars_contain(&l, "meteor") || chars_contain(&l, "arrow") {
        owned("Intel 4 / TSMC N3B")
    } else {
        owned("FinFET")
    }
}

/// Deduces the manufacturing process from the brand string, code name and
/// vendor, joined by spaces and lower-cased.
pub fn guess_technology(name: &str, code_name: &str, vendor: &str) -> (r: String)
    ensures
        r@ == technology_for(lowercase(identity_text(name@, code_name@, vendor@))),
{
    let joined = join3_spaced(name, code_name, vendor);
    let lower = to_lowercase(joined.as_str());
    technology_from_lowercase(lower.as_str())
}

/// The socket chosen from the lower-cased identity text.
pub open spec fn socket_for(lower: Seq<char>) -> Seq<char> {
    if contains_seq(lower, "zen 5"@) || contains_seq(lower, "zen 4"@) || contains_seq(lower, "raphael"@)
        || contains_seq(lower, "granite"@) {
        "Socket AM5 (LGA1718)"@
    } else if contains_seq(lower, "zen 3"@) || contains_seq(lower, "zen 2"@) || contains_seq(lower, "zen+"@)
        || contains_seq(lower, "zen"@) {
        "Socket AM4 (PGA1331)"@
    } else if contains_seq(lower, "raptor"@) || contains_seq(lower, "alder"@) {
        "Socket LGA1700"@
    } else if contains_seq(lower, "arrow"@) || contains_seq(lower, "lga1851"@) {
        "Socket LGA1851"@
    } else if contains_seq(lower, "rocket"@) || contains_seq(lower, "comet"@) {
        "Socket LGA1200"@
    } else if contains_seq(lower, "coffee"@) || contains_seq(lower, "kaby"@) || contains_seq(lower, "skylake"@) {
        "Socket LGA1151"@
    } else {
        "Socket Generic (LGA/BGA)"@
    }
}

/// Chooses the socket from the lower-cased identity text.
pub fn socket_from_lowercase(lower: &str) -> (r: String)
    ensures
        r@ == socket_for(lower@),
{
    let l = chars_of(lower);
    if chars_contain(&l, "zen 5") || chars_contain(&l, "zen 4") || chars_contain(&l, "raphael")
        || chars_contain(&l, "granite") {
        owned("Socket AM5 (LGA1718)")
    } else if chars_contain(&l, "zen 3") || chars_contain(&l, "zen 2") || chars_contain(&l, "zen+")
        || chars_contain(&l, "zen") {
        owned("Socket AM4 (PGA1331)")
    } else if chars_contain(&l, "raptor") || chars_contain(&l, "alder") {
        owned("Socket LGA1700")
    } else if chars_contain(&l, "arrow") || chars_contain(&l, "lga1851") {
        owned("Socket LGA1851")
    } else if chars_contain(&l, "rocket") || chars_contain(&l, "comet") {
        owned("Socket LGA1200")
    } else if chars_contain(&l, "coffee") || chars_contain(&l, "kaby") || chars_contain(&l, "skylake") {
        owned("Socket LGA1151")
    } else {
        owned("Socket Generic (LGA/BGA)")
    }
}

/// Deduces the physical socket from the brand string, code name and vendor,
/// joined by spaces and lower-cased.
pub fn guess_socket(name: &str, code_name: &str, vendor: &str) -> (r: String)
    ensures
        r@ == socket_for(lowercase(identity_text(name@, code_name@, vendor@))),
{
    let joined = join3_spaced(name, code_name, vendor);
    let lower = to_lowercase(joined.as_str());
    socket_from_lowercase(lower.as_str())
}


// ---------------------------------------------------------------------------
// Instruction set extensions
// ---------------------------------------------------------------------------

/// Instruction-set feature bits reported by CPUID. A flag of a leaf that the
/// processor does not report is `false`.
#[derive(Clone, Copy, Debug, PartialEq, Eq, Structural)]
pub struct CpuFeatureFlags {
    // Basic feature leaf (CPUID 1).
    /// Support for MMX.
    pub mmx: bool,
    /// Support for SSE.
    pub sse: bool,
    /// Support for SSE2.
    pub sse2: bool,
    /// Support for SSE3.
    pub sse3: bool,
    /// Support for SSSE3.
    pub ssse3: bool,
    /// Support for SSE4.1.
    pub sse41: bool,
    /// Support for SSE4.2.
    pub sse42: bool,
    /// Support for AVX.
    pub avx: bool,
    /// Support for FMA3.
    pub fma: bool,
    /// Support for AES.
    pub aesni: bool,
    /// Support for POPCNT.
    pub popcnt: bool,
    /// Support for VT-x.
    pub vmx: bool,
    // Extended processor features (CPUID 0x8000_0001).
    /// Support for x86-64.
    pub long_mode: bool,
    /// Support for AMD-V.
    pub svm: bool,
    /// Support for ABM.
    pub lzcnt: bool,
    /// Support for SSE4A.
    pub sse4a: bool,
    /// Support for 3DNow!.
    pub amd_3dnow: bool,
    // Structured extended features (CPUID 7).
    /// Support for AVX2.
    pub avx2: bool,
    /// Support for BMI1.
    pub bmi1: bool,
    /// Support for BMI2.
    pub bmi2: bool,
    /// Support for SHA.
    pub sha: bool,
    /// Support for AVX-512F.
    pub avx512f: bool,
    /// Support for AVX-512CD.
    pub avx512cd: bool,
    /// Support for AVX-512ER.
    pub avx512er: bool,
    /// Support for AVX-512PF.
    pub avx512pf: bool,
    /// Support for AVX-512BW.
    pub avx512bw: bool,
    /// Support for AVX-512DQ.
    pub avx512dq: bool,
    /// Support for AVX-512VL.
    pub avx512vl: bool,
    /// Support for CLFLUSHOPT.
    pub clflushopt: bool,
    /// Support for SGX.
    pub sgx: bool,
}

/// `base` followed by the names of the supported extensions of the basic feature leaf.
pub open spec fn basic_names(f: CpuFeatureFlags, base: Seq<Seq<char>>) -> Seq<Seq<char>> {
    base
        + opt_name(f.mmx, "MMX"@)
        + opt_name(f.sse, "SSE"@)
        + opt_name(f.sse2, "SSE2"@)
        + opt_name(f.sse3, "SSE3"@)
        + opt_name(f.ssse3, "SSSE3"@)
        + opt_name(f.sse41, "SSE4.1"@)
        + opt_name(f.sse42, "SSE4.2"@)
        + opt_name(f.avx, "AVX"@)
        + opt_name(f.fma, "FMA3"@)
        + opt_name(f.aesni, "AES"@)
        + opt_name(f.popcnt, "POPCNT"@)
        + opt_name(f.vmx, "VT-x"@)
}

fn push_basic_names(v: &mut Vec<String>, f: &CpuFeatureFlags)
    ensures
        string_views(final(v)@) == basic_names(*f, string_views(old(v)@)),
{
    push_if(v, f.mmx, "MMX");
    push_if(v, f.sse, "SSE");
    push_if(v, f.sse2, "SSE2");
    push_if(v, f.sse3, "SSE3");
    push_if(v, f.ssse3, "SSSE3");
    push_if(v, f.sse41, "SSE4.1");
    push_if(v, f.sse42, "SSE4.2");
    push_if(v, f.avx, "AVX");
    push_if(v, f.fma, "FMA3");
    push_if(v, f.aesni, "AES");
    push_if(v, f.popcnt, "POPCNT");
    push_if(v, f.vmx, "VT-x");
}

/// `base` followed by the names of the supported extensions of the extended processor feature leaf.
pub open spec fn extended_names(f: CpuFeatureFlags, base: Seq<Seq<char>>) -> Seq<Seq<char>> {
    base
        + opt_name(f.long_mode, "x86-64"@)
        + opt_name(f.svm, "AMD-V"@)
        + opt_name(f.lzcnt, "ABM"@)
        + opt_name(f.sse4a, "SSE4A"@)
        + opt_name(f.amd_3dnow, "3DNow!"@)
}

fn push_extended_names(v: &mut Vec<String>, f: &CpuFeatureFlags)
    ensures
        string_views(final(v)@) == extended_names(*f, string_views(old(v)@)),
{
    push_if(v, f.long_mode, "x86-64");
    push_if(v, f.svm, "AMD-V");
    push_if(v, f.lzcnt, "ABM");
    push_if(v, f.sse4a, "SSE4A");
    push_if(v, f.amd_3dnow, "3DNow!");
}

/// `base` followed by the names of the supported extensions of the structured extended feature leaf.
pub open spec fn structured_names(f: CpuFeatureFlags, base: Seq<Seq<char>>) -> Seq<Seq<char>> {
    base
        + opt_name(f.avx2, "AVX2"@)
        + opt_name(f.bmi1, "BMI1"@)
        + opt_name(f.bmi2, "BMI2"@)
        + opt_name(f.sha, "SHA"@)
        + opt_name(f.avx512f, "AVX-512F"@)
        + opt_name(f.avx512cd, "AVX-512CD"@)
        + opt_name(f.avx512er, "AVX-512ER"@)
        + opt_name(f.avx512pf, "AVX-512PF"@)
        + opt_name(f.avx512bw, "AVX-512BW"@)
        + opt_name(f.avx512dq, "AVX-512DQ"@)
        + opt_name(f.avx512vl, "AVX-512VL"@)
        + opt_name(f.clflushopt, "CLFLUSHOPT"@)
        + opt_name(f.sgx, "SGX"@)
}

fn push_structured_names(v: &mut Vec<String>, f: &CpuFeatureFlags)
    ensures
        string_views(final(v)@) == structured_names(*f, string_views(old(v)@)),
{
    push_if(v, f.avx2, "AVX2");
    push_if(v, f.bmi1, "BMI1");
    push_if(v, f.bmi2, "BMI2");
    push_if(v, f.sha, "SHA");
    push_if(v, f.avx512f, "AVX-512F");
    push_if(v, f.avx512cd, "AVX-512CD");
    push_if(v, f.avx512er, "AVX-512ER");
    push_if(v, f.avx512pf, "AVX-512PF");
    push_if(v, f.avx512bw, "AVX-512BW");
    push_if(v, f.avx512dq, "AVX-512DQ");
    push_if(v, f.avx512vl, "AVX-512VL");
    push_if(v, f.clflushopt, "CLFLUSHOPT");
    push_if(v, f.sgx, "SGX");
}

/// The names listed for the feature bits, in the order in which they are
/// tested, before the fallback for an empty list.
pub open spec fn listed_instructions(f: CpuFeatureFlags) -> Seq<Seq<char>> {
    structured_names(f, extended_names(f, basic_names(f, seq![])))
}

/// The instruction-set names shown for the feature bits: every supported
/// extension in a fixed order, or `x86-64` and `SSE2` when none is reported.
pub open spec fn instruction_names(f: CpuFeatureFlags) -> Seq<Seq<char>> {
    let l = listed_instructions(f);
    if l.len() == 0 { seq!["x86-64"@, "SSE2"@] } else { l }
}

/// Lists the supported instruction-set extensions.
pub fn detect_instructions(f: &CpuFeatureFlags) -> (r: Vec<String>)
    ensures
        string_views(r@) == instruction_names(*f),
{
    let mut v: Vec<String> = Vec::new();
    assert(string_views(v@) =~= seq![]);
    push_basic_names(&mut v, f);
    push_extended_names(&mut v, f);
    push_structured_names(&mut v, f);
    if v.len() == 0 {
        v.push(owned("x86-64"));
        v.push(owned("SSE2"));
        assert(string_views(v@) =~= seq!["x86-64"@, "SSE2"@]);
    }
    v
}


// ---------------------------------------------------------------------------
// Cache topology
// ---------------------------------------------------------------------------

/// Cache type reported by the deterministic cache parameters leaf.
#[derive(Clone, Copy, Debug, PartialEq, Eq, Structural)]
pub enum CacheKind {
    /// Data cache.
    Data,
    /// Instruction cache.
    Instruction,
    /// Unified cache.
    Unified,
    /// Any other (reserved) type.
    Other,
}

/// One sub-leaf of the deterministic cache parameters leaf (CPUID 4 or
/// 0x8000_001D), as plain numbers.
#[derive(Clone, Copy, Debug, PartialEq, Eq, Structural)]
pub struct CacheLeaf {
    /// Cache level.
    pub level: u8,
    /// Cache type.
    pub kind: CacheKind,
    /// Number of sets.
    pub sets: u64,
    /// Ways of associativity.
    pub ways: u64,
    /// Coherency line size in bytes.
    pub line_size: u64,
    /// Physical line partitions.
    pub partitions: u64,
}

/// Associativity field of the legacy AMD cache leaves (0x8000_0005/6),
/// with the variants of `raw_cpuid::Associativity`.
#[derive(Clone, Copy, Debug, PartialEq, Eq, Structural)]
pub enum CacheAssociativity {
    /// Cache disabled.
    Disabled,
    /// Direct mapped.
    DirectMapped,
    /// N-way set associative.
    NWay(u8),
    /// Fully associative.
    FullyAssociative,
    /// Reported elsewhere.
    Unknown,
}

/// L1 data and instruction caches of the legacy AMD leaf 0x8000_0005.
#[derive(Clone, Copy, Debug, PartialEq, Eq, Structural)]
pub struct AmdL1Caches {
    /// L1 data cache size in KiB.
    pub dcache_size_kb: u8,
    /// L1 data cache associativity.
    pub dcache_associativity: CacheAssociativity,
    /// L1 data cache line size in bytes.
    pub dcache_line_size: u8,
    /// L1 instruction cache size in KiB.
    pub icache_size_kb: u8,
    /// L1 instruction cache associativity.
    pub icache_associativity: CacheAssociativity,
    /// L1 instruction cache line size in bytes.
    pub icache_line_size: u8,
}

/// L2 and L3 caches of the legacy leaf 0x8000_0006.
#[derive(Clone, Copy, Debug, PartialEq, Eq, Structural)]
pub struct AmdL2L3Caches {
    /// L2 size in KiB.
    pub l2_size_kb: u16,
    /// L2 associativity.
    pub l2_associativity: CacheAssociativity,
    /// L2 line size in bytes.
    pub l2_line_size: u8,
    /// L3 size in units of 512 KiB.
    pub l3_size_512kb: u16,
    /// L3 associativity.
    pub l3_associativity: CacheAssociativity,
    /// L3 line size in bytes.
    pub l3_line_size: u8,
}

/// One level of the cache hierarchy as shown to the user.
#[derive(Clone, Debug)]
pub struct CacheInfo {
    /// Cache level (1, 2 or 3).
    pub level: u8,
    /// Cache type ("Data", "Instruction", "Unified").
    pub cache_type: String,
    /// Total size in KiB.
    pub size_kb: u64,
    /// Associativity description (e.g. "8-way").
    pub associativity: String,
    /// Line size in bytes.
    pub line_size: u32,
}

/// The mathematical value of a [`CacheInfo`].
pub struct CacheInfoView {
    /// Cache level.
    pub level: u8,
    /// Cache type text.
    pub cache_type: Seq<char>,
    /// Size in KiB.
    pub size_kb: u64,
    /// Associativity text.
    pub associativity: Seq<char>,
    /// Line size in bytes.
    pub line_size: u32,
}

impl View for CacheInfo {
    type V = CacheInfoView;

    open spec fn view(&self) -> CacheInfoView {
        CacheInfoView {
            level: self.level,
            cache_type: self.cache_type@,
            size_kb: self.size_kb,
            associativity: self.associativity@,
            line_size: self.line_size,
        }
    }
}

/// The views of a sequence of caches.
pub open spec fn cache_views(v: Seq<CacheInfo>) -> Seq<CacheInfoView> {
    v.map_values(|c: CacheInfo| c@)
}

/// The type text of a cache kind.
pub open spec fn cache_kind_text(k: CacheKind) -> Seq<char> {
    match k {
        CacheKind::Data => "Data"@,
        CacheKind::Instruction => "Instruction"@,
        CacheKind::Unified => "Unified"@,
        CacheKind::Other => "Unknown"@,
    }
}

fn cache_kind_string(k: CacheKind) -> (r: String)
    ensures
        r@ == cache_kind_text(k),
{
    match k {
        CacheKind::Data => owned("Data"),
        CacheKind::Instruction => owned("Instruction"),
        CacheKind::Unified => owned("Unified"),
        CacheKind::Other => owned("Unknown"),
    }
}

/// The leaf's numbers multiply without overflow in 64 bits, in the order
/// sets, ways, line size, partitions.
pub open spec fn leaf_fits(l: CacheLeaf) -> bool {
    &&& l.sets * l.ways <= u64::MAX
    &&& l.sets * l.ways * l.line_size <= u64::MAX
    &&& l.sets * l.ways * l.line_size * l.partitions <= u64::MAX
}

/// Tells whether a leaf's numbers multiply without overflow in 64 bits.
pub fn leaf_size_fits(l: &CacheLeaf) -> (r: bool)
    ensures
        r == leaf_fits(*l),
{
    match l.sets.checked_mul(l.ways) {
        None => false,
        Some(a) => match a.checked_mul(l.line_size) {
            None => false,
            Some(b) => b.checked_mul(l.partitions).is_some(),
        },
    }
}

/// Size in KiB of the cache described by a leaf (rounded down).
pub open spec fn leaf_size_kb(l: CacheLeaf) -> int {
    (l.sets * l.ways * l.line_size * l.partitions) / 1024
}

/// The cache entry shown for a leaf.
pub open spec fn leaf_view(l: CacheLeaf) -> CacheInfoView {
    CacheInfoView {
        level: l.level,
        cache_type: cache_kind_text(l.kind),
        size_kb: leaf_size_kb(l) as u64,
        associativity: decimal(l.ways as nat) + "-way"@,
        line_size: l.line_size as u32,
    }
}

/// A leaf is shown when it describes a data, instruction or unified cache
/// of level 1, 2 or 3 whose size is at least one KiB.
pub open spec fn leaf_shown(l: CacheLeaf) -> bool {
    &&& leaf_size_kb(l) > 0
    &&& 1 <= l.level <= 3
    &&& l.kind != CacheKind::Other
}

/// Entries for the shown leaves, in order.
pub open spec fn leaf_caches(leaves: Seq<CacheLeaf>) -> Seq<CacheInfoView>
    decreases leaves.len(),
{
    if leaves.len() == 0 {
        seq![]
    } else {
        let prev = leaf_caches(leaves.drop_last());
        if leaf_shown(leaves.last()) {
            prev.push(leaf_view(leaves.last()))
        } else {
            prev
        }
    }
}

/// What the `Display` implementation of `raw_cpuid::Associativity` writes.
pub open spec fn associativity_display(a: CacheAssociativity) -> Seq<char> {
    match a {
        CacheAssociativity::Disabled => "Disabled"@,
        CacheAssociativity::DirectMapped => "Direct mapped"@,
        CacheAssociativity::NWay(n) => "NWay("@ + decimal(n as nat) + ")"@,
        CacheAssociativity::FullyAssociative => "Fully associative"@,
        CacheAssociativity::Unknown => "Unknown (check leaf 0x8000_001d)"@,
    }
}

/// Formats an associativity with `raw_cpuid::Associativity`'s `Display`
/// implementation. Claimed: the text is the one that implementation writes
/// for each variant (`"NWay(n)"` for an n-way cache), as its source shows.
#[verifier::external_body]
fn associativity_text(a: CacheAssociativity) -> (r: String)
    ensures
        r@ == associativity_display(a),
{
    let outside = match a {
        CacheAssociativity::Disabled => raw_cpuid::Associativity::Disabled,
        CacheAssociativity::DirectMapped => raw_cpuid::Associativity::DirectMapped,
        CacheAssociativity::NWay(n) => raw_cpuid::Associativity::NWay(n),
        CacheAssociativity::FullyAssociative => raw_cpuid::Associativity::FullyAssociative,
        CacheAssociativity::Unknown => raw_cpuid::Associativity::Unknown,
    };
    format!("{}", outside)
}

/// The associativity text of a legacy AMD entry: the `Display` text of the
/// field followed by `-way`.
pub open spec fn amd_way_text(a: CacheAssociativity) -> Seq<char> {
    associativity_display(a) + "-way"@
}

fn amd_way_string(a: CacheAssociativity) -> (r: String)
    ensures
        r@ == amd_way_text(a),
{
    let mut s = associativity_text(a);
    s.append("-way");
    s
}

/// Entries taken from the legacy L1 leaf: data then instruction cache.
pub open spec fn l1_entries(l1: Option<AmdL1Caches>) -> Seq<CacheInfoView> {
    match l1 {
        Some(c) => seq![
            CacheInfoView {
                level: 1,
                cache_type: "Data"@,
                size_kb: c.dcache_size_kb as u64,
                associativity: amd_way_text(c.dcache_associativity),
                line_size: c.dcache_line_size as u32,
            },
            CacheInfoView {
                level: 1,
                cache_type: "Instruction"@,
                size_kb: c.icache_size_kb as u64,
                associativity: amd_way_text(c.icache_associativity),
                line_size: c.icache_line_size as u32,
            },
        ],
        None => seq![],
    }
}

/// Entries taken from the legacy L2/L3 leaf: each level of non-zero size;
/// the L3 size is reported in units of 512 KiB.
pub open spec fn l2l3_entries(l23: Option<AmdL2L3Caches>) -> Seq<CacheInfoView> {
    match l23 {
        Some(c) => {
            let l2 = if c.l2_size_kb > 0 {
                seq![CacheInfoView {
                    level: 2,
                    cache_type: "Unified"@,
                    size_kb: c.l2_size_kb as u64,
                    associativity: amd_way_text(c.l2_associativity),
                    line_size: c.l2_line_size as u32,
                }]
            } else {
                seq![]
            };
            let l3 = if c.l3_size_512kb > 0 {
                seq![CacheInfoView {
                    level: 3,
                    cache_type: "Unified"@,
                    size_kb: (c.l3_size_512kb * 512) as u64,
                    associativity: amd_way_text(c.l3_associativity),
                    line_size: c.l3_line_size as u32,
                }]
            } else {
                seq![]
            };
            l2 + l3
        },
        None => seq![],
    }
}

/// The hierarchy assumed when no leaf describes a cache.
pub open spec fn default_caches() -> Seq<CacheInfoView> {
    seq![
        CacheInfoView { level: 1, cache_type: "Data"@, size_kb: 32, associativity: "8-way"@, line_size: 64 },
        CacheInfoView { level: 1, cache_type: "Instruction"@, size_kb: 32, associativity: "8-way"@, line_size: 64 },
        CacheInfoView { level: 2, cache_type: "Unified"@, size_kb: 1024, associativity: "8-way"@, line_size: 64 },
        CacheInfoView { level: 3, cache_type: "Unified"@, size_kb: 32768, associativity: "16-way"@, line_size: 64 },
    ]
}

/// The cache hierarchy: the deterministic leaves of non-zero size; if there
/// is none, the legacy AMD leaves; if those give nothing either, a default
/// four-level hierarchy.
pub open spec fn caches_for(
    leaves: Seq<CacheLeaf>,
    l1: Option<AmdL1Caches>,
    l23: Option<AmdL2L3Caches>,
) -> Seq<CacheInfoView> {
    let a = leaf_caches(leaves);
    if a.len() > 0 {
        a
    } else {
        let b = l1_entries(l1) + l2l3_entries(l23);
        if b.len() > 0 { b } else { default_caches() }
    }
}

fn push_cache(v: &mut Vec<CacheInfo>, c: CacheInfo)
    ensures
        cache_views(final(v)@) == cache_views(old(v)@).push(c@),
{
    v.push(c);
    assert(cache_views(v@) =~= cache_views(old(v)@).push(c@));
}

/// Builds the cache hierarchy from the deterministic cache parameter leaves,
/// falling back to the legacy AMD leaves and then to a default hierarchy.
pub fn detect_caches(
    leaves: &Vec<CacheLeaf>,
    l1: &Option<AmdL1Caches>,
    l23: &Option<AmdL2L3Caches>,
) -> (r: Vec<CacheInfo>)
    requires
        forall|i: int| 0 <= i < leaves@.len() ==> leaf_fits(#[trigger] leaves@[i]),
    ensures
        cache_views(r@) == caches_for(leaves@, *l1, *l23),
{
    let mut caches: Vec<CacheInfo> = Vec::new();
    let n = leaves.len();
    let mut i: usize = 0;
    assert(cache_views(caches@) =~= leaf_caches(leaves@.subrange(0, 0)));
    while i < n
        invariant
            n == leaves@.len(),
            i <= n,
            forall|k: int| 0 <= k < leaves@.len() ==> leaf_fits(#[trigger] leaves@[k]),
            cache_views(caches@) == leaf_caches(leaves@.subrange(0, i as int)),
        decreases n - i,
    {
        let l = leaves[i];
        assert(leaf_fits(leaves@[i as int]));
        let size_kb = (l.sets * l.ways * l.line_size * l.partitions) / 1024;
        let ghost pre = leaves@.subrange(0, i as int);
        assert(leaves@.subrange(0, i + 1).drop_last() =~= pre);
        assert(leaves@.subrange(0, i + 1).last() == l);
        let shown = match l.kind {
            CacheKind::Other => false,
            _ => true,
        };
        if size_kb > 0 && 1 <= l.level && l.level <= 3 && shown {
            let mut assoc = decimal_string(l.ways);
            assoc.append("-way");
            let c = CacheInfo {
                level: l.level,
                cache_type: cache_kind_string(l.kind),
                size_kb,
                associativity: assoc,
                line_size: l.line_size as u32,
            };
            push_cache(&mut caches, c);
        }
        i = i + 1;
    }
    assert(leaves@.subrange(0, n as int) =~= leaves@);
    if caches.len() > 0 {
        return caches;
    }
    assert(cache_views(caches@) =~= seq![]);
    match l1 {
        Some(c) => {
            push_cache(&mut caches, CacheInfo {
                level: 1,
                cache_type: owned("Data"),
                size_kb: c.dcache_size_kb as u64,
                associativity: amd_way_string(c.dcache_associativity),
                line_size: c.dcache_line_size as u32,
            });
            push_cache(&mut caches, CacheInfo {
                level: 1,
                cache_type: owned("Instruction"),
                size_kb: c.icache_size_kb as u64,
                associativity: amd_way_string(c.icache_associativity),
                line_size: c.icache_line_size as u32,
            });
        },
        None => {},
    }
    assert(cache_views(caches@) =~= l1_entries(*l1));
    let ghost after_l1 = cache_views(caches@);
    match l23 {
        Some(c) => {
            if c.l2_size_kb > 0 {
                push_cache(&mut caches, CacheInfo {
                    level: 2,
                    cache_type: owned("Unified"),
                    size_kb: c.l2_size_kb as u64,
                    associativity: amd_way_string(c.l2_associativity),
                    line_size: c.l2_line_size as u32,
                });
            }
            if c.l3_size_512kb > 0 {
                push_cache(&mut caches, CacheInfo {
                    level: 3,
                    cache_type: owned("Unified"),
                    size_kb: (c.l3_size_512kb as u64) * 512,
                    associativity: amd_way_string(c.l3_associativity),
                    line_size: c.l3_line_size as u32,
                });
            }
        },
        None => {},
    }
    assert(cache_views(caches@) =~= after_l1 + l2l3_entries(*l23));
    if caches.len() > 0 {
        return caches;
    }
    push_cache(&mut caches, CacheInfo {
        level: 1, cache_type: owned("Data"), size_kb: 32, associativity: owned("8-way"), line_size: 64,
    });
    push_cache(&mut caches, CacheInfo {
        level: 1, cache_type: owned("Instruction"), size_kb: 32, associativity: owned("8-way"), line_size: 64,
    });
    push_cache(&mut caches, CacheInfo {
        level: 2, cache_type: owned("Unified"), size_kb: 1024, associativity: owned("8-way"), line_size: 64,
    });
    push_cache(&mut caches, CacheInfo {
        level: 3, cache_type: owned("Unified"), size_kb: 32768, associativity: owned("16-way"), line_size: 64,
    });
    assert(cache_views(caches@) =~= default_caches());
    caches
}


// ---------------------------------------------------------------------------
// Temperature sensor labels
// ---------------------------------------------------------------------------

/// What `char::is_alphanumeric` returns for `c` (Unicode `Alphabetic` or
/// `Numeric`).
pub uninterp spec fn is_alphanumeric_char(c: char) -> bool;

/// Calls `char::is_alphanumeric`. Claimed: the answer depends on `c` alone
/// (it is `is_alphanumeric_char(c)`); the Unicode tables are not stated.
#[verifier::external_body]
fn char_is_alphanumeric(c: char) -> (r: bool)
    ensures
        r == is_alphanumeric_char(c),
{
    c.is_alphanumeric()
}

/// `s[i..j]` is one of the pieces that `split` at non-alphanumeric
/// characters yields: bounded by separators or the ends, with no separator
/// inside.
pub open spec fn is_label_word(s: Seq<char>, i: int, j: int) -> bool {
    &&& 0 <= i <= j <= s.len()
    &&& (i == 0 || !is_alphanumeric_char(s[i - 1]))
    &&& (j == s.len() || !is_alphanumeric_char(s[j]))
    &&& forall|k: int| i <= k < j ==> is_alphanumeric_char(#[trigger] s[k])
}

/// A word that names the processor package or its cores.
pub open spec fn is_cpu_word(w: Seq<char>) -> bool {
    ||| eq_ignore_ascii_case(w, "cpu"@)
    ||| eq_ignore_ascii_case(w, "core"@)
    ||| eq_ignore_ascii_case(w, "package"@)
    ||| eq_ignore_ascii_case(w, "tctl"@)
    ||| eq_ignore_ascii_case(w, "tdie"@)
}

/// A sensor label belongs to the processor when one of its words, split at
/// non-alphanumeric characters, is `cpu`, `core`, `package`, `tctl` or
/// `tdie` in any ASCII case.
pub open spec fn is_cpu_label(s: Seq<char>) -> bool {
    exists|i: int, j: int| #[trigger] is_label_word(s, i, j) && is_cpu_word(s.subrange(i, j))
}

fn word_is_cpu(v: &Vec<char>, lo: usize, hi: usize) -> (r: bool)
    requires
        lo <= hi <= v@.len(),
    ensures
        r == is_cpu_word(v@.subrange(lo as int, hi as int)),
{
    range_eq_ignore_ascii_case(v, lo, hi, "cpu") || range_eq_ignore_ascii_case(v, lo, hi, "core")
        || range_eq_ignore_ascii_case(v, lo, hi, "package") || range_eq_ignore_ascii_case(v, lo, hi, "tctl")
        || range_eq_ignore_ascii_case(v, lo, hi, "tdie")
}

/// Tells whether a temperature sensor label names the processor.
pub fn is_cpu_sensor_label(label: &str) -> (r: bool)
    ensures
        r == is_cpu_label(label@),
{
    let v = chars_of(label);
    let n = v.len();
    let mut start: usize = 0;
    let mut i: usize = 0;
    while i < n
        invariant
            n == v@.len(),
            v@ == label@,
            start <= i <= n,
            start == 0 || !is_alphanumeric_char(v@[start - 1]),
            forall|k: int| start <= k < i ==> is_alphanumeric_char(#[trigger] v@[k]),
            forall|a: int, b: int| #[trigger] is_label_word(v@, a, b) && b < i ==> !is_cpu_word(v@.subrange(a, b)),
        decreases n - i,
    {
        if !char_is_alphanumeric(v[i]) {
            assert(is_label_word(v@, start as int, i as int));
            if word_is_cpu(&v, start, i) {
                return true;
            }
            assert forall|a: int, b: int| #[trigger] is_label_word(v@, a, b) && b < i + 1 implies
                !is_cpu_word(v@.subrange(a, b)) by {
                if b == i {
                    if a < start {
                        assert(is_alphanumeric_char(v@[start - 1]));
                    } else if a > start {
                        assert(is_alphanumeric_char(v@[a - 1]));
                    }
                }
            }
            start = i + 1;
        }
        i = i + 1;
    }
    assert(is_label_word(v@, start as int, n as int));
    if word_is_cpu(&v, start, n) {
        return true;
    }
    assert forall|a: int, b: int| #[trigger] is_label_word(v@, a, b) implies
        !is_cpu_word(v@.subrange(a, b)) by {
        if b == n {
            if a < start {
                assert(is_alphanumeric_char(v@[start - 1]));
            } else if a > start {
                assert(is_alphanumeric_char(v@[a - 1]));
            }
        }
    }
    false
}


// ---------------------------------------------------------------------------
// Processor identity
// ---------------------------------------------------------------------------

/// Signature fields of the basic feature leaf (CPUID 1).
#[derive(Clone, Copy, Debug, PartialEq, Eq, Structural)]
pub struct CpuSignature {
    /// Family identifier.
    pub family: u8,
    /// Model identifier.
    pub model: u8,
    /// Stepping identifier.
    pub stepping: u8,
    /// Extended family identifier.
    pub ext_family: u8,
    /// Extended model identifier.
    pub ext_model: u8,
}

/// What the machine reports about its processor, as plain values.
#[derive(Clone, Debug)]
pub struct CpuProbe {
    /// CPUID vendor string, when the vendor leaf is available.
    pub vendor: Option<String>,
    /// CPUID brand string, when the brand leaves are available.
    pub brand: Option<String>,
    /// Brand of the first logical processor as the operating system names it.
    pub os_brand: Option<String>,
    /// Signature of the basic feature leaf, when available.
    pub signature: Option<CpuSignature>,
    /// Instruction-set feature bits.
    pub features: CpuFeatureFlags,
    /// Deterministic cache parameter leaves, in order.
    pub cache_leaves: Vec<CacheLeaf>,
    /// Legacy AMD L1 cache leaf, when available.
    pub amd_l1: Option<AmdL1Caches>,
    /// Legacy L2/L3 cache leaf, when available.
    pub amd_l2l3: Option<AmdL2L3Caches>,
    /// Physical core count reported by the operating system, if any.
    pub physical_cores: Option<usize>,
    /// Number of logical processors.
    pub logical_threads: usize,
}

/// Static and architectural information about the processor.
#[derive(Clone, Debug)]
pub struct CpuInfo {
    /// Full commercial model name.
    pub name: String,
    /// Vendor string.
    pub vendor: String,
    /// Architecture code name.
    pub code_name: String,
    /// Package / socket designation.
    pub package_socket: String,
    /// Manufacturing process estimate.
    pub technology: String,
    /// Core voltage text.
    pub core_voltage: String,
    /// CPU family identifier.
    pub family: u32,
    /// CPU model identifier.
    pub model: u32,
    /// Stepping identifier.
    pub stepping: u32,
    /// Extended family identifier.
    pub ext_family: u32,
    /// Extended model identifier.
    pub ext_model: u32,
    /// Revision text `EXT_FAMILY:EXT_MODEL` in upper-case hexadecimal.
    pub revision: String,
    /// Physical cores.
    pub physical_cores: usize,
    /// Logical threads.
    pub logical_threads: usize,
    /// Supported instruction-set extensions.
    pub instructions: Vec<String>,
    /// Cache hierarchy.
    pub caches: Vec<CacheInfo>,
    /// Live clock, load and thermal readings.
    pub live: CpuLiveMetrics,
}

/// A temperature sensor: its label and its reading in tenths of a degree
/// Celsius, when it has one.
#[derive(Clone, Debug)]
pub struct SensorReading {
    /// Sensor label.
    pub label: String,
    /// Temperature in tenths of a degree.
    pub temp_tenths: Option<i32>,
}

/// What the operating system reports of the processor at one moment.
#[derive(Clone, Debug)]
pub struct CpuReadings {
    /// Clock of each logical processor in MHz.
    pub core_frequencies_mhz: Vec<u64>,
    /// Load of each logical processor, in tenths of a percent.
    pub core_loads_tenths: Vec<u32>,
    /// Overall load, in tenths of a percent.
    pub global_load_tenths: u32,
    /// Temperature sensors.
    pub sensors: Vec<SensorReading>,
}

/// Live clock, load and thermal metrics of the processor.
#[derive(Clone, Debug)]
pub struct CpuLiveMetrics {
    /// Clock of each logical processor in MHz.
    pub core_frequencies_mhz: Vec<u64>,
    /// Overall load, in tenths of a percent.
    pub global_load_tenths: u32,
    /// Load of each logical processor, in tenths of a percent.
    pub per_core_load_tenths: Vec<u32>,
    /// Average clock in tenths of MHz (rounded to the nearest, at most `u64::MAX`).
    pub avg_frequency_tenths: u64,
    /// Bus clock in MHz.
    pub bus_speed_mhz: u32,
    /// Clock multiplier in tenths (rounded to the nearest).
    pub multiplier_tenths: u64,
    /// Processor temperature in tenths of a degree.
    pub cpu_temp_tenths: i32,
    /// Cooler fan speed in RPM.
    pub fan_speed_rpm: u32,
}

impl CpuLiveMetrics {
    /// No readings yet.
    pub open spec fn is_blank(&self) -> bool {
        &&& self.core_frequencies_mhz@.len() == 0
        &&& self.per_core_load_tenths@.len() == 0
        &&& self.global_load_tenths == 0
        &&& self.avg_frequency_tenths == 0
        &&& self.bus_speed_mhz == 0
        &&& self.multiplier_tenths == 0
        &&& self.cpu_temp_tenths == 0
        &&& self.fan_speed_rpm == 0
    }

    /// Metrics before any reading.
    pub fn blank() -> (r: CpuLiveMetrics)
        ensures
            r.is_blank(),
    {
        CpuLiveMetrics {
            core_frequencies_mhz: Vec::new(),
            global_load_tenths: 0,
            per_core_load_tenths: Vec::new(),
            avg_frequency_tenths: 0,
            bus_speed_mhz: 0,
            multiplier_tenths: 0,
            cpu_temp_tenths: 0,
            fan_speed_rpm: 0,
        }
    }
}

/// Sum of the clocks.
pub open spec fn freq_sum(v: Seq<u64>) -> int
    decreases v.len(),
{
    if v.len() == 0 { 0 } else { freq_sum(v.drop_last()) + v.last() }
}

/// A reading taken into the temperature: a processor sensor with a
/// temperature strictly between 0 and 125.0 degrees.
pub open spec fn counts_as_cpu_temp(s: SensorReading) -> bool {
    is_cpu_label(s.label@) && s.temp_tenths is Some && 0 < s.temp_tenths->0 < 1250
}

/// Sum and number of the readings taken into the temperature.
pub open spec fn cpu_temp_tally(v: Seq<SensorReading>) -> (int, int)
    decreases v.len(),
{
    if v.len() == 0 {
        (0, 0)
    } else {
        let (sum, n) = cpu_temp_tally(v.drop_last());
        if counts_as_cpu_temp(v.last()) { (sum + v.last().temp_tenths->0, n + 1) } else { (sum, n) }
    }
}

/// The exact processor temperature in tenths of a degree, as a fraction
/// (numerator, denominator): the average of the processor sensors, else an
/// estimate from the load, 38.0 degrees at rest up to 72.0 at full load.
pub open spec fn cpu_temp_ratio(sensors: Seq<SensorReading>, global_load_tenths: int) -> (int, int) {
    let (sum, n) = cpu_temp_tally(sensors);
    if n > 0 {
        (sum, n)
    } else {
        (38000 + (if global_load_tenths < 1000 { global_load_tenths } else { 1000 }) * 34, 100)
    }
}

/// The processor temperature in tenths, rounded to the nearest (halves up).
pub open spec fn cpu_temp_for(sensors: Seq<SensorReading>, global_load_tenths: int) -> int {
    let (num, den) = cpu_temp_ratio(sensors, global_load_tenths);
    rounded_quotient(num, den)
}

/// Fan speed for the exact temperature `num / den` in tenths: 850 RPM up to
/// 35.0 degrees, rising evenly to 2000 RPM at 80.0 degrees (rounded down).
pub open spec fn cpu_fan_rpm_for(num: int, den: int) -> int {
    let over = if num < 350 * den { 0 } else if num > 800 * den { 450 * den } else { num - 350 * den };
    850 + over * 1150 / (450 * den)
}

proof fn lemma_tally_bounds(v: Seq<SensorReading>)
    ensures
        0 <= cpu_temp_tally(v).1 <= v.len(),
        0 <= cpu_temp_tally(v).0 <= cpu_temp_tally(v).1 * 1249,
        cpu_temp_tally(v).1 > 0 ==> cpu_temp_tally(v).1 <= cpu_temp_tally(v).0,
    decreases v.len(),
{
    if v.len() > 0 {
        lemma_tally_bounds(v.drop_last());
    }
}

proof fn lemma_freq_sum_bound(v: Seq<u64>)
    ensures
        0 <= freq_sum(v) <= v.len() * u64::MAX,
    decreases v.len(),
{
    if v.len() > 0 {
        lemma_freq_sum_bound(v.drop_last());
        let n = v.len() as int;
        assert((n - 1) * u64::MAX + u64::MAX == n * u64::MAX) by (nonlinear_arith);
    }
}

impl CpuInfo {
    /// Refreshes the live metrics from the readings: clocks and loads as
    /// reported, their average clock and the multiplier on a 100 MHz bus,
    /// the temperature and the fan speed for it. Readings without any
    /// processor leave the metrics as they were.
    pub fn update_live_metrics(&mut self, r: &CpuReadings)
        ensures
            r.core_frequencies_mhz@.len() == 0 ==> *final(self) == *old(self),
            r.core_frequencies_mhz@.len() > 0 ==> {
                &&& *final(self) == (CpuInfo { live: final(self).live, ..*old(self) })
                &&& live_metrics_from(final(self).live, *r)
            },
    {
        let n = r.core_frequencies_mhz.len();
        if n == 0 {
            return;
        }
        let mut freqs: Vec<u64> = Vec::new();
        let mut total: u128 = 0;
        let mut i: usize = 0;
        while i < n
            invariant
                n == r.core_frequencies_mhz@.len(),
                i <= n,
                freqs@ == r.core_frequencies_mhz@.subrange(0, i as int),
                total == freq_sum(r.core_frequencies_mhz@.subrange(0, i as int)),
            decreases n - i,
        {
            let ghost pre = r.core_frequencies_mhz@.subrange(0, i as int);
            let ghost next = r.core_frequencies_mhz@.subrange(0, i as int + 1);
            assert(next.drop_last() =~= pre);
            proof {
                lemma_freq_sum_bound(pre);
                assert(pre.len() * u64::MAX <= usize::MAX * u64::MAX) by (nonlinear_arith)
                    requires pre.len() <= usize::MAX;
            }
            let f = r.core_frequencies_mhz[i];
            freqs.push(f);
            total = total + f as u128;
            i = i + 1;
        }
        assert(r.core_frequencies_mhz@.subrange(0, n as int) =~= r.core_frequencies_mhz@);
        proof {
            lemma_freq_sum_bound(r.core_frequencies_mhz@);
        }
        let nn = n as u128;
        let q = total / nn;
        let rem = total % nn;
        let extra = round_div_wide(rem * 10, nn);
        proof {
            let ti = total as int;
            let ni = nn as int;
            let qi = q as int;
            let ri = rem as int;
            assert(ti == qi * ni + ri && 0 <= ri < ni) by (nonlinear_arith)
                requires qi == ti / ni, ri == ti % ni, ni > 0;
            assert(2 * (ti * 10) + ni == (qi * 10) * (2 * ni) + (2 * (ri * 10) + ni)) by (nonlinear_arith)
                requires ti == qi * ni + ri;
            vstd::arithmetic::div_mod::lemma_hoist_over_denominator(2 * (ri * 10) + ni, qi * 10, (2 * ni) as nat);
            assert(ti <= ni * u64::MAX);
            assert(qi <= u64::MAX) by (nonlinear_arith)
                requires ti == qi * ni + ri, 0 <= ri, ti <= ni * u64::MAX, ni >= 1;
            assert(extra <= 10) by (nonlinear_arith)
                requires extra as int == (2 * (ri * 10) + ni) / (2 * ni), ri < ni, ni > 0;
        }
        let avg = q * 10 + extra;
        let mult = round_div_wide(total, nn * 10);
        assert(mult <= u64::MAX) by (nonlinear_arith)
            requires mult as int == (2 * (total as int) + (nn as int) * 10) / (2 * ((nn as int) * 10)),
                total <= (nn as int) * u64::MAX, nn >= 1;
        let mut loads: Vec<u32> = Vec::new();
        let mut k: usize = 0;
        while k < r.core_loads_tenths.len()
            invariant
                k <= r.core_loads_tenths@.len(),
                loads@ == r.core_loads_tenths@.subrange(0, k as int),
            decreases r.core_loads_tenths.len() - k,
        {
            loads.push(r.core_loads_tenths[k]);
            k = k + 1;
        }
        assert(r.core_loads_tenths@.subrange(0, r.core_loads_tenths@.len() as int) =~= r.core_loads_tenths@);
        let (temp, num, den) = cpu_temperature(&r.sensors, r.global_load_tenths);
        let fan = cpu_fan_rpm(num, den);
        let avg64: u64 = if avg > u64::MAX as u128 { u64::MAX } else { avg as u64 };
        self.live = CpuLiveMetrics {
            core_frequencies_mhz: freqs,
            global_load_tenths: r.global_load_tenths,
            per_core_load_tenths: loads,
            avg_frequency_tenths: avg64,
            bus_speed_mhz: 100,
            multiplier_tenths: mult as u64,
            cpu_temp_tenths: temp,
            fan_speed_rpm: fan,
        };
    }
}

/// The live metrics computed from readings of at least one processor:
/// clocks and loads as reported, the average clock and the multiplier on a
/// 100 MHz bus (both in tenths, rounded to the nearest, the clock at most
/// `u64::MAX`), the temperature (rounded to the nearest tenth) and the fan
/// speed for the exact temperature.
pub open spec fn live_metrics_from(l: CpuLiveMetrics, r: CpuReadings) -> bool {
    let n = r.core_frequencies_mhz@.len() as int;
    &&& l.core_frequencies_mhz@ == r.core_frequencies_mhz@
    &&& l.per_core_load_tenths@ == r.core_loads_tenths@
    &&& l.global_load_tenths == r.global_load_tenths
    &&& l.avg_frequency_tenths == (if rounded_quotient(freq_sum(r.core_frequencies_mhz@) * 10, n) <= u64::MAX {
        rounded_quotient(freq_sum(r.core_frequencies_mhz@) * 10, n)
    } else {
        u64::MAX as int
    })
    &&& l.bus_speed_mhz == 100
    &&& l.multiplier_tenths == rounded_quotient(freq_sum(r.core_frequencies_mhz@), n * 10)
    &&& l.cpu_temp_tenths == cpu_temp_for(r.sensors@, r.global_load_tenths as int)
    &&& l.fan_speed_rpm == cpu_fan_rpm_for(
        cpu_temp_ratio(r.sensors@, r.global_load_tenths as int).0,
        cpu_temp_ratio(r.sensors@, r.global_load_tenths as int).1,
    )
}

/// Computes the processor temperature in tenths, with the exact fraction
/// it was rounded from.
fn cpu_temperature(sensors: &Vec<SensorReading>, global_load_tenths: u32) -> (r: (i32, u128, u128))
    ensures
        r.0 == cpu_temp_for(sensors@, global_load_tenths as int),
        (r.1 as int, r.2 as int) == cpu_temp_ratio(sensors@, global_load_tenths as int),
        r.2 > 0,
        r.2 <= usize::MAX + 100,
{
    let mut sum: i128 = 0;
    let mut count: i128 = 0;
    let mut i: usize = 0;
    while i < sensors.len()
        invariant
            i <= sensors@.len(),
            (sum as int, count as int) == cpu_temp_tally(sensors@.subrange(0, i as int)),
        decreases sensors.len() - i,
    {
        let ghost pre = sensors@.subrange(0, i as int);
        let ghost next = sensors@.subrange(0, i as int + 1);
        assert(next.drop_last() =~= pre);
        assert(next.last() == sensors@[i as int]);
        proof {
            lemma_tally_bounds(pre);
        }
        let sr = &sensors[i];
        if is_cpu_sensor_label(sr.label.as_str()) {
            match sr.temp_tenths {
                Some(t) => {
                    if 0 < t && t < 1250 {
                        sum = sum + t as i128;
                        count = count + 1;
                    }
                },
                None => {},
            }
        }
        i = i + 1;
    }
    assert(sensors@.subrange(0, sensors@.len() as int) =~= sensors@);
    proof {
        lemma_tally_bounds(sensors@);
    }
    if count > 0 {
        assert(count <= sensors@.len());
        let num = sum as u128;
        let den = count as u128;
        let q = round_div_wide(num, den);
        assert(1 <= q <= 1249) by (nonlinear_arith)
            requires q == (2 * (num as int) + den) / (2 * (den as int)), den <= num <= den * 1249, den > 0;
        (q as i32, num, den)
    } else {
        let l: u128 = if global_load_tenths < 1000 { global_load_tenths as u128 } else { 1000 };
        let num = 38000 + l * 34;
        let q = round_div_wide(num, 100);
        assert(q <= 721) by (nonlinear_arith) requires q == (2 * (num as int) + 100) / 200, num <= 72000;
        (q as i32, num, 100)
    }
}

/// Computes the fan speed for the exact temperature `num / den` in tenths.
fn cpu_fan_rpm(num: u128, den: u128) -> (r: u32)
    requires
        den > 0,
        den <= usize::MAX + 100,
    ensures
        r == cpu_fan_rpm_for(num as int, den as int),
{
    let over: u128 = if num < 350 * den { 0 } else if num > 800 * den { 450 * den } else { num - 350 * den };
    let span = 450 * den;
    let step = over * 1150 / span;
    assert(step <= 1150) by (nonlinear_arith)
        requires step == (over as int) * 1150 / (span as int), over <= span, span > 0;
    850 + step as u32
}

/// The processor name: the trimmed CPUID brand string, else the trimmed
/// operating-system brand, else `Unknown Processor`.
pub open spec fn cpu_name_for(brand: Option<String>, os_brand: Option<String>) -> Seq<char> {
    match brand {
        Some(b) => trim_ws(b@),
        None => match os_brand {
            Some(o) => trim_ws(o@),
            None => trim_ws("Unknown Processor"@),
        },
    }
}

/// The vendor name: the CPUID vendor string, else `Unknown`.
pub open spec fn cpu_vendor_for(vendor: Option<String>) -> Seq<char> {
    match vendor {
        Some(v) => v@,
        None => "Unknown"@,
    }
}

/// The physical core count: the reported count, else half the logical
/// processors when there are more than one, else one.
pub open spec fn physical_cores_for(reported: Option<usize>, logical: usize) -> usize {
    match reported {
        Some(p) => p,
        None => if logical > 1 { (logical / 2) as usize } else { 1 },
    }
}

/// The revision text: extended family and extended model in upper-case
/// hexadecimal, separated by a colon.
pub open spec fn revision_text(ext_family: u32, ext_model: u32) -> Seq<char> {
    hex_upper(ext_family as nat) + seq![':'] + hex_upper(ext_model as nat)
}

/// Estimates the physical core count.
pub fn physical_cores_or_estimate(reported: Option<usize>, logical: usize) -> (r: usize)
    ensures
        r == physical_cores_for(reported, logical),
{
    match reported {
        Some(p) => p,
        None => if logical > 1 { logical / 2 } else { 1 },
    }
}

/// Formats the revision text.
pub fn revision_string(ext_family: u32, ext_model: u32) -> (r: String)
    ensures
        r@ == revision_text(ext_family, ext_model),
{
    let mut r = String::new();
    push_hex_upper(&mut r, ext_family as u64);
    push_char(&mut r, ':');
    push_hex_upper(&mut r, ext_model as u64);
    assert(r@ =~= revision_text(ext_family, ext_model));
    r
}

impl CpuInfo {
    /// Assembles the processor description from what the machine reports:
    /// names, signature, heuristically deduced code name, lithography and
    /// socket, instruction sets, caches and core counts.
    pub fn identify(p: &CpuProbe) -> (r: CpuInfo)
        requires
            forall|i: int| 0 <= i < p.cache_leaves@.len() ==> leaf_fits(#[trigger] p.cache_leaves@[i]),
        ensures
            r.vendor@ == cpu_vendor_for(p.vendor),
            r.name@ == cpu_name_for(p.brand, p.os_brand),
            r.family == (match p.signature { Some(s) => s.family as u32, None => 0 }),
            r.model == (match p.signature { Some(s) => s.model as u32, None => 0 }),
            r.stepping == (match p.signature { Some(s) => s.stepping as u32, None => 0 }),
            r.ext_family == (match p.signature { Some(s) => s.ext_family as u32, None => 0 }),
            r.ext_model == (match p.signature { Some(s) => s.ext_model as u32, None => 0 }),
            r.code_name@ == code_name_for(r.vendor@, lowercase(r.name@), r.family),
            r.technology@ == technology_for(lowercase(identity_text(r.name@, r.code_name@, r.vendor@))),
            r.package_socket@ == socket_for(lowercase(identity_text(r.name@, r.code_name@, r.vendor@))),
            r.revision@ == revision_text(r.ext_family, r.ext_model),
            r.core_voltage@ == "1.100 V"@,
            string_views(r.instructions@) == instruction_names(p.features),
            cache_views(r.caches@) == caches_for(p.cache_leaves@, p.amd_l1, p.amd_l2l3),
            r.physical_cores == physical_cores_for(p.physical_cores, p.logical_threads),
            r.logical_threads == p.logical_threads,
            r.live.is_blank(),
    {
        let vendor = match &p.vendor {
            Some(v) => v.clone(),
            None => owned("Unknown"),
        };
        let name = match &p.brand {
            Some(b) => trim_string(b.as_str()),
            None => match &p.os_brand {
                Some(o) => trim_string(o.as_str()),
                None => trim_string("Unknown Processor"),
            },
        };
        let (family, model, stepping, ext_family, ext_model) = match p.signature {
            Some(s) => (s.family as u32, s.model as u32, s.stepping as u32, s.ext_family as u32, s.ext_model as u32),
            None => (0, 0, 0, 0, 0),
        };
        let code_name = guess_code_name(vendor.as_str(), name.as_str(), family, ext_family, model, ext_model);
        let technology = guess_technology(name.as_str(), code_name.as_str(), vendor.as_str());
        let package_socket = guess_socket(name.as_str(), code_name.as_str(), vendor.as_str());
        let revision = revision_string(ext_family, ext_model);
        let instructions = detect_instructions(&p.features);
        let caches = detect_caches(&p.cache_leaves, &p.amd_l1, &p.amd_l2l3);
        let physical_cores = physical_cores_or_estimate(p.physical_cores, p.logical_threads);
        CpuInfo {
            name,
            vendor,
            code_name,
            package_socket,
            technology,
            core_voltage: owned("1.100 V"),
            family,
            model,
            stepping,
            ext_family,
            ext_model,
            revision,
            physical_cores,
            logical_threads: p.logical_threads,
            instructions,
            caches,
            live: CpuLiveMetrics::blank(),
        }
    }
}

// ---------------------------------------------------------------------------
// Laws
// ---------------------------------------------------------------------------

/// The instruction-set list is never empty.
pub proof fn lemma_instruction_names_nonempty(f: CpuFeatureFlags)
    ensures
        instruction_names(f).len() >= 1,
{
}

/// The cache hierarchy is never empty.
pub proof fn lemma_caches_nonempty(leaves: Seq<CacheLeaf>, l1: Option<AmdL1Caches>, l23: Option<AmdL2L3Caches>)
    ensures
        caches_for(leaves, l1, l23).len() >= 1,
{
}

/// The level and type of a shown cache entry: level 1, 2 or 3, and type
/// `Data`, `Instruction` or `Unified`.
pub open spec fn documented_entry(c: CacheInfoView) -> bool {
    &&& 1 <= c.level <= 3
    &&& (c.cache_type == "Data"@ || c.cache_type == "Instruction"@ || c.cache_type == "Unified"@)
}

/// Every entry taken from the deterministic leaves describes a cache of
/// non-zero size, of level 1, 2 or 3 and of type data, instruction or
/// unified.
pub proof fn lemma_leaf_caches_nonzero(leaves: Seq<CacheLeaf>)
    requires
        forall|i: int| 0 <= i < leaves.len() ==> leaf_fits(#[trigger] leaves[i]),
    ensures
        forall|i: int| 0 <= i < leaf_caches(leaves).len() ==> #[trigger] leaf_caches(leaves)[i].size_kb > 0,
        forall|i: int| 0 <= i < leaf_caches(leaves).len() ==> documented_entry(#[trigger] leaf_caches(leaves)[i]),
    decreases leaves.len(),
{
    if leaves.len() > 0 {
        let prev = leaves.drop_last();
        assert forall|i: int| 0 <= i < prev.len() implies leaf_fits(#[trigger] prev[i]) by {
            assert(prev[i] == leaves[i]);
        }
        lemma_leaf_caches_nonzero(prev);
        let l = leaves.last();
        assert(leaf_fits(leaves[leaves.len() - 1]));
        let p = l.sets * l.ways * l.line_size * l.partitions;
        assert(0 <= p / 1024 <= u64::MAX) by (nonlinear_arith) requires 0 <= p <= u64::MAX;
        let q = leaf_caches(prev);
        let r = leaf_caches(leaves);
        if leaf_shown(l) {
            assert(r == q.push(leaf_view(l)));
            assert(leaf_view(l).size_kb == leaf_size_kb(l));
            assert(documented_entry(leaf_view(l)));
            assert forall|i: int| 0 <= i < r.len() implies #[trigger] r[i].size_kb > 0 && documented_entry(r[i]) by {
                if i < q.len() {
                    assert(r[i] == q[i]);
                }
            }
        } else {
            assert(r == q);
        }
    }
}

/// Every entry of the cache hierarchy has level 1, 2 or 3 and type `Data`,
/// `Instruction` or `Unified`, whichever source it comes from.
pub proof fn lemma_cache_entries_documented(
    leaves: Seq<CacheLeaf>,
    l1: Option<AmdL1Caches>,
    l23: Option<AmdL2L3Caches>,
)
    requires
        forall|i: int| 0 <= i < leaves.len() ==> leaf_fits(#[trigger] leaves[i]),
    ensures
        forall|i: int| 0 <= i < caches_for(leaves, l1, l23).len()
            ==> documented_entry(#[trigger] caches_for(leaves, l1, l23)[i]),
{
    lemma_leaf_caches_nonzero(leaves);
    let a = leaf_caches(leaves);
    if a.len() == 0 {
        let e1 = l1_entries(l1);
        let e2 = l2l3_entries(l23);
        let b = e1 + e2;
        assert forall|i: int| 0 <= i < e1.len() implies documented_entry(#[trigger] e1[i]) by {}
        assert forall|i: int| 0 <= i < e2.len() implies documented_entry(#[trigger] e2[i]) by {}
        assert forall|i: int| 0 <= i < b.len() implies documented_entry(#[trigger] b[i]) by {
            if i < e1.len() {
                assert(b[i] == e1[i]);
            } else {
                assert(b[i] == e2[i - e1.len()]);
            }
        }
        let d = default_caches();
        assert forall|i: int| 0 <= i < d.len() implies documented_entry(#[trigger] d[i]) by {}
    }
}

/// For an AMD processor (AMD vendor string, or `ryzen` or `amd` in the
/// lower-cased brand), the code name is chosen by the first model-number
/// group found in the brand, newest generation first: Zen 5 desktop,
/// Strix Point, Hawk Point / Phoenix, Raphael, Vermeer / Cezanne, Matisse,
/// Pinnacle Ridge, Summit Ridge; else by the CPUID family (25: Zen 3 / Zen 4,
/// 26: Zen 5); else the generic AMD name.
pub proof fn lemma_amd_code_names(vendor: Seq<char>, lower: Seq<char>, family: u32)
    requires
        (contains_seq(vendor, "AMD"@) || contains_seq(lower, "ryzen"@) || contains_seq(lower, "amd"@)),
    ensures
        ({
            let r = code_name_for(vendor, lower, family);
            let zen5_desktop = contains_seq(lower, "9950"@) || contains_seq(lower, "9900"@)
                || contains_seq(lower, "9800"@) || contains_seq(lower, "9700"@) || contains_seq(lower, "9600"@)
                || contains_seq(lower, "granite"@);
            let strix = contains_seq(lower, "hx 3"@) || contains_seq(lower, "strix"@);
            let hawk = contains_seq(lower, "8700"@) || contains_seq(lower, "8600"@)
                || contains_seq(lower, "8500"@) || contains_seq(lower, "hawk"@)
                || contains_seq(lower, "phoenix"@);
            let raphael = contains_seq(lower, "7950"@) || contains_seq(lower, "7900"@)
                || contains_seq(lower, "7800"@) || contains_seq(lower, "7700"@) || contains_seq(lower, "7600"@)
                || contains_seq(lower, "raphael"@);
            let vermeer = contains_seq(lower, "5950"@) || contains_seq(lower, "5900"@)
                || contains_seq(lower, "5800"@) || contains_seq(lower, "5700"@) || contains_seq(lower, "5600"@);
            let matisse = contains_seq(lower, "3950"@) || contains_seq(lower, "3900"@)
                || contains_seq(lower, "3800"@) || contains_seq(lower, "3700"@) || contains_seq(lower, "3600"@);
            let pinnacle = contains_seq(lower, "2700"@) || contains_seq(lower, "2600"@);
            let summit = contains_seq(lower, "1800"@) || contains_seq(lower, "1700"@)
                || contains_seq(lower, "1600"@);
            let family25 = family == 25;
            let family26 = family == 26;
            &&& zen5_desktop ==> r == "Granite Ridge (Zen 5)"@
            &&& !(zen5_desktop) && strix ==> r == "Strix Point (Zen 5)"@
            &&& !(zen5_desktop || strix) && hawk ==> r == "Hawk Point / Phoenix (Zen 4)"@
            &&& !(zen5_desktop || strix || hawk) && raphael ==> r == "Raphael (Zen 4)"@
            &&& !(zen5_desktop || strix || hawk || raphael) && vermeer ==> r == "Vermeer / Cezanne (Zen 3)"@
            &&& !(zen5_desktop || strix || hawk || raphael || vermeer) && matisse ==> r == "Matisse (Zen 2)"@
            &&& !(zen5_desktop || strix || hawk || raphael || vermeer || matisse) && pinnacle ==> r == "Pinnacle Ridge (Zen+)"@
            &&& !(zen5_desktop || strix || hawk || raphael || vermeer || matisse || pinnacle) && summit ==> r == "Summit Ridge (Zen)"@
            &&& !(zen5_desktop || strix || hawk || raphael || vermeer || matisse || pinnacle || summit) && family25 ==> r == "Zen 3 / Zen 4"@
            &&& !(zen5_desktop || strix || hawk || raphael || vermeer || matisse || pinnacle || summit || family25) && family26 ==> r == "Zen 5"@
            &&& !(zen5_desktop || strix || hawk || raphael || vermeer || matisse || pinnacle || summit || family25 || family26) ==> r == "AMD Microarchitecture"@
        }),
{
}

/// For an Intel processor that is not taken for an AMD one, the code name is
/// chosen by the first model-number group found in the lower-cased brand:
/// Arrow Lake, Meteor Lake, Raptor Lake Refresh (14th generation), Raptor
/// Lake (13th), Alder Lake (12th), Rocket Lake (11th), Comet Lake (10th),
/// Coffee Lake Refresh (9th), then `ultra`; so a 12th-generation Core is
/// never given an older generation's name.
pub proof fn lemma_intel_code_names(vendor: Seq<char>, lower: Seq<char>, family: u32)
    requires
        !(contains_seq(vendor, "AMD"@) || contains_seq(lower, "ryzen"@) || contains_seq(lower, "amd"@)),
        (contains_seq(vendor, "Intel"@) || contains_seq(lower, "intel"@) || contains_seq(lower, "core"@)),
    ensures
        ({
            let r = code_name_for(vendor, lower, family);
            let arrow = contains_seq(lower, "285"@) || contains_seq(lower, "265"@)
                || contains_seq(lower, "245"@) || contains_seq(lower, "arrow"@);
            let meteor = contains_seq(lower, "185"@) || contains_seq(lower, "165"@)
                || contains_seq(lower, "155"@) || contains_seq(lower, "meteor"@);
            let gen14 = contains_seq(lower, "14900"@) || contains_seq(lower, "14700"@)
                || contains_seq(lower, "14600"@) || contains_seq(lower, "14400"@);
            let gen13 = contains_seq(lower, "13900"@) || contains_seq(lower, "13700"@)
                || contains_seq(lower, "13600"@) || contains_seq(lower, "13400"@);
            let gen12 = contains_seq(lower, "12900"@) || contains_seq(lower, "12700"@)
                || contains_seq(lower, "12600"@) || contains_seq(lower, "12400"@);
            let gen11 = contains_seq(lower, "11900"@) || contains_seq(lower, "11700"@)
                || contains_seq(lower, "11600"@);
            let gen10 = contains_seq(lower, "10900"@) || contains_seq(lower, "10700"@)
                || contains_seq(lower, "10600"@) || contains_seq(lower, "10400"@);
            let gen9 = contains_seq(lower, "9900"@) || contains_seq(lower, "9700"@)
                || contains_seq(lower, "9600"@);
            let ultra = contains_seq(lower, "ultra"@);
            &&& arrow ==> r == "Arrow Lake (Core Ultra 200)"@
            &&& !(arrow) && meteor ==> r == "Meteor Lake (Core Ultra 100)"@
            &&& !(arrow || meteor) && gen14 ==> r == "Raptor Lake Refresh"@
            &&& !(arrow || meteor || gen14) && gen13 ==> r == "Raptor Lake"@
            &&& !(arrow || meteor || gen14 || gen13) && gen12 ==> r == "Alder Lake"@
            &&& !(arrow || meteor || gen14 || gen13 || gen12) && gen11 ==> r == "Rocket Lake"@
            &&& !(arrow || meteor || gen14 || gen13 || gen12 || gen11) && gen10 ==> r == "Comet Lake"@
            &&& !(arrow || meteor || gen14 || gen13 || gen12 || gen11 || gen10) && gen9 ==> r == "Coffee Lake Refresh"@
            &&& !(arrow || meteor || gen14 || gen13 || gen12 || gen11 || gen10 || gen9) && ultra ==> r == "Core Ultra Microarchitecture"@
            &&& !(arrow || meteor || gen14 || gen13 || gen12 || gen11 || gen10 || gen9 || ultra) ==> r == "Intel Core Microarchitecture"@
        }),
{
}

/// A processor that is neither AMD nor Intel by vendor or brand gets the
/// generic x86-64 name.
pub proof fn lemma_other_code_name(vendor: Seq<char>, lower: Seq<char>, family: u32)
    requires
        !(contains_seq(vendor, "AMD"@) || contains_seq(lower, "ryzen"@) || contains_seq(lower, "amd"@)),
        !(contains_seq(vendor, "Intel"@) || contains_seq(lower, "intel"@) || contains_seq(lower, "core"@)),
    ensures
        code_name_for(vendor, lower, family) == "x86-64 Architecture"@,
{
}

/// The manufacturing process follows the first microarchitecture found in the
/// lower-cased identity text: Zen 5 at 4 / 3 nm, Zen 4 at 5 nm, Zen 2 and 3 at
/// 7 nm, Raptor and Alder Lake on Intel 7, Rocket, Comet and Coffee Lake at
/// 14 nm, Meteor and Arrow Lake on Intel 4 / TSMC N3B; FinFET otherwise.
pub proof fn lemma_technologies(lower: Seq<char>)
    ensures
        ({
            let r = technology_for(lower);
            let zen5 = contains_seq(lower, "zen 5"@) || contains_seq(lower, "granite"@);
            let zen4 = contains_seq(lower, "zen 4"@) || contains_seq(lower, "raphael"@);
            let zen2_3 = contains_seq(lower, "zen 3"@) || contains_seq(lower, "vermeer"@)
                || contains_seq(lower, "cezanne"@) || contains_seq(lower, "zen 2"@)
                || contains_seq(lower, "matisse"@);
            let intel7 = contains_seq(lower, "raptor"@) || contains_seq(lower, "alder"@);
            let nm14 = contains_seq(lower, "rocket"@) || contains_seq(lower, "comet"@)
                || contains_seq(lower, "coffee"@);
            let intel4 = contains_seq(lower, "meteor"@) || contains_seq(lower, "arrow"@);
            &&& zen5 ==> r == "4 nm / 3 nm"@
            &&& !(zen5) && zen4 ==> r == "5 nm TSMC"@
            &&& !(zen5 || zen4) && zen2_3 ==> r == "7 nm TSMC"@
            &&& !(zen5 || zen4 || zen2_3) && intel7 ==> r == "Intel 7 (10 nm Enhanced SuperFin)"@
            &&& !(zen5 || zen4 || zen2_3 || intel7) && nm14 ==> r == "14 nm"@
            &&& !(zen5 || zen4 || zen2_3 || intel7 || nm14) && intel4 ==> r == "Intel 4 / TSMC N3B"@
            &&& !(zen5 || zen4 || zen2_3 || intel7 || nm14 || intel4) ==> r == "FinFET"@
        }),
{
}

/// The socket follows the first platform found in the lower-cased identity
/// text: AM5 for Zen 4 and 5, AM4 for earlier Zen, LGA1700 for Raptor and
/// Alder Lake, LGA1851 for Arrow Lake, LGA1200 for Rocket and Comet Lake,
/// LGA1151 for Coffee, Kaby Lake and Skylake; a generic socket otherwise.
pub proof fn lemma_sockets(lower: Seq<char>)
    ensures
        ({
            let r = socket_for(lower);
            let am5 = contains_seq(lower, "zen 5"@) || contains_seq(lower, "zen 4"@)
                || contains_seq(lower, "raphael"@) || contains_seq(lower, "granite"@);
            let am4 = contains_seq(lower, "zen 3"@) || contains_seq(lower, "zen 2"@)
                || contains_seq(lower, "zen+"@) || contains_seq(lower, "zen"@);
            let lga1700 = contains_seq(lower, "raptor"@) || contains_seq(lower, "alder"@);
            let lga1851 = contains_seq(lower, "arrow"@) || contains_seq(lower, "lga1851"@);
            let lga1200 = contains_seq(lower, "rocket"@) || contains_seq(lower, "comet"@);
            let lga1151 = contains_seq(lower, "coffee"@) || contains_seq(lower, "kaby"@)
                || contains_seq(lower, "skylake"@);
            &&& am5 ==> r == "Socket AM5 (LGA1718)"@
            &&& !(am5) && am4 ==> r == "Socket AM4 (PGA1331)"@
            &&& !(am5 || am4) && lga1700 ==> r == "Socket LGA1700"@
            &&& !(am5 || am4 || lga1700) && lga1851 ==> r == "Socket LGA1851"@
            &&& !(am5 || am4 || lga1700 || lga1851) && lga1200 ==> r == "Socket LGA1200"@
            &&& !(am5 || am4 || lga1700 || lga1851 || lga1200) && lga1151 ==> r == "Socket LGA1151"@
            &&& !(am5 || am4 || lga1700 || lga1851 || lga1200 || lga1151) ==> r == "Socket Generic (LGA/BGA)"@
        }),
{
}

/// A deterministic cache leaf that the hierarchy must list: level 1, 2 or
/// 3, a data, instruction or unified cache, and at least one KiB in size.
pub open spec fn listable_leaf(l: CacheLeaf) -> bool {
    &&& 1 <= l.level <= 3
    &&& (l.kind == CacheKind::Data || l.kind == CacheKind::Instruction || l.kind == CacheKind::Unified)
    &&& l.sets * l.ways * l.line_size * l.partitions >= 1024
}

/// Number of listable leaves.
pub open spec fn listable_count(leaves: Seq<CacheLeaf>) -> nat
    decreases leaves.len(),
{
    if leaves.len() == 0 {
        0
    } else {
        listable_count(leaves.drop_last()) + if listable_leaf(leaves.last()) { 1nat } else { 0nat }
    }
}

/// The entry a listable leaf must be shown as: its level, the type text
/// `Data`, `Instruction` or `Unified`, its size in KiB, its ways and its
/// line size.
pub open spec fn expected_leaf_entry(l: CacheLeaf) -> CacheInfoView {
    CacheInfoView {
        level: l.level,
        cache_type: if l.kind == CacheKind::Data {
            "Data"@
        } else if l.kind == CacheKind::Instruction {
            "Instruction"@
        } else {
            "Unified"@
        },
        size_kb: ((l.sets * l.ways * l.line_size * l.partitions) / 1024) as u64,
        associativity: decimal(l.ways as nat) + "-way"@,
        line_size: l.line_size as u32,
    }
}

proof fn lemma_leaf_caches_count_and_members(leaves: Seq<CacheLeaf>)
    ensures
        leaf_caches(leaves).len() == listable_count(leaves),
        forall|i: int| 0 <= i < leaves.len() && listable_leaf(#[trigger] leaves[i])
            ==> exists|j: int| 0 <= j < leaf_caches(leaves).len() && leaf_caches(leaves)[j] == expected_leaf_entry(leaves[i]),
    decreases leaves.len(),
{
    if leaves.len() > 0 {
        let prev = leaves.drop_last();
        lemma_leaf_caches_count_and_members(prev);
        let l = leaves.last();
        let p = l.sets * l.ways * l.line_size * l.partitions;
        assert(p >= 0) by (nonlinear_arith)
            requires p == l.sets * l.ways * l.line_size * l.partitions, l.sets >= 0, l.ways >= 0, l.line_size >= 0,
                l.partitions >= 0;
        assert(leaf_shown(l) <==> listable_leaf(l));
        let q = leaf_caches(prev);
        let r = leaf_caches(leaves);
        if listable_leaf(l) {
            assert(leaf_view(l) == expected_leaf_entry(l));
            assert(r == q.push(leaf_view(l)));
        } else {
            assert(r == q);
        }
        assert forall|i: int| 0 <= i < leaves.len() && listable_leaf(#[trigger] leaves[i])
            implies exists|j: int| 0 <= j < r.len() && r[j] == expected_leaf_entry(leaves[i]) by {
            if i == leaves.len() - 1 {
                assert(r[q.len() as int] == expected_leaf_entry(leaves[i]));
            } else {
                assert(prev[i] == leaves[i]);
                let j = choose|j: int| 0 <= j < q.len() && q[j] == expected_leaf_entry(prev[i]);
                assert(r[j] == q[j]);
            }
        }
    }
}

/// Every deterministic cache leaf of level 1, 2 or 3, of data, instruction
/// or unified type and of at least one KiB appears in the hierarchy with its
/// level, type text, size, ways and line size; and when there is any such
/// leaf, the hierarchy lists exactly these leaves, one entry each.
pub proof fn lemma_listable_leaves_listed(leaves: Seq<CacheLeaf>, l1: Option<AmdL1Caches>, l23: Option<AmdL2L3Caches>)
    ensures
        listable_count(leaves) > 0 ==> caches_for(leaves, l1, l23).len() == listable_count(leaves),
        forall|i: int| 0 <= i < leaves.len() && listable_leaf(#[trigger] leaves[i])
            ==> exists|j: int| 0 <= j < caches_for(leaves, l1, l23).len()
                && caches_for(leaves, l1, l23)[j] == expected_leaf_entry(leaves[i]),
{
    lemma_leaf_caches_count_and_members(leaves);
    assert forall|i: int| 0 <= i < leaves.len() && listable_leaf(#[trigger] leaves[i])
        implies exists|j: int| 0 <= j < caches_for(leaves, l1, l23).len()
            && caches_for(leaves, l1, l23)[j] == expected_leaf_entry(leaves[i]) by {
        let j = choose|j: int| 0 <= j < leaf_caches(leaves).len() && leaf_caches(leaves)[j] == expected_leaf_entry(leaves[i]);
        assert(leaf_caches(leaves).len() > 0);
        assert(caches_for(leaves, l1, l23) == leaf_caches(leaves));
        assert(caches_for(leaves, l1, l23)[j] == expected_leaf_entry(leaves[i]));
    }
}

/// When no deterministic leaf is listable, the hierarchy comes from the
/// legacy AMD leaves: the L1 data then instruction cache, then the L2 and
/// the L3 (in units of 512 KiB) when their size is not zero, each with the
/// `raw_cpuid` associativity text followed by `-way`. When those give
/// nothing either, it is the default hierarchy: 32 KiB L1 data and
/// instruction, 1 MiB L2 and 32 MiB L3, 64-byte lines.
pub proof fn lemma_cache_fallbacks(leaves: Seq<CacheLeaf>, l1: Option<AmdL1Caches>, l23: Option<AmdL2L3Caches>)
    requires
        listable_count(leaves) == 0,
    ensures
        ({
            let r = caches_for(leaves, l1, l23);
            let n1: int = if l1 is Some { 2 } else { 0 };
            let has_l2 = l23 matches Some(c) && c.l2_size_kb > 0;
            let has_l3 = l23 matches Some(c) && c.l3_size_512kb > 0;
            let n2: int = (if has_l2 { 1int } else { 0 }) + (if has_l3 { 1int } else { 0 });
            &&& n1 + n2 > 0 ==> r.len() == n1 + n2
            &&& l1 matches Some(c) ==> r[0] == CacheInfoView {
                level: 1,
                cache_type: "Data"@,
                size_kb: c.dcache_size_kb as u64,
                associativity: associativity_display(c.dcache_associativity) + "-way"@,
                line_size: c.dcache_line_size as u32,
            } && r[1] == CacheInfoView {
                level: 1,
                cache_type: "Instruction"@,
                size_kb: c.icache_size_kb as u64,
                associativity: associativity_display(c.icache_associativity) + "-way"@,
                line_size: c.icache_line_size as u32,
            }
            &&& l23 matches Some(c) ==> (c.l2_size_kb > 0 ==> r[n1] == CacheInfoView {
                level: 2,
                cache_type: "Unified"@,
                size_kb: c.l2_size_kb as u64,
                associativity: associativity_display(c.l2_associativity) + "-way"@,
                line_size: c.l2_line_size as u32,
            })
            &&& l23 matches Some(c) ==> (c.l3_size_512kb > 0 ==> r[n1 + n2 - 1] == CacheInfoView {
                level: 3,
                cache_type: "Unified"@,
                size_kb: (c.l3_size_512kb * 512) as u64,
                associativity: associativity_display(c.l3_associativity) + "-way"@,
                line_size: c.l3_line_size as u32,
            })
            &&& n1 + n2 == 0 ==> r == seq![
                CacheInfoView { level: 1, cache_type: "Data"@, size_kb: 32, associativity: "8-way"@, line_size: 64 },
                CacheInfoView { level: 1, cache_type: "Instruction"@, size_kb: 32, associativity: "8-way"@, line_size: 64 },
                CacheInfoView { level: 2, cache_type: "Unified"@, size_kb: 1024, associativity: "8-way"@, line_size: 64 },
                CacheInfoView { level: 3, cache_type: "Unified"@, size_kb: 32768, associativity: "16-way"@, line_size: 64 },
            ]
        }),
{
    lemma_leaf_caches_count_and_members(leaves);
    let e1 = l1_entries(l1);
    let e2 = l2l3_entries(l23);
    assert(caches_for(leaves, l1, l23) == (if (e1 + e2).len() > 0 { e1 + e2 } else { default_caches() }));
}

proof fn lemma_push_opt(s: Seq<Seq<char>>, b: bool, n: Seq<char>)
    ensures
        (s + opt_name(b, n)).len() == s.len() + (if b { 1int } else { 0 }),
        forall|x: Seq<char>| s.contains(x) ==> #[trigger] (s + opt_name(b, n)).contains(x),
        b ==> (s + opt_name(b, n)).contains(n),
{
    reveal(opt_name);
    let t = s + opt_name(b, n);
    assert forall|x: Seq<char>| s.contains(x) implies #[trigger] t.contains(x) by {
        let i = choose|i: int| 0 <= i < s.len() && s[i] == x;
        assert(t[i] == x);
    }
    if b {
        assert(t[s.len() as int] == n);
    }
}

#[verifier::rlimit(40)]
proof fn lemma_basic_names_listed(f: CpuFeatureFlags, base: Seq<Seq<char>>)
    ensures
        basic_names(f, base).len() == base.len() + (if f.mmx { 1int } else { 0 }) + (if f.sse { 1int } else { 0 }) + (if f.sse2 { 1int } else { 0 }) + (if f.sse3 { 1int } else { 0 }) + (if f.ssse3 { 1int } else { 0 }) + (if f.sse41 { 1int } else { 0 }) + (if f.sse42 { 1int } else { 0 }) + (if f.avx { 1int } else { 0 }) + (if f.fma { 1int } else { 0 }) + (if f.aesni { 1int } else { 0 }) + (if f.popcnt { 1int } else { 0 }) + (if f.vmx { 1int } else { 0 }),
        forall|x: Seq<char>| base.contains(x) ==> #[trigger] basic_names(f, base).contains(x),
        f.mmx ==> basic_names(f, base).contains("MMX"@),
        f.sse ==> basic_names(f, base).contains("SSE"@),
        f.sse2 ==> basic_names(f, base).contains("SSE2"@),
        f.sse3 ==> basic_names(f, base).contains("SSE3"@),
        f.ssse3 ==> basic_names(f, base).contains("SSSE3"@),
        f.sse41 ==> basic_names(f, base).contains("SSE4.1"@),
        f.sse42 ==> basic_names(f, base).contains("SSE4.2"@),
        f.avx ==> basic_names(f, base).contains("AVX"@),
        f.fma ==> basic_names(f, base).contains("FMA3"@),
        f.aesni ==> basic_names(f, base).contains("AES"@),
        f.popcnt ==> basic_names(f, base).contains("POPCNT"@),
        f.vmx ==> basic_names(f, base).contains("VT-x"@),
{
    let s0 = base + opt_name(f.mmx, "MMX"@);
    lemma_push_opt(base, f.mmx, "MMX"@);
    let s1 = s0 + opt_name(f.sse, "SSE"@);
    lemma_push_opt(s0, f.sse, "SSE"@);
    let s2 = s1 + opt_name(f.sse2, "SSE2"@);
    lemma_push_opt(s1, f.sse2, "SSE2"@);
    let s3 = s2 + opt_name(f.sse3, "SSE3"@);
    lemma_push_opt(s2, f.sse3, "SSE3"@);
    let s4 = s3 + opt_name(f.ssse3, "SSSE3"@);
    lemma_push_opt(s3, f.ssse3, "SSSE3"@);
    let s5 = s4 + opt_name(f.sse41, "SSE4.1"@);
    lemma_push_opt(s4, f.sse41, "SSE4.1"@);
    let s6 = s5 + opt_name(f.sse42, "SSE4.2"@);
    lemma_push_opt(s5, f.sse42, "SSE4.2"@);
    let s7 = s6 + opt_name(f.avx, "AVX"@);
    lemma_push_opt(s6, f.avx, "AVX"@);
    let s8 = s7 + opt_name(f.fma, "FMA3"@);
    lemma_push_opt(s7, f.fma, "FMA3"@);
    let s9 = s8 + opt_name(f.aesni, "AES"@);
    lemma_push_opt(s8, f.aesni, "AES"@);
    let s10 = s9 + opt_name(f.popcnt, "POPCNT"@);
    lemma_push_opt(s9, f.popcnt, "POPCNT"@);
    let s11 = s10 + opt_name(f.vmx, "VT-x"@);
    lemma_push_opt(s10, f.vmx, "VT-x"@);
    assert(basic_names(f, base) == s11);
}

#[verifier::rlimit(40)]
proof fn lemma_extended_names_listed(f: CpuFeatureFlags, base: Seq<Seq<char>>)
    ensures
        extended_names(f, base).len() == base.len() + (if f.long_mode { 1int } else { 0 }) + (if f.svm { 1int } else { 0 }) + (if f.lzcnt { 1int } else { 0 }) + (if f.sse4a { 1int } else { 0 }) + (if f.amd_3dnow { 1int } else { 0 }),
        forall|x: Seq<char>| base.contains(x) ==> #[trigger] extended_names(f, base).contains(x),
        f.long_mode ==> extended_names(f, base).contains("x86-64"@),
        f.svm ==> extended_names(f, base).contains("AMD-V"@),
        f.lzcnt ==> extended_names(f, base).contains("ABM"@),
        f.sse4a ==> extended_names(f, base).contains("SSE4A"@),
        f.amd_3dnow ==> extended_names(f, base).contains("3DNow!"@),
{
    let s0 = base + opt_name(f.long_mode, "x86-64"@);
    lemma_push_opt(base, f.long_mode, "x86-64"@);
    let s1 = s0 + opt_name(f.svm, "AMD-V"@);
    lemma_push_opt(s0, f.svm, "AMD-V"@);
    let s2 = s1 + opt_name(f.lzcnt, "ABM"@);
    lemma_push_opt(s1, f.lzcnt, "ABM"@);
    let s3 = s2 + opt_name(f.sse4a, "SSE4A"@);
    lemma_push_opt(s2, f.sse4a, "SSE4A"@);
    let s4 = s3 + opt_name(f.amd_3dnow, "3DNow!"@);
    lemma_push_opt(s3, f.amd_3dnow, "3DNow!"@);
    assert(extended_names(f, base) == s4);
}

#[verifier::rlimit(40)]
proof fn lemma_structured_names_listed(f: CpuFeatureFlags, base: Seq<Seq<char>>)
    ensures
        structured_names(f, base).len() == base.len() + (if f.avx2 { 1int } else { 0 }) + (if f.bmi1 { 1int } else { 0 }) + (if f.bmi2 { 1int } else { 0 }) + (if f.sha { 1int } else { 0 }) + (if f.avx512f { 1int } else { 0 }) + (if f.avx512cd { 1int } else { 0 }) + (if f.avx512er { 1int } else { 0 }) + (if f.avx512pf { 1int } else { 0 }) + (if f.avx512bw { 1int } else { 0 }) + (if f.avx512dq { 1int } else { 0 }) + (if f.avx512vl { 1int } else { 0 }) + (if f.clflushopt { 1int } else { 0 }) + (if f.sgx { 1int } else { 0 }),
        forall|x: Seq<char>| base.contains(x) ==> #[trigger] structured_names(f, base).contains(x),
        f.avx2 ==> structured_names(f, base).contains("AVX2"@),
        f.bmi1 ==> structured_names(f, base).contains("BMI1"@),
        f.bmi2 ==> structured_names(f, base).contains("BMI2"@),
        f.sha ==> structured_names(f, base).contains("SHA"@),
        f.avx512f ==> structured_names(f, base).contains("AVX-512F"@),
        f.avx512cd ==> structured_names(f, base).contains("AVX-512CD"@),
        f.avx512er ==> structured_names(f, base).contains("AVX-512ER"@),
        f.avx512pf ==> structured_names(f, base).contains("AVX-512PF"@),
        f.avx512bw ==> structured_names(f, base).contains("AVX-512BW"@),
        f.avx512dq ==> structured_names(f, base).contains("AVX-512DQ"@),
        f.avx512vl ==> structured_names(f, base).contains("AVX-512VL"@),
        f.clflushopt ==> structured_names(f, base).contains("CLFLUSHOPT"@),
        f.sgx ==> structured_names(f, base).contains("SGX"@),
{
    let s0 = base + opt_name(f.avx2, "AVX2"@);
    lemma_push_opt(base, f.avx2, "AVX2"@);
    let s1 = s0 + opt_name(f.bmi1, "BMI1"@);
    lemma_push_opt(s0, f.bmi1, "BMI1"@);
    let s2 = s1 + opt_name(f.bmi2, "BMI2"@);
    lemma_push_opt(s1, f.bmi2, "BMI2"@);
    let s3 = s2 + opt_name(f.sha, "SHA"@);
    lemma_push_opt(s2, f.sha, "SHA"@);
    let s4 = s3 + opt_name(f.avx512f, "AVX-512F"@);
    lemma_push_opt(s3, f.avx512f, "AVX-512F"@);
    let s5 = s4 + opt_name(f.avx512cd, "AVX-512CD"@);
    lemma_push_opt(s4, f.avx512cd, "AVX-512CD"@);
    let s6 = s5 + opt_name(f.avx512er, "AVX-512ER"@);
    lemma_push_opt(s5, f.avx512er, "AVX-512ER"@);
    let s7 = s6 + opt_name(f.avx512pf, "AVX-512PF"@);
    lemma_push_opt(s6, f.avx512pf, "AVX-512PF"@);
    let s8 = s7 + opt_name(f.avx512bw, "AVX-512BW"@);
    lemma_push_opt(s7, f.avx512bw, "AVX-512BW"@);
    let s9 = s8 + opt_name(f.avx512dq, "AVX-512DQ"@);
    lemma_push_opt(s8, f.avx512dq, "AVX-512DQ"@);
    let s10 = s9 + opt_name(f.avx512vl, "AVX-512VL"@);
    lemma_push_opt(s9, f.avx512vl, "AVX-512VL"@);
    let s11 = s10 + opt_name(f.clflushopt, "CLFLUSHOPT"@);
    lemma_push_opt(s10, f.clflushopt, "CLFLUSHOPT"@);
    let s12 = s11 + opt_name(f.sgx, "SGX"@);
    lemma_push_opt(s11, f.sgx, "SGX"@);
    assert(structured_names(f, base) == s12);
}

/// The instruction list names every extension whose feature bit is set,
/// one entry per set bit; with no bit set it is `x86-64` and `SSE2`.
pub proof fn lemma_instructions_listed(f: CpuFeatureFlags)
    ensures
        ({
            let n = (if f.mmx { 1int } else { 0 }) + (if f.sse { 1int } else { 0 })
                + (if f.sse2 { 1int } else { 0 }) + (if f.sse3 { 1int } else { 0 })
                + (if f.ssse3 { 1int } else { 0 }) + (if f.sse41 { 1int } else { 0 })
                + (if f.sse42 { 1int } else { 0 }) + (if f.avx { 1int } else { 0 }) + (if f.fma { 1int } else { 0 })
                + (if f.aesni { 1int } else { 0 }) + (if f.popcnt { 1int } else { 0 })
                + (if f.vmx { 1int } else { 0 }) + (if f.long_mode { 1int } else { 0 })
                + (if f.svm { 1int } else { 0 }) + (if f.lzcnt { 1int } else { 0 })
                + (if f.sse4a { 1int } else { 0 }) + (if f.amd_3dnow { 1int } else { 0 })
                + (if f.avx2 { 1int } else { 0 }) + (if f.bmi1 { 1int } else { 0 })
                + (if f.bmi2 { 1int } else { 0 }) + (if f.sha { 1int } else { 0 })
                + (if f.avx512f { 1int } else { 0 }) + (if f.avx512cd { 1int } else { 0 })
                + (if f.avx512er { 1int } else { 0 }) + (if f.avx512pf { 1int } else { 0 })
                + (if f.avx512bw { 1int } else { 0 }) + (if f.avx512dq { 1int } else { 0 })
                + (if f.avx512vl { 1int } else { 0 }) + (if f.clflushopt { 1int } else { 0 })
                + (if f.sgx { 1int } else { 0 });
            let r = instruction_names(f);
            &&& n > 0 ==> r.len() == n
            &&& n == 0 ==> r == seq!["x86-64"@, "SSE2"@]
            &&& f.mmx ==> r.contains("MMX"@)
            &&& f.sse ==> r.contains("SSE"@)
            &&& f.sse2 ==> r.contains("SSE2"@)
            &&& f.sse3 ==> r.contains("SSE3"@)
            &&& f.ssse3 ==> r.contains("SSSE3"@)
            &&& f.sse41 ==> r.contains("SSE4.1"@)
            &&& f.sse42 ==> r.contains("SSE4.2"@)
            &&& f.avx ==> r.contains("AVX"@)
            &&& f.fma ==> r.contains("FMA3"@)
            &&& f.aesni ==> r.contains("AES"@)
            &&& f.popcnt ==> r.contains("POPCNT"@)
            &&& f.vmx ==> r.contains("VT-x"@)
            &&& f.long_mode ==> r.contains("x86-64"@)
            &&& f.svm ==> r.contains("AMD-V"@)
            &&& f.lzcnt ==> r.contains("ABM"@)
            &&& f.sse4a ==> r.contains("SSE4A"@)
            &&& f.amd_3dnow ==> r.contains("3DNow!"@)
            &&& f.avx2 ==> r.contains("AVX2"@)
            &&& f.bmi1 ==> r.contains("BMI1"@)
            &&& f.bmi2 ==> r.contains("BMI2"@)
            &&& f.sha ==> r.contains("SHA"@)
            &&& f.avx512f ==> r.contains("AVX-512F"@)
            &&& f.avx512cd ==> r.contains("AVX-512CD"@)
            &&& f.avx512er ==> r.contains("AVX-512ER"@)
            &&& f.avx512pf ==> r.contains("AVX-512PF"@)
            &&& f.avx512bw ==> r.contains("AVX-512BW"@)
            &&& f.avx512dq ==> r.contains("AVX-512DQ"@)
            &&& f.avx512vl ==> r.contains("AVX-512VL"@)
            &&& f.clflushopt ==> r.contains("CLFLUSHOPT"@)
            &&& f.sgx ==> r.contains("SGX"@)
        }),
{
    let b0 = basic_names(f, seq![]);
    let e0 = extended_names(f, b0);
    lemma_basic_names_listed(f, seq![]);
    lemma_extended_names_listed(f, b0);
    lemma_structured_names_listed(f, e0);
}

/// The identity fields: the name is the trimmed CPUID brand, else the
/// trimmed operating-system brand, else `Unknown Processor`; the vendor is
/// the CPUID vendor or `Unknown`; the physical core count is the reported
/// one, else half the logical processors (at least one).
pub proof fn lemma_identity_fields(brand: Option<String>, os_brand: Option<String>, vendor: Option<String>,
    reported: Option<usize>, logical: usize)
    ensures
        brand matches Some(b) ==> cpu_name_for(brand, os_brand) == trim_ws(b@),
        brand is None ==> (os_brand matches Some(o) ==> cpu_name_for(brand, os_brand) == trim_ws(o@)),
        brand is None && os_brand is None ==> cpu_name_for(brand, os_brand) == trim_ws("Unknown Processor"@),
        vendor matches Some(v) ==> cpu_vendor_for(vendor) == v@,
        vendor is None ==> cpu_vendor_for(vendor) == "Unknown"@,
        reported matches Some(p) ==> physical_cores_for(reported, logical) == p,
        reported is None && logical > 1 ==> physical_cores_for(reported, logical) == logical / 2,
        reported is None && logical <= 1 ==> physical_cores_for(reported, logical) == 1,
{
}

} // verus!
