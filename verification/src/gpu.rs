//! Graphics adapters: the specification table keyed by model name, and the
//! reading of adapter entries from the registry's display class.
use vstd::prelude::*;
use crate::bench::{rounded_quotient, round_div_wide};
use crate::text::{chars_contain, chars_of, contains_seq, decimal, lowercase, owned, push_decimal, str_contains, string_views, to_lowercase, trim_string, trim_ws};

verus! {

/// Specifications deduced from an adapter's model name. Rates are in tenths
/// (of GT/s, GP/s, GB/s).
#[derive(Debug, Clone)]
pub struct DeducibleGpuSpecs {
    /// GPU vendor.
    pub vendor: String,
    /// Board partners.
    pub subvendor: String,
    /// Code name / architecture.
    pub code_name: String,
    /// Manufacturing process.
    pub technology: String,
    /// Die size text.
    pub die_size: String,
    /// Transistor count text.
    pub transistors: String,
    /// Shader units.
    pub shaders: u32,
    /// Texture fill rate in tenths of GT/s.
    pub texture_fillrate_tenths: u32,
    /// Pixel fill rate in tenths of GP/s.
    pub pixel_fillrate_tenths: u32,
    /// Memory type.
    pub memory_type: String,
    /// Memory bus width text.
    pub bus_width: String,
    /// Memory bandwidth in tenths of GB/s.
    pub bandwidth_tenths: u32,
    /// Base clock in MHz.
    pub base_clock_mhz: u32,
    /// Boost clock in MHz.
    pub boost_clock_mhz: u32,
    /// Memory clock in MHz.
    pub memory_clock_mhz: u32,
    /// Supported graphics technologies.
    pub technologies: Vec<String>,
}

/// The mathematical value of a [`DeducibleGpuSpecs`].
pub struct GpuSpecsView {
    /// GPU vendor.
    pub vendor: Seq<char>,
    /// Board partners.
    pub subvendor: Seq<char>,
    /// Code name.
    pub code_name: Seq<char>,
    /// Process.
    pub technology: Seq<char>,
    /// Die size.
    pub die_size: Seq<char>,
    /// Transistors.
    pub transistors: Seq<char>,
    /// Shader units.
    pub shaders: u32,
    /// Texture fill rate (tenths).
    pub texture_fillrate_tenths: u32,
    /// Pixel fill rate (tenths).
    pub pixel_fillrate_tenths: u32,
    /// Memory type.
    pub memory_type: Seq<char>,
    /// Bus width.
    pub bus_width: Seq<char>,
    /// Bandwidth (tenths).
    pub bandwidth_tenths: u32,
    /// Base clock.
    pub base_clock_mhz: u32,
    /// Boost clock.
    pub boost_clock_mhz: u32,
    /// Memory clock.
    pub memory_clock_mhz: u32,
    /// Technologies.
    pub technologies: Seq<Seq<char>>,
}

impl View for DeducibleGpuSpecs {
    type V = GpuSpecsView;

    open spec fn view(&self) -> GpuSpecsView {
        GpuSpecsView {
            vendor: self.vendor@,
            subvendor: self.subvendor@,
            code_name: self.code_name@,
            technology: self.technology@,
            die_size: self.die_size@,
            transistors: self.transistors@,
            shaders: self.shaders,
            texture_fillrate_tenths: self.texture_fillrate_tenths,
            pixel_fillrate_tenths: self.pixel_fillrate_tenths,
            memory_type: self.memory_type@,
            bus_width: self.bus_width@,
            bandwidth_tenths: self.bandwidth_tenths,
            base_clock_mhz: self.base_clock_mhz,
            boost_clock_mhz: self.boost_clock_mhz,
            memory_clock_mhz: self.memory_clock_mhz,
            technologies: string_views(self.technologies@),
        }
    }
}

/// The technologies listed for every deduced adapter.
pub open spec fn deduced_technologies() -> Seq<Seq<char>> {
    seq![
        "DirectX 12 Ultimate"@,
        "Vulkan 1.3"@,
        "Ray Tracing (RTX/DXR)"@,
        "DLSS / FSR Upscaling"@,
        "CUDA / Compute"@,
        "OpenCL 3.0"@,
        "DirectCompute"@,
        "AV1 Decode/Encode"@,
        "Resizable BAR"@,
    ]
}

/// A specification row of the table.
pub open spec fn gpu_row(
    vendor: Seq<char>,
    subvendor: Seq<char>,
    code_name: Seq<char>,
    technology: Seq<char>,
    die_size: Seq<char>,
    transistors: Seq<char>,
    shaders: u32,
    texture_fillrate_tenths: u32,
    pixel_fillrate_tenths: u32,
    memory_type: Seq<char>,
    bus_width: Seq<char>,
    bandwidth_tenths: u32,
    base_clock_mhz: u32,
    boost_clock_mhz: u32,
    memory_clock_mhz: u32,
) -> GpuSpecsView {
    GpuSpecsView {
        vendor, subvendor, code_name, technology, die_size, transistors, shaders,
        texture_fillrate_tenths, pixel_fillrate_tenths, memory_type, bus_width, bandwidth_tenths,
        base_clock_mhz, boost_clock_mhz, memory_clock_mhz,
        technologies: deduced_technologies(),
    }
}

/// The specification row chosen from the lower-cased model name.
pub open spec fn gpu_specs_for(lower: Seq<char>) -> GpuSpecsView {
    if contains_seq(lower, "4090"@) {
        gpu_row("NVIDIA"@, "NVIDIA Founder / ASUS"@, "AD102 (Ada Lovelace)"@, "TSMC 4N (5nm)"@, "608 mm²"@,
            "76.3 Billion"@, 16384, 12900, 4300, "GDDR6X (Micron)"@, "384-bit"@, 10080, 2235, 2520, 10500)
    } else if contains_seq(lower, "4080"@) {
        gpu_row("NVIDIA"@, "ASUSTeK / MSI"@, "AD103 (Ada Lovelace)"@, "TSMC 4N (5nm)"@, "379 mm²"@,
            "45.9 Billion"@, 10240, 8160, 2856, "GDDR6X (Micron)"@, "256-bit"@, 7168, 2295, 2550, 11200)
    } else if contains_seq(lower, "4070"@) {
        gpu_row("NVIDIA"@, "Gigabyte / ZOTAC"@, "AD104 (Ada Lovelace)"@, "TSMC 4N (5nm)"@, "294 mm²"@,
            "35.8 Billion"@, 5888, 4554, 1584, "GDDR6X (Micron)"@, "192-bit"@, 5042, 1920, 2475, 10500)
    } else if contains_seq(lower, "7900"@) {
        gpu_row("AMD"@, "Sapphire / PowerColor"@, "Navi 31 (RDNA 3)"@, "TSMC 5nm + 6nm"@, "529 mm²"@,
            "57.7 Billion"@, 6144, 9600, 3200, "GDDR6"@, "384-bit"@, 9600, 2000, 2500, 10000)
    } else if contains_seq(lower, "7800"@) || contains_seq(lower, "7700"@) {
        gpu_row("AMD"@, "ASRock / XFX"@, "Navi 32 (RDNA 3)"@, "TSMC 5nm"@, "346 mm²"@,
            "28.1 Billion"@, 3840, 6200, 2100, "GDDR6"@, "256-bit"@, 6240, 2124, 2430, 9750)
    } else if contains_seq(lower, "intel"@) || contains_seq(lower, "arc"@) || contains_seq(lower, "iris"@) {
        gpu_row("Intel"@, "Intel Corporation"@, "Alchemist (ACM-G10)"@, "TSMC N6 (6nm)"@, "406 mm²"@,
            "21.7 Billion"@, 4096, 5376, 1344, "GDDR6"@, "256-bit"@, 5600, 2100, 2400, 8000)
    } else {
        gpu_row("NVIDIA / AMD / Intel"@, "OEM Display Device"@, "Modern Graphics Architecture"@, "FinFET"@,
            "250 mm²"@, "15.0 Billion"@, 2560, 3500, 1200, "GDDR6 / Shared"@, "128-bit"@, 2880, 1600, 2100, 7000)
    }
}

fn deduced_technology_list() -> (r: Vec<String>)
    ensures
        string_views(r@) == deduced_technologies(),
{
    let mut v: Vec<String> = Vec::new();
    v.push(owned("DirectX 12 Ultimate"));
    v.push(owned("Vulkan 1.3"));
    v.push(owned("Ray Tracing (RTX/DXR)"));
    v.push(owned("DLSS / FSR Upscaling"));
    v.push(owned("CUDA / Compute"));
    v.push(owned("OpenCL 3.0"));
    v.push(owned("DirectCompute"));
    v.push(owned("AV1 Decode/Encode"));
    v.push(owned("Resizable BAR"));
    assert(string_views(v@) =~= deduced_technologies());
    v
}

fn make_row(
    vendor: &str,
    subvendor: &str,
    code_name: &str,
    technology: &str,
    die_size: &str,
    transistors: &str,
    shaders: u32,
    texture_fillrate_tenths: u32,
    pixel_fillrate_tenths: u32,
    memory_type: &str,
    bus_width: &str,
    bandwidth_tenths: u32,
    base_clock_mhz: u32,
    boost_clock_mhz: u32,
    memory_clock_mhz: u32,
) -> (r: DeducibleGpuSpecs)
    ensures
        r@ == gpu_row(vendor@, subvendor@, code_name@, technology@, die_size@, transistors@, shaders,
            texture_fillrate_tenths, pixel_fillrate_tenths, memory_type@, bus_width@, bandwidth_tenths,
            base_clock_mhz, boost_clock_mhz, memory_clock_mhz),
{
    DeducibleGpuSpecs {
        vendor: owned(vendor),
        subvendor: owned(subvendor),
        code_name: owned(code_name),
        technology: owned(technology),
        die_size: owned(die_size),
        transistors: owned(transistors),
        shaders,
        texture_fillrate_tenths,
        pixel_fillrate_tenths,
        memory_type: owned(memory_type),
        bus_width: owned(bus_width),
        bandwidth_tenths,
        base_clock_mhz,
        boost_clock_mhz,
        memory_clock_mhz,
        technologies: deduced_technology_list(),
    }
}

/// Chooses the specification row from the lower-cased model name.
pub fn gpu_specs_from_lowercase(lower: &str) -> (r: DeducibleGpuSpecs)
    ensures
        r@ == gpu_specs_for(lower@),
{
    let l = chars_of(lower);
    if chars_contain(&l, "4090") {
        make_row("NVIDIA", "NVIDIA Founder / ASUS", "AD102 (Ada Lovelace)", "TSMC 4N (5nm)", "608 mm²",
            "76.3 Billion", 16384, 12900, 4300, "GDDR6X (Micron)", "384-bit", 10080, 2235, 2520, 10500)
    } else if chars_contain(&l, "4080") {
        make_row("NVIDIA", "ASUSTeK / MSI", "AD103 (Ada Lovelace)", "TSMC 4N (5nm)", "379 mm²",
            "45.9 Billion", 10240, 8160, 2856, "GDDR6X (Micron)", "256-bit", 7168, 2295, 2550, 11200)
    } else if chars_contain(&l, "4070") {
        make_row("NVIDIA", "Gigabyte / ZOTAC", "AD104 (Ada Lovelace)", "TSMC 4N (5nm)", "294 mm²",
            "35.8 Billion", 5888, 4554, 1584, "GDDR6X (Micron)", "192-bit", 5042, 1920, 2475, 10500)
    } else if chars_contain(&l, "7900") {
        make_row("AMD", "Sapphire / PowerColor", "Navi 31 (RDNA 3)", "TSMC 5nm + 6nm", "529 mm²",
            "57.7 Billion", 6144, 9600, 3200, "GDDR6", "384-bit", 9600, 2000, 2500, 10000)
    } else if chars_contain(&l, "7800") || chars_contain(&l, "7700") {
        make_row("AMD", "ASRock / XFX", "Navi 32 (RDNA 3)", "TSMC 5nm", "346 mm²",
            "28.1 Billion", 3840, 6200, 2100, "GDDR6", "256-bit", 6240, 2124, 2430, 9750)
    } else if chars_contain(&l, "intel") || chars_contain(&l, "arc") || chars_contain(&l, "iris") {
        make_row("Intel", "Intel Corporation", "Alchemist (ACM-G10)", "TSMC N6 (6nm)", "406 mm²",
            "21.7 Billion", 4096, 5376, 1344, "GDDR6", "256-bit", 5600, 2100, 2400, 8000)
    } else {
        make_row("NVIDIA / AMD / Intel", "OEM Display Device", "Modern Graphics Architecture", "FinFET",
            "250 mm²", "15.0 Billion", 2560, 3500, 1200, "GDDR6 / Shared", "128-bit", 2880, 1600, 2100, 7000)
    }
}

/// Deduces an adapter's specifications from its model name (compared after
/// Unicode lower-casing).
pub fn deduce_gpu_details(name: &str) -> (r: DeducibleGpuSpecs)
    ensures
        r@ == gpu_specs_for(lowercase(name@)),
{
    let lower = to_lowercase(name);
    gpu_specs_from_lowercase(lower.as_str())
}

// ---------------------------------------------------------------------------
// Adapters
// ---------------------------------------------------------------------------

/// Graphics adapter description. Rates and live readings are in tenths
/// (of GT/s, GP/s, GB/s, °C, percent, watts).
#[derive(Debug, Clone)]
pub struct GpuInfo {
    /// Model name.
    pub name: String,
    /// GPU vendor.
    pub vendor: String,
    /// Board partners.
    pub subvendor: String,
    /// Code name.
    pub code_name: String,
    /// Manufacturing process.
    pub technology: String,
    /// Die size text.
    pub die_size: String,
    /// Transistor count text.
    pub transistors: String,
    /// Shader units.
    pub shaders: u32,
    /// Texture fill rate in tenths of GT/s.
    pub texture_fillrate_tenths: u32,
    /// Pixel fill rate in tenths of GP/s.
    pub pixel_fillrate_tenths: u32,
    /// Video memory in MiB.
    pub vram_mb: u64,
    /// Memory type.
    pub memory_type: String,
    /// Memory bus width text.
    pub bus_width: String,
    /// Bandwidth in tenths of GB/s.
    pub bandwidth_tenths: u32,
    /// Base clock in MHz.
    pub base_clock_mhz: u32,
    /// Boost clock in MHz.
    pub boost_clock_mhz: u32,
    /// Memory clock in MHz.
    pub memory_clock_mhz: u32,
    /// Driver version.
    pub driver_version: String,
    /// Driver date.
    pub driver_date: String,
    /// Supported technologies.
    pub technologies: Vec<String>,
    /// Live temperature in tenths of °C.
    pub live_temp_tenths: u32,
    /// Live core load in tenths of a percent.
    pub live_load_tenths: u32,
    /// Live fan speed in RPM.
    pub live_fan_rpm: u32,
    /// Live power draw in tenths of a watt.
    pub live_power_tenths: u32,
}

/// The specifications of the adapter shown when none is detected.
pub open spec fn primary_adapter_specs() -> GpuSpecsView {
    GpuSpecsView {
        vendor: "NVIDIA"@,
        subvendor: "ASUSTeK Computer Inc."@,
        code_name: "AD103 (Ada Lovelace)"@,
        technology: "TSMC 4N (5nm)"@,
        die_size: "379 mm²"@,
        transistors: "45.9 Billion"@,
        shaders: 10240,
        texture_fillrate_tenths: 8160,
        pixel_fillrate_tenths: 2856,
        memory_type: "GDDR6X (Micron)"@,
        bus_width: "256-bit"@,
        bandwidth_tenths: 7168,
        base_clock_mhz: 2295,
        boost_clock_mhz: 2550,
        memory_clock_mhz: 11200,
        technologies: seq![
            "DirectX 12 Ultimate"@,
            "Vulkan 1.3"@,
            "Ray Tracing (RTX/DXR)"@,
            "DLSS 3.5 / Frame Gen"@,
            "CUDA 12.6"@,
            "OpenCL 3.0"@,
            "DirectCompute"@,
            "AV1 Dual Encode"@,
            "Resizable BAR"@,
        ],
    }
}

/// The adapter shown when none is detected: "Primary Display Adapter" with
/// 16384 MiB of video memory, driver 560.94 WHQL of 08/20/2024, the
/// specifications of [`primary_adapter_specs`], and live readings 42.0 °C,
/// 8.5 % load, fan stopped, 24.5 W.
pub open spec fn is_primary_adapter(g: GpuInfo) -> bool {
    &&& g.name@ == "Primary Display Adapter"@
    &&& g.specs_part() == primary_adapter_specs()
    &&& g.vram_mb == 16384
    &&& g.driver_version@ == "560.94 WHQL"@
    &&& g.driver_date@ == "08/20/2024"@
    &&& g.live_temp_tenths == 420
    &&& g.live_load_tenths == 85
    &&& g.live_fan_rpm == 0
    &&& g.live_power_tenths == 245
}

impl GpuInfo {
    /// The deduced specification fields of the adapter.
    pub open spec fn specs_part(&self) -> GpuSpecsView {
        GpuSpecsView {
            vendor: self.vendor@,
            subvendor: self.subvendor@,
            code_name: self.code_name@,
            technology: self.technology@,
            die_size: self.die_size@,
            transistors: self.transistors@,
            shaders: self.shaders,
            texture_fillrate_tenths: self.texture_fillrate_tenths,
            pixel_fillrate_tenths: self.pixel_fillrate_tenths,
            memory_type: self.memory_type@,
            bus_width: self.bus_width@,
            bandwidth_tenths: self.bandwidth_tenths,
            base_clock_mhz: self.base_clock_mhz,
            boost_clock_mhz: self.boost_clock_mhz,
            memory_clock_mhz: self.memory_clock_mhz,
            technologies: string_views(self.technologies@),
        }
    }

    /// Describes an adapter from its model name, video memory and driver
    /// texts; the specifications follow the model name, and the live
    /// readings start at 41.0 °C, 6.0 % load, fan stopped, 22.0 W.
    pub fn from_adapter(name: String, vram_mb: u64, driver_version: String, driver_date: String) -> (r: GpuInfo)
        ensures
            r.name@ == name@,
            r.vram_mb == vram_mb,
            r.driver_version@ == driver_version@,
            r.driver_date@ == driver_date@,
            r.specs_part() == gpu_specs_for(lowercase(name@)),
            r.live_temp_tenths == 410,
            r.live_load_tenths == 60,
            r.live_fan_rpm == 0,
            r.live_power_tenths == 220,
    {
        let specs = deduce_gpu_details(name.as_str());
        GpuInfo {
            name,
            vendor: specs.vendor,
            subvendor: specs.subvendor,
            code_name: specs.code_name,
            technology: specs.technology,
            die_size: specs.die_size,
            transistors: specs.transistors,
            shaders: specs.shaders,
            texture_fillrate_tenths: specs.texture_fillrate_tenths,
            pixel_fillrate_tenths: specs.pixel_fillrate_tenths,
            vram_mb,
            memory_type: specs.memory_type,
            bus_width: specs.bus_width,
            bandwidth_tenths: specs.bandwidth_tenths,
            base_clock_mhz: specs.base_clock_mhz,
            boost_clock_mhz: specs.boost_clock_mhz,
            memory_clock_mhz: specs.memory_clock_mhz,
            driver_version,
            driver_date,
            technologies: specs.technologies,
            live_temp_tenths: 410,
            live_load_tenths: 60,
            live_fan_rpm: 0,
            live_power_tenths: 220,
        }
    }

    /// The adapter shown when none is detected.
    pub fn primary_display_adapter() -> (r: GpuInfo)
        ensures
            is_primary_adapter(r),
    {
        let mut technologies: Vec<String> = Vec::new();
        technologies.push(owned("DirectX 12 Ultimate"));
        technologies.push(owned("Vulkan 1.3"));
        technologies.push(owned("Ray Tracing (RTX/DXR)"));
        technologies.push(owned("DLSS 3.5 / Frame Gen"));
        technologies.push(owned("CUDA 12.6"));
        technologies.push(owned("OpenCL 3.0"));
        technologies.push(owned("DirectCompute"));
        technologies.push(owned("AV1 Dual Encode"));
        technologies.push(owned("Resizable BAR"));
        let r = GpuInfo {
            name: owned("Primary Display Adapter"),
            vendor: owned("NVIDIA"),
            subvendor: owned("ASUSTeK Computer Inc."),
            code_name: owned("AD103 (Ada Lovelace)"),
            technology: owned("TSMC 4N (5nm)"),
            die_size: owned("379 mm²"),
            transistors: owned("45.9 Billion"),
            shaders: 10240,
            texture_fillrate_tenths: 8160,
            pixel_fillrate_tenths: 2856,
            vram_mb: 16384,
            memory_type: owned("GDDR6X (Micron)"),
            bus_width: owned("256-bit"),
            bandwidth_tenths: 7168,
            base_clock_mhz: 2295,
            boost_clock_mhz: 2550,
            memory_clock_mhz: 11200,
            driver_version: owned("560.94 WHQL"),
            driver_date: owned("08/20/2024"),
            technologies,
            live_temp_tenths: 420,
            live_load_tenths: 85,
            live_fan_rpm: 0,
            live_power_tenths: 245,
        };
        assert(string_views(r.technologies@) =~= primary_adapter_specs().technologies);
        r
    }

    /// The adapter's fields other than the live temperature and fan speed.
    pub open spec fn steady_part(&self) -> (Seq<char>, GpuSpecsView, u64, Seq<char>, Seq<char>, u32, u32) {
        (self.name@, self.specs_part(), self.vram_mb, self.driver_version@, self.driver_date@, self.live_load_tenths,
            self.live_power_tenths)
    }

    /// Refreshes the live temperature from the load (rounded to the nearest
    /// tenth), and the fan speed from the exact temperature (fan stopped up
    /// to 52.0 °C; at most `u32::MAX`).
    pub fn update_live_metrics(&mut self)
        ensures
            live_refreshed(*final(self), *old(self)),
    {
        let load = self.live_load_tenths as u128;
        let exact = 40000 + load * 35;
        let temp = round_div_wide(exact, 100);
        assert(temp <= u32::MAX) by (nonlinear_arith)
            requires temp == (2 * (exact as int) + 100) / 200, exact <= 40000 + 35 * (u32::MAX as int);
        self.live_temp_tenths = temp as u32;
        if exact > 52000 {
            let rpm = (exact - 50000) * 45 / 1000 + 800;
            self.live_fan_rpm = if rpm > u32::MAX as u128 { u32::MAX } else { rpm as u32 };
        } else {
            self.live_fan_rpm = 0;
        }
    }
}

impl Default for GpuInfo {
    /// The adapter shown when none is detected.
    fn default() -> (r: GpuInfo)
        ensures
            is_primary_adapter(r),
    {
        GpuInfo::primary_display_adapter()
    }
}

/// `new` is `old` with its live temperature recomputed from the load and
/// its fan speed from the exact temperature (at most `u32::MAX`).
pub open spec fn live_refreshed(new: GpuInfo, old: GpuInfo) -> bool {
    &&& new.steady_part() == old.steady_part()
    &&& new.live_temp_tenths == live_temp_for(old.live_load_tenths as int)
    &&& new.live_fan_rpm == (if fan_rpm_for(old.live_load_tenths as int) <= u32::MAX {
        fan_rpm_for(old.live_load_tenths as int)
    } else {
        u32::MAX as int
    })
}

/// The exact live temperature in thousandths of a degree for a load in
/// tenths of a percent: 40.0 °C plus 0.35 °C per percent.
pub open spec fn exact_temp_milli(load_tenths: int) -> int {
    40000 + load_tenths * 35
}

/// Live temperature in tenths of a degree for a load in tenths of a
/// percent, rounded to the nearest tenth (halves up).
pub open spec fn live_temp_for(load_tenths: int) -> int {
    rounded_quotient(exact_temp_milli(load_tenths), 100)
}

/// Fan speed for the exact temperature at a load in tenths of a percent:
/// stopped up to 52.0 °C, else 800 RPM plus 45 RPM per degree above
/// 50.0 °C (rounded down).
pub open spec fn fan_rpm_for(load_tenths: int) -> int {
    let t = exact_temp_milli(load_tenths);
    if t > 52000 { (t - 50000) * 45 / 1000 + 800 } else { 0 }
}

/// The adapters to show: the detected ones, or the default adapter when
/// none was detected.
pub fn adapters_or_default(detected: Vec<GpuInfo>) -> (r: Vec<GpuInfo>)
    ensures
        r@.len() >= 1,
        detected@.len() > 0 ==> r@ == detected@,
        detected@.len() == 0 ==> r@.len() == 1 && is_primary_adapter(r@[0]),
{
    if detected.len() > 0 {
        detected
    } else {
        let mut v: Vec<GpuInfo> = Vec::new();
        v.push(GpuInfo::primary_display_adapter());
        v
    }
}

/// What the system's video controller list reports of one adapter.
pub struct VideoControllerEntry {
    /// Adapter name, when given as text.
    pub name: Option<String>,
    /// Adapter memory in bytes, when given as a number.
    pub adapter_ram: Option<u64>,
    /// Driver version, when given as text.
    pub driver_version: Option<String>,
}

impl GpuInfo {
    /// Describes the adapter of a video controller entry: the trimmed name
    /// (`Display Adapter` when missing), memory in MiB (8192 when not
    /// reported), the trimmed driver version (`WHQL` when missing), a recent
    /// driver date, specifications that follow the name, and the starting
    /// live readings 41.0 °C, 6.0 % load, fan stopped, 22.0 W.
    pub fn from_video_controller(e: &VideoControllerEntry) -> (r: GpuInfo)
        ensures
            r.name@ == trim_ws(match e.name { Some(n) => n@, None => "Display Adapter"@ }),
            r.vram_mb == vram_mb_for(match e.adapter_ram { Some(b) => b, None => 0 }),
            r.driver_version@ == trim_ws(match e.driver_version { Some(d) => d@, None => "WHQL"@ }),
            r.driver_date@ == "Recente (WHQL)"@,
            r.specs_part() == gpu_specs_for(lowercase(r.name@)),
            r.live_temp_tenths == 410,
            r.live_load_tenths == 60,
            r.live_fan_rpm == 0,
            r.live_power_tenths == 220,
    {
        let name = match &e.name {
            Some(n) => trim_string(n.as_str()),
            None => trim_string("Display Adapter"),
        };
        let bytes = match e.adapter_ram {
            Some(b) => b,
            None => 0,
        };
        let vram_mb = vram_mb_from_bytes(bytes);
        let driver_version = match &e.driver_version {
            Some(d) => trim_string(d.as_str()),
            None => trim_string("WHQL"),
        };
        GpuInfo::from_adapter(name, vram_mb, driver_version, owned("Recente (WHQL)"))
    }
}

/// Describes the adapters of the video controller entries, in order.
pub fn gpus_from_video_controllers(entries: &Vec<VideoControllerEntry>) -> (r: Vec<GpuInfo>)
    ensures
        r@.len() == entries@.len(),
        forall|i: int| 0 <= i < entries@.len() ==> {
            let e = #[trigger] entries@[i];
            &&& r@[i].name@ == trim_ws(match e.name { Some(n) => n@, None => "Display Adapter"@ })
            &&& r@[i].vram_mb == vram_mb_for(match e.adapter_ram { Some(b) => b, None => 0 })
            &&& r@[i].specs_part() == gpu_specs_for(lowercase(r@[i].name@))
            &&& r@[i].driver_version@ == trim_ws(match e.driver_version { Some(d) => d@, None => "WHQL"@ })
            &&& r@[i].driver_date@ == "Recente (WHQL)"@
            &&& (r@[i].live_temp_tenths, r@[i].live_load_tenths, r@[i].live_fan_rpm, r@[i].live_power_tenths)
                == (410u32, 60u32, 0u32, 220u32)
        },
{
    let mut out: Vec<GpuInfo> = Vec::new();
    let mut i: usize = 0;
    while i < entries.len()
        invariant
            i <= entries@.len(),
            out@.len() == i,
            forall|k: int| 0 <= k < i ==> {
                let e = #[trigger] entries@[k];
                &&& out@[k].name@ == trim_ws(match e.name { Some(n) => n@, None => "Display Adapter"@ })
                &&& out@[k].vram_mb == vram_mb_for(match e.adapter_ram { Some(b) => b, None => 0 })
                &&& out@[k].specs_part() == gpu_specs_for(lowercase(out@[k].name@))
                &&& out@[k].driver_version@ == trim_ws(match e.driver_version { Some(d) => d@, None => "WHQL"@ })
                &&& out@[k].driver_date@ == "Recente (WHQL)"@
                &&& (out@[k].live_temp_tenths, out@[k].live_load_tenths, out@[k].live_fan_rpm, out@[k].live_power_tenths)
                    == (410u32, 60u32, 0u32, 220u32)
            },
        decreases entries.len() - i,
    {
        let g = GpuInfo::from_video_controller(&entries[i]);
        out.push(g);
        i = i + 1;
    }
    out
}

// ---------------------------------------------------------------------------
// Registry display class entries
// ---------------------------------------------------------------------------

/// What `String::from_utf16_lossy` yields for the code units `s`.
pub uninterp spec fn utf16_lossy(s: Seq<u16>) -> Seq<char>;

/// Calls `String::from_utf16_lossy` on `s[..n]`. Claimed: the text depends
/// on those code units alone (it is `utf16_lossy` of them); how unpaired
/// surrogates are replaced is not stated.
#[verifier::external_body]
fn utf16_text(s: &Vec<u16>, n: usize) -> (r: String)
    requires
        n <= s@.len(),
    ensures
        r@ == utf16_lossy(s@.subrange(0, n as int)),
{
    String::from_utf16_lossy(&s[..n])
}

/// Code units of a registry string value of `byte_len` bytes, without its
/// terminating zero.
pub open spec fn registry_units(byte_len: u32) -> int {
    if byte_len / 2 >= 1 { byte_len / 2 - 1 } else { 0 }
}

/// The trimmed text of a string value read into `buf`, when the read
/// succeeded and the text is not empty.
pub open spec fn registry_text_for(ok: bool, buf: Seq<u16>, byte_len: u32) -> Option<Seq<char>> {
    if ok {
        let t = trim_ws(utf16_lossy(buf.subrange(0, registry_units(byte_len))));
        if t.len() > 0 { Some(t) } else { None }
    } else {
        None
    }
}

/// Decodes a registry string value read into `buf`.
pub fn registry_text(ok: bool, buf: &Vec<u16>, byte_len: u32) -> (r: Option<String>)
    requires
        ok ==> registry_units(byte_len) <= buf@.len(),
    ensures
        r is Some <==> registry_text_for(ok, buf@, byte_len) is Some,
        r matches Some(t) ==> registry_text_for(ok, buf@, byte_len) == Some(t@),
{
    if !ok {
        return None;
    }
    let half = (byte_len / 2) as usize;
    let n = if half >= 1 { half - 1 } else { 0 };
    let raw = utf16_text(buf, n);
    let t = trim_string(raw.as_str());
    if t.as_str().is_empty() { None } else { Some(t) }
}

/// A numeric registry value: the 64-bit read when it succeeded with a
/// non-zero value, else the 32-bit read when it did, else nothing.
pub open spec fn registry_number_for(qword_ok: bool, qword: u64, dword_ok: bool, dword: u32) -> Option<u64> {
    if qword_ok && qword > 0 {
        Some(qword)
    } else if dword_ok && dword > 0 {
        Some(dword as u64)
    } else {
        None
    }
}

/// Chooses the numeric registry value.
pub fn registry_number(qword_ok: bool, qword: u64, dword_ok: bool, dword: u32) -> (r: Option<u64>)
    ensures
        r == registry_number_for(qword_ok, qword, dword_ok, dword),
{
    if qword_ok && qword > 0 {
        Some(qword)
    } else if dword_ok && dword > 0 {
        Some(dword as u64)
    } else {
        None
    }
}

/// An adapter description names real hardware: it mentions no basic,
/// remote, virtual or Miracast display driver.
pub open spec fn is_physical_adapter_for(desc: Seq<char>) -> bool {
    !contains_seq(desc, "Basic Display"@) && !contains_seq(desc, "RdpIdd"@) && !contains_seq(desc, "Virtual"@)
        && !contains_seq(desc, "Miracast"@)
}

/// Tells whether an adapter description names real hardware.
pub fn is_physical_adapter(desc: &str) -> (r: bool)
    ensures
        r == is_physical_adapter_for(desc@),
{
    let d = chars_of(desc);
    !chars_contain(&d, "Basic Display") && !chars_contain(&d, "RdpIdd") && !chars_contain(&d, "Virtual")
        && !chars_contain(&d, "Miracast")
}

/// Video memory in MiB for a byte count; 8 GiB when the size is unknown (0).
pub open spec fn vram_mb_for(bytes: u64) -> u64 {
    if bytes > 0 { (bytes / 1048576) as u64 } else { 8192 }
}

/// Converts a video memory byte count to MiB.
pub fn vram_mb_from_bytes(bytes: u64) -> (r: u64)
    ensures
        r == vram_mb_for(bytes),
{
    if bytes > 0 { bytes / 1048576 } else { 8192 }
}

/// `v`, or an owned copy of `default` when absent.
pub open spec fn text_or_for(v: Option<String>, default: Seq<char>) -> Seq<char> {
    match v {
        Some(s) => s@,
        None => default,
    }
}

fn text_or(v: Option<String>, default: &str) -> (r: String)
    ensures
        r@ == text_or_for(v, default@),
{
    match v {
        Some(s) => s,
        None => owned(default),
    }
}

impl GpuInfo {
    /// Describes the adapter of one display class registry entry: `None`
    /// for non-hardware drivers; otherwise the video memory from the 64-bit
    /// size value or the legacy one (8 GiB when neither is present) and the
    /// driver texts with their defaults.
    pub fn from_registry_entry(
        desc: String,
        memory_size: Option<u64>,
        legacy_memory_size: Option<u64>,
        driver_version: Option<String>,
        driver_date: Option<String>,
    ) -> (r: Option<GpuInfo>)
        ensures
            r is Some <==> is_physical_adapter_for(desc@),
            r matches Some(g) ==> {
                &&& g.name@ == desc@
                &&& g.vram_mb == vram_mb_for(match memory_size {
                    Some(q) => q,
                    None => match legacy_memory_size { Some(d) => d, None => 0 },
                })
                &&& g.driver_version@ == text_or_for(driver_version, "WHQL"@)
                &&& g.driver_date@ == text_or_for(driver_date, "Recente (WHQL)"@)
                &&& g.specs_part() == gpu_specs_for(lowercase(desc@))
                &&& g.live_temp_tenths == 410
                &&& g.live_load_tenths == 60
                &&& g.live_fan_rpm == 0
                &&& g.live_power_tenths == 220
            },
    {
        if !is_physical_adapter(desc.as_str()) {
            return None;
        }
        let bytes = match memory_size {
            Some(q) => q,
            None => match legacy_memory_size {
                Some(d) => d,
                None => 0,
            },
        };
        let vram_mb = vram_mb_from_bytes(bytes);
        let version = text_or(driver_version, "WHQL");
        let date = text_or(driver_date, "Recente (WHQL)");
        Some(GpuInfo::from_adapter(desc, vram_mb, version, date))
    }
}

/// The four-digit, zero-padded decimal index of a registry subkey.
pub open spec fn pad4(d: Seq<char>) -> Seq<char> {
    if d.len() >= 4 { d } else { Seq::new((4 - d.len()) as nat, |_i: int| '0') + d }
}

/// The display class subkey of adapter entry `idx`.
pub open spec fn display_class_subkey_for(idx: u32) -> Seq<char> {
    "SYSTEM\\CurrentControlSet\\Control\\Class\\{4d36e968-e325-11ce-bfc1-08002be10318}\\"@ + pad4(decimal(idx as nat))
}

/// Formats the display class subkey of adapter entry `idx`.
pub fn display_class_subkey(idx: u32) -> (r: String)
    ensures
        r@ == display_class_subkey_for(idx),
{
    let mut p = owned("SYSTEM\\CurrentControlSet\\Control\\Class\\{4d36e968-e325-11ce-bfc1-08002be10318}\\");
    let digits = crate::text::decimal_string(idx as u64);
    let n = digits.unicode_len();
    let ghost before = p@;
    let mut k: usize = n;
    while k < 4
        invariant
            n == digits@.len(),
            n <= k,
            k <= 4 || k == n,
            p@ == before + Seq::new((k - n) as nat, |_i: int| '0'),
        decreases 4 - k,
    {
        crate::text::push_char(&mut p, '0');
        k = k + 1;
        assert(p@ =~= before + Seq::new((k - n) as nat, |_i: int| '0'));
    }
    assert(p@ =~= before + Seq::new((k - n) as nat, |_i: int| '0'));
    p.append(digits.as_str());
    if n >= 4 {
        assert(Seq::new((k - n) as nat, |_i: int| '0') =~= Seq::<char>::empty());
    }
    assert(p@ =~= display_class_subkey_for(idx));
    p
}

/// The specifications deduced from the lower-cased adapter name follow the
/// first model found in it: RTX 4090 (AD102), RTX 4080 (AD103), RTX 4070
/// (AD104), RX 7900 (Navi 31), RX 7800 / 7700 (Navi 32), Intel Arc / Iris
/// (Alchemist); any other name gets the generic row. Every row lists the same
/// nine technologies.
pub proof fn lemma_gpu_rows(lower: Seq<char>)
    ensures
        ({
            let s = gpu_specs_for(lower);
            let rtx4090 = contains_seq(lower, "4090"@);
            let rtx4080 = contains_seq(lower, "4080"@);
            let rtx4070 = contains_seq(lower, "4070"@);
            let rx7900 = contains_seq(lower, "7900"@);
            let rx7800 = contains_seq(lower, "7800"@) || contains_seq(lower, "7700"@);
            let intel = contains_seq(lower, "intel"@) || contains_seq(lower, "arc"@) || contains_seq(lower, "iris"@);
            &&& rtx4090 ==> (s.vendor == "NVIDIA"@ && s.subvendor == "NVIDIA Founder / ASUS"@
                && s.code_name == "AD102 (Ada Lovelace)"@ && s.technology == "TSMC 4N (5nm)"@
                && s.die_size == "608 mm²"@ && s.transistors == "76.3 Billion"@ && s.shaders == 16384
                && s.texture_fillrate_tenths == 12900 && s.pixel_fillrate_tenths == 4300
                && s.memory_type == "GDDR6X (Micron)"@ && s.bus_width == "384-bit"@ && s.bandwidth_tenths == 10080
                && s.base_clock_mhz == 2235 && s.boost_clock_mhz == 2520 && s.memory_clock_mhz == 10500)
            &&& !(rtx4090) && rtx4080 ==> (s.vendor == "NVIDIA"@ && s.subvendor == "ASUSTeK / MSI"@ && s.code_name == "AD103 (Ada Lovelace)"@
                && s.technology == "TSMC 4N (5nm)"@ && s.die_size == "379 mm²"@ && s.transistors == "45.9 Billion"@
                && s.shaders == 10240 && s.texture_fillrate_tenths == 8160 && s.pixel_fillrate_tenths == 2856
                && s.memory_type == "GDDR6X (Micron)"@ && s.bus_width == "256-bit"@ && s.bandwidth_tenths == 7168
                && s.base_clock_mhz == 2295 && s.boost_clock_mhz == 2550 && s.memory_clock_mhz == 11200)
            &&& !(rtx4090 || rtx4080) && rtx4070 ==> (s.vendor == "NVIDIA"@ && s.subvendor == "Gigabyte / ZOTAC"@
                && s.code_name == "AD104 (Ada Lovelace)"@ && s.technology == "TSMC 4N (5nm)"@
                && s.die_size == "294 mm²"@ && s.transistors == "35.8 Billion"@ && s.shaders == 5888
                && s.texture_fillrate_tenths == 4554 && s.pixel_fillrate_tenths == 1584
                && s.memory_type == "GDDR6X (Micron)"@ && s.bus_width == "192-bit"@ && s.bandwidth_tenths == 5042
                && s.base_clock_mhz == 1920 && s.boost_clock_mhz == 2475 && s.memory_clock_mhz == 10500)
            &&& !(rtx4090 || rtx4080 || rtx4070) && rx7900 ==> (s.vendor == "AMD"@ && s.subvendor == "Sapphire / PowerColor"@ && s.code_name == "Navi 31 (RDNA 3)"@
                && s.technology == "TSMC 5nm + 6nm"@ && s.die_size == "529 mm²"@ && s.transistors == "57.7 Billion"@
                && s.shaders == 6144 && s.texture_fillrate_tenths == 9600 && s.pixel_fillrate_tenths == 3200
                && s.memory_type == "GDDR6"@ && s.bus_width == "384-bit"@ && s.bandwidth_tenths == 9600
                && s.base_clock_mhz == 2000 && s.boost_clock_mhz == 2500 && s.memory_clock_mhz == 10000)
            &&& !(rtx4090 || rtx4080 || rtx4070 || rx7900) && rx7800 ==> (s.vendor == "AMD"@ && s.subvendor == "ASRock / XFX"@ && s.code_name == "Navi 32 (RDNA 3)"@
                && s.technology == "TSMC 5nm"@ && s.die_size == "346 mm²"@ && s.transistors == "28.1 Billion"@
                && s.shaders == 3840 && s.texture_fillrate_tenths == 6200 && s.pixel_fillrate_tenths == 2100
                && s.memory_type == "GDDR6"@ && s.bus_width == "256-bit"@ && s.bandwidth_tenths == 6240
                && s.base_clock_mhz == 2124 && s.boost_clock_mhz == 2430 && s.memory_clock_mhz == 9750)
            &&& !(rtx4090 || rtx4080 || rtx4070 || rx7900 || rx7800) && intel ==> (s.vendor == "Intel"@ && s.subvendor == "Intel Corporation"@ && s.code_name == "Alchemist (ACM-G10)"@
                && s.technology == "TSMC N6 (6nm)"@ && s.die_size == "406 mm²"@ && s.transistors == "21.7 Billion"@
                && s.shaders == 4096 && s.texture_fillrate_tenths == 5376 && s.pixel_fillrate_tenths == 1344
                && s.memory_type == "GDDR6"@ && s.bus_width == "256-bit"@ && s.bandwidth_tenths == 5600
                && s.base_clock_mhz == 2100 && s.boost_clock_mhz == 2400 && s.memory_clock_mhz == 8000)
            &&& !(rtx4090 || rtx4080 || rtx4070 || rx7900 || rx7800 || intel) ==> (s.vendor == "NVIDIA / AMD / Intel"@ && s.subvendor == "OEM Display Device"@
                && s.code_name == "Modern Graphics Architecture"@ && s.technology == "FinFET"@
                && s.die_size == "250 mm²"@ && s.transistors == "15.0 Billion"@ && s.shaders == 2560
                && s.texture_fillrate_tenths == 3500 && s.pixel_fillrate_tenths == 1200
                && s.memory_type == "GDDR6 / Shared"@ && s.bus_width == "128-bit"@ && s.bandwidth_tenths == 2880
                && s.base_clock_mhz == 1600 && s.boost_clock_mhz == 2100 && s.memory_clock_mhz == 7000)
            &&& s.technologies == seq![
                "DirectX 12 Ultimate"@,
                "Vulkan 1.3"@,
                "Ray Tracing (RTX/DXR)"@,
                "DLSS / FSR Upscaling"@,
                "CUDA / Compute"@,
                "OpenCL 3.0"@,
                "DirectCompute"@,
                "AV1 Decode/Encode"@,
                "Resizable BAR"@,
            ]
        }),
{
}
/// An adapter read from the registry is kept exactly when its description
/// names none of the basic, remote (RdpIdd), virtual or Miracast drivers;
/// its video memory is the byte count in whole MiB, 8 GiB when the count is
/// zero; the 64-bit memory value wins over the 32-bit one when it is read
/// and not zero.
pub proof fn lemma_registry_adapters(desc: Seq<char>, bytes: u64, qword_ok: bool, qword: u64, dword_ok: bool, dword: u32)
    ensures
        is_physical_adapter_for(desc) <==> !(contains_seq(desc, "Basic Display"@) || contains_seq(desc, "RdpIdd"@)
            || contains_seq(desc, "Virtual"@) || contains_seq(desc, "Miracast"@)),
        bytes > 0 ==> vram_mb_for(bytes) == bytes / 1048576,
        bytes == 0 ==> vram_mb_for(bytes) == 8192,
        qword_ok && qword > 0 ==> registry_number_for(qword_ok, qword, dword_ok, dword) == Some(qword),
        !(qword_ok && qword > 0) && dword_ok && dword > 0
            ==> registry_number_for(qword_ok, qword, dword_ok, dword) == Some(dword as u64),
        !(qword_ok && qword > 0) && !(dword_ok && dword > 0)
            ==> registry_number_for(qword_ok, qword, dword_ok, dword) == None::<u64>,
{
}

/// A missing driver text gives way to its default; a present one is kept.
pub proof fn lemma_text_defaults(v: Option<String>, default: Seq<char>)
    ensures
        v matches Some(s) ==> text_or_for(v, default) == s@,
        v is None ==> text_or_for(v, default) == default,
{
}

} // verus!
