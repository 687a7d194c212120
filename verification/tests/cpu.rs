use rs_cpu::cpu::{guess_code_name, guess_socket, guess_technology};

#[test]
fn test_guess_code_name_amd() {
    let name = "AMD Ryzen 7 7800X3D 8-Core Processor";
    let code = guess_code_name("AuthenticAMD", name, 25, 0, 97, 0);
    assert!(code.contains("Zen 4") || code.contains("Raphael"));
}

#[test]
fn test_guess_code_name_intel() {
    let name = "13th Gen Intel(R) Core(TM) i9-13900K";
    let code = guess_code_name("GenuineIntel", name, 6, 0, 183, 0);
    assert!(code.contains("Raptor Lake"));
}

#[test]
fn technology_and_socket_for_raphael() {
    let name = "AMD Ryzen 7 7800X3D 8-Core Processor";
    let code = guess_code_name("AuthenticAMD", name, 25, 0, 97, 0);
    assert_eq!(code, "Raphael (Zen 4)");
    assert_eq!(guess_technology(name, &code, "AuthenticAMD"), "5 nm TSMC");
    assert_eq!(guess_socket(name, &code, "AuthenticAMD"), "Socket AM5 (LGA1718)");
}

use rs_cpu::cpu::{
    detect_caches, detect_instructions, is_cpu_sensor_label, physical_cores_or_estimate, revision_string,
    AmdL1Caches, AmdL2L3Caches, CacheAssociativity, CacheKind, CacheLeaf, CpuFeatureFlags, CpuInfo, CpuProbe,
    CpuSignature,
};

fn no_flags() -> CpuFeatureFlags {
    CpuFeatureFlags {
        mmx: false, sse: false, sse2: false, sse3: false, ssse3: false, sse41: false, sse42: false, avx: false,
        fma: false, aesni: false, popcnt: false, vmx: false, long_mode: false, svm: false, lzcnt: false,
        sse4a: false, amd_3dnow: false, avx2: false, bmi1: false, bmi2: false, sha: false, avx512f: false,
        avx512cd: false, avx512er: false, avx512pf: false, avx512bw: false, avx512dq: false, avx512vl: false,
        clflushopt: false, sgx: false,
    }
}

#[test]
fn instruction_list_order_and_fallback() {
    assert_eq!(detect_instructions(&no_flags()), vec!["x86-64".to_string(), "SSE2".to_string()]);
    let mut f = no_flags();
    f.sse2 = true;
    f.avx2 = true;
    f.long_mode = true;
    f.aesni = true;
    assert_eq!(detect_instructions(&f), vec!["SSE2", "AES", "x86-64", "AVX2"]);
}

#[test]
fn caches_from_leaves_and_fallbacks() {
    let leaves = vec![
        CacheLeaf { level: 1, kind: CacheKind::Data, sets: 64, ways: 12, line_size: 64, partitions: 1 },
        CacheLeaf { level: 1, kind: CacheKind::Other, sets: 0, ways: 1, line_size: 64, partitions: 1 },
        CacheLeaf { level: 3, kind: CacheKind::Unified, sets: 32768, ways: 16, line_size: 64, partitions: 1 },
    ];
    let c = detect_caches(&leaves, &None, &None);
    assert_eq!(c.len(), 2);
    assert_eq!((c[0].level, c[0].size_kb, c[0].associativity.as_str(), c[0].cache_type.as_str()), (1, 48, "12-way", "Data"));
    assert_eq!((c[1].level, c[1].size_kb, c[1].line_size), (3, 32768, 64));

    let l1 = AmdL1Caches {
        dcache_size_kb: 32, dcache_associativity: CacheAssociativity::NWay(8), dcache_line_size: 64,
        icache_size_kb: 32, icache_associativity: CacheAssociativity::FullyAssociative, icache_line_size: 64,
    };
    let l23 = AmdL2L3Caches {
        l2_size_kb: 1024, l2_associativity: CacheAssociativity::NWay(8), l2_line_size: 64,
        l3_size_512kb: 64, l3_associativity: CacheAssociativity::Unknown, l3_line_size: 64,
    };
    let c = detect_caches(&Vec::new(), &Some(l1), &Some(l23));
    assert_eq!(c.len(), 4);
    assert_eq!(c[0].associativity, "NWay(8)-way");
    assert_eq!(c[1].associativity, "Fully associative-way");
    assert_eq!(c[3].size_kb, 32768);
    assert_eq!(c[3].associativity, "Unknown (check leaf 0x8000_001d)-way");

    let c = detect_caches(&Vec::new(), &None, &None);
    assert_eq!(c.len(), 4);
    assert_eq!((c[3].size_kb, c[3].associativity.as_str()), (32768, "16-way"));
}

#[test]
fn caches_keep_documented_levels_and_types() {
    let leaves = vec![
        CacheLeaf { level: 2, kind: CacheKind::Unified, sets: 1024, ways: 16, line_size: 64, partitions: 1 },
        CacheLeaf { level: 4, kind: CacheKind::Unified, sets: 65536, ways: 16, line_size: 64, partitions: 1 },
        CacheLeaf { level: 2, kind: CacheKind::Other, sets: 1024, ways: 8, line_size: 64, partitions: 1 },
        CacheLeaf { level: 0, kind: CacheKind::Data, sets: 64, ways: 8, line_size: 64, partitions: 1 },
    ];
    let c = detect_caches(&leaves, &None, &None);
    assert_eq!(c.len(), 1);
    assert_eq!((c[0].level, c[0].cache_type.as_str(), c[0].size_kb), (2, "Unified", 1024));

    // Only leaves outside the documented levels and types: the default hierarchy.
    let odd = vec![
        CacheLeaf { level: 4, kind: CacheKind::Unified, sets: 65536, ways: 16, line_size: 64, partitions: 1 },
        CacheLeaf { level: 1, kind: CacheKind::Other, sets: 64, ways: 8, line_size: 64, partitions: 1 },
    ];
    let c = detect_caches(&odd, &None, &None);
    assert_eq!(c.len(), 4);
    for e in &c {
        assert!((1..=3).contains(&e.level));
        assert!(["Data", "Instruction", "Unified"].contains(&e.cache_type.as_str()));
    }
}

#[test]
fn sensor_labels() {
    assert!(is_cpu_sensor_label("k10temp Tctl"));
    assert!(is_cpu_sensor_label("coretemp Package id 0"));
    assert!(is_cpu_sensor_label("CPU"));
    assert!(is_cpu_sensor_label("acpitz-CORE 1"));
    assert!(!is_cpu_sensor_label("nvme Composite"));
    assert!(!is_cpu_sensor_label("cores"));
    assert!(!is_cpu_sensor_label(""));
}

#[test]
fn identity_parts() {
    assert_eq!(revision_string(0xA, 0x6), "A:6");
    assert_eq!(revision_string(0, 0x1B), "0:1B");
    assert_eq!(physical_cores_or_estimate(Some(8), 16), 8);
    assert_eq!(physical_cores_or_estimate(None, 16), 8);
    assert_eq!(physical_cores_or_estimate(None, 1), 1);
}

#[test]
fn identify_processor() {
    let probe = CpuProbe {
        vendor: Some("AuthenticAMD".to_string()),
        brand: Some("  AMD Ryzen 9 7950X 16-Core Processor  ".to_string()),
        os_brand: None,
        signature: Some(CpuSignature { family: 15, model: 1, stepping: 2, ext_family: 10, ext_model: 6 }),
        features: no_flags(),
        cache_leaves: Vec::new(),
        amd_l1: None,
        amd_l2l3: None,
        physical_cores: None,
        logical_threads: 32,
    };
    let info = CpuInfo::identify(&probe);
    assert_eq!(info.name, "AMD Ryzen 9 7950X 16-Core Processor");
    assert_eq!(info.code_name, "Raphael (Zen 4)");
    assert_eq!(info.technology, "5 nm TSMC");
    assert_eq!(info.package_socket, "Socket AM5 (LGA1718)");
    assert_eq!(info.revision, "A:6");
    assert_eq!(info.physical_cores, 16);
    assert_eq!(info.caches.len(), 4);
    let unknown = CpuInfo::identify(&CpuProbe { vendor: None, brand: None, signature: None, ..probe });
    assert_eq!(unknown.vendor, "Unknown");
    assert_eq!(unknown.name, "Unknown Processor");
    assert_eq!(unknown.code_name, "x86-64 Architecture");
}

use rs_cpu::cpu::{CpuReadings, SensorReading};

fn ryzen() -> CpuInfo {
    CpuInfo::identify(&CpuProbe {
        vendor: Some("AuthenticAMD".to_string()),
        brand: Some("AMD Ryzen 9 7950X 16-Core Processor".to_string()),
        os_brand: None,
        signature: Some(CpuSignature { family: 15, model: 1, stepping: 2, ext_family: 10, ext_model: 6 }),
        features: no_flags(),
        cache_leaves: Vec::new(),
        amd_l1: None,
        amd_l2l3: None,
        physical_cores: Some(16),
        logical_threads: 32,
    })
}

#[test]
fn live_metrics_from_sensors() {
    let mut info = ryzen();
    assert!(info.live.core_frequencies_mhz.is_empty());
    let readings = CpuReadings {
        core_frequencies_mhz: vec![4500, 4700, 4601],
        core_loads_tenths: vec![100, 500, 1000],
        global_load_tenths: 533,
        sensors: vec![
            SensorReading { label: "k10temp Tctl".to_string(), temp_tenths: Some(655) },
            SensorReading { label: "coretemp Core 0".to_string(), temp_tenths: Some(600) },
            SensorReading { label: "CPU".to_string(), temp_tenths: Some(1300) },
            SensorReading { label: "nvme Composite".to_string(), temp_tenths: Some(400) },
            SensorReading { label: "Package".to_string(), temp_tenths: None },
        ],
    };
    info.update_live_metrics(&readings);
    let l = &info.live;
    assert_eq!(l.core_frequencies_mhz, vec![4500, 4700, 4601]);
    assert_eq!(l.per_core_load_tenths, vec![100, 500, 1000]);
    assert_eq!(l.global_load_tenths, 533);
    // (4500 + 4700 + 4601) / 3 = 4600.33 MHz
    assert_eq!(l.avg_frequency_tenths, 46003);
    assert_eq!(l.bus_speed_mhz, 100);
    assert_eq!(l.multiplier_tenths, 460);
    // (65.5 + 60.0) / 2 = 62.75 °C, rounded to the nearest tenth
    assert_eq!(l.cpu_temp_tenths, 628);
    // 850 + (62.75 - 35) / 45 * 1150 = 1559.2, from the exact temperature
    assert_eq!(l.fan_speed_rpm, 1559);
    assert_eq!(info.name, "AMD Ryzen 9 7950X 16-Core Processor");
}

#[test]
fn live_metrics_estimated_and_unchanged() {
    let mut info = ryzen();
    let no_cpus = CpuReadings {
        core_frequencies_mhz: Vec::new(),
        core_loads_tenths: Vec::new(),
        global_load_tenths: 900,
        sensors: Vec::new(),
    };
    info.update_live_metrics(&no_cpus);
    assert_eq!(info.live.global_load_tenths, 0);
    assert_eq!(info.live.fan_speed_rpm, 0);

    let busy = CpuReadings {
        core_frequencies_mhz: vec![3000],
        core_loads_tenths: vec![1000],
        global_load_tenths: 1000,
        sensors: Vec::new(),
    };
    info.update_live_metrics(&busy);
    assert_eq!(info.live.cpu_temp_tenths, 720);
    assert_eq!(info.live.fan_speed_rpm, 1795);
    // 4600.3125 MHz average: 46003.1 tenths; multiplier 46.003
    let near = CpuReadings { core_frequencies_mhz: vec![4600, 4600, 4600, 4600, 4600, 4601, 4601, 4601, 4601, 4601,
        4600, 4600, 4600, 4600, 4600, 4600], global_load_tenths: 15, ..busy.clone() };
    info.update_live_metrics(&near);
    assert_eq!(info.live.avg_frequency_tenths, 46003);
    assert_eq!(info.live.multiplier_tenths, 460);
    // 38.0 + 1.5 % of 34.0 = 38.51 °C: shown as 38.5
    assert_eq!(info.live.cpu_temp_tenths, 385);
    let avg_up = CpuReadings { core_frequencies_mhz: vec![1000, 1001, 1001], ..busy.clone() };
    info.update_live_metrics(&avg_up);
    // 1000.67 MHz: 10006.7 tenths, rounded up
    assert_eq!(info.live.avg_frequency_tenths, 10007);
    // multiplier 10.0067: 100 tenths
    assert_eq!(info.live.multiplier_tenths, 100);
    let idle = CpuReadings { global_load_tenths: 0, ..busy };
    info.update_live_metrics(&idle);
    assert_eq!(info.live.cpu_temp_tenths, 380);
    assert_eq!(info.live.fan_speed_rpm, 926);
}
