use rs_cpu::memory::{
    create_fallback_slot, check_pattern, generate_timing_profiles, parse_memory_device, stress_pattern,
    test_size_mb, write_pattern, MemoryDeviceRecord, MemoryInfo, MemoryKind, MemorySizeExtendedField,
    MemorySizeField, MemorySpeedField, RamStressTally,
};

#[test]
fn test_timing_profiles_ddr5() {
    let profiles = generate_timing_profiles("DDR5", 6000);
    assert_eq!(profiles.len(), 4);
    assert_eq!(profiles[2].name, "EXPO-6000");
    assert_eq!(profiles[2].frequency_mhz, 3000);
}

#[test]
fn test_fallback_slot_creation() {
    let slot = create_fallback_slot("DIMM 1", 16384, "DDR5", 6000);
    assert_eq!(slot.size_mb, 16384);
    assert_eq!(slot.memory_type, "DDR5");
}

#[test]
fn timing_profiles_other_types() {
    let profiles = generate_timing_profiles("DDR4", 3200);
    assert_eq!(profiles.len(), 3);
    assert_eq!(profiles[2].name, "XMP-3200");
    assert_eq!(profiles[2].frequency_mhz, 1600);
    assert_eq!(profiles[2].voltage_mv, 1350);
    assert_eq!(profiles[0].voltage_mv, 1200);
}

fn record(manufacturer: &str, size: Option<MemorySizeField>) -> MemoryDeviceRecord {
    MemoryDeviceRecord {
        device_locator: "DIMM_A1".to_string(),
        bank_locator: "   ".to_string(),
        size,
        extended_size: Some(MemorySizeExtendedField::Megabytes(65536)),
        memory_type: Some(MemoryKind::Ddr4),
        speed: Some(MemorySpeedField::MTs(3200)),
        configured_speed: Some(MemorySpeedField::Unknown),
        manufacturer: manufacturer.to_string(),
        part_number: "Undefined".to_string(),
        serial_number: "1234ABCD".to_string(),
        form_factor: None,
    }
}

#[test]
fn parse_memory_device_defaults_and_sizes() {
    let slot = parse_memory_device(&record("CORSAIR", Some(MemorySizeField::Kilobytes(4096))));
    assert_eq!(slot.slot_name, "DIMM_A1");
    assert_eq!(slot.bank_locator, "BANK 0");
    assert_eq!(slot.size_mb, 4);
    assert_eq!(slot.memory_type, "DDR4");
    assert_eq!(slot.speed_mhz, 3200);
    assert_eq!(slot.configured_speed_mhz, 3200);
    assert_eq!(slot.dram_manufacturer, "SK Hynix");
    assert_eq!(slot.part_number, "CMK32GX5M2B6000C30");
    assert_eq!(slot.serial_number, "1234ABCD");
    assert_eq!(slot.form_factor, "DIMM");
    assert_eq!(slot.profiles.len(), 3);

    let slot = parse_memory_device(&record("Kingston", Some(MemorySizeField::SeeExtendedSize)));
    assert_eq!(slot.size_mb, 65536);
    assert_eq!(slot.dram_manufacturer, "Kingston");

    let slot = parse_memory_device(&record("", None));
    assert_eq!(slot.size_mb, 0);
    assert_eq!(slot.module_manufacturer, "Corsair / G.Skill");
}

#[test]
fn summary_without_records_assumes_two_slots() {
    let info = MemoryInfo::summarize(32 * 1024 * 1024 * 1024, &Vec::new());
    assert_eq!(info.total_mb, 32768);
    assert_eq!(info.slots.len(), 2);
    assert_eq!(info.slots[0].size_mb, 16384);
    assert_eq!(info.channel_mode, "Dual Channel (2x 64-bit / 4x 32-bit)");
    assert_eq!(info.memory_type, "DDR5");
    assert_eq!(info.dram_speed_mts, 4800);
    assert_eq!((info.cl, info.trcd, info.trp, info.tras, info.trc), (30, 36, 36, 76, 112));
    let small = MemoryInfo::summarize(4 * 1024 * 1024 * 1024, &Vec::new());
    assert_eq!(small.slots[1].size_mb, 8192);
}

#[test]
fn summary_reads_records() {
    let records = vec![
        record("Kingston", Some(MemorySizeField::Megabytes(16384))),
        record("Kingston", Some(MemorySizeField::NotInstalled)),
        record("Kingston", Some(MemorySizeField::Megabytes(16384))),
    ];
    let info = MemoryInfo::summarize(32 * 1024 * 1024 * 1024, &records);
    assert_eq!(info.slots.len(), 3);
    assert_eq!(info.memory_type, "DDR4");
    assert_eq!(info.dram_speed_mts, 3200);
    assert_eq!(info.channel_mode, "Dual Channel (2x 64-bit / 4x 32-bit)");
    assert_eq!((info.cl, info.trcd), (16, 18));
}

#[test]
fn ram_test_kernels() {
    assert_eq!(test_size_mb(10), 256);
    assert_eq!(test_size_mb(1024), 1024);
    assert_eq!(test_size_mb(100000), 8192);
    let (name, fill) = stress_pattern(0);
    assert!(name.starts_with("Padrão 1/3"));
    assert_eq!(fill, StressFill::Fixed(0xAA, 0x55));
    let mut buf = vec![0u8; 4096];
    write_pattern(&mut buf, fill, 0);
    assert!(buf.iter().all(|&b| b == 0xAA));
    assert_eq!(check_pattern(&mut buf, fill, 0), 0);
    assert!(buf.iter().all(|&b| b == 0x55));
    buf[7] = 0;
    buf[100] = 1;
    assert_eq!(check_pattern(&mut buf, StressFill::Fixed(0x55, 0x00), 0), 2);
    assert!(buf.iter().all(|&b| b == 0x00));
}

#[test]
fn ram_test_patterns_of_a_cycle() {
    let (n1, f1) = stress_pattern(1);
    assert_eq!(n1, "Padrão 2/3: Walking Bits (0x0F / 0xF0)");
    assert_eq!(f1, StressFill::Fixed(0x0F, 0xF0));
    let (n2, f2) = stress_pattern(2);
    assert_eq!(n2, "Padrão 3/3: Random Bit Pattern (Pseudoaleatório)");
    assert_eq!(f2, StressFill::PseudoRandom);
}

#[test]
fn ram_test_random_pattern() {
    // seed 0, position 0: 1442695040888963407 >> 56 = 20
    assert_eq!(random_byte(0, 0), 20);
    // seed 0, position 1: (6364136223846793005 + 1442695040888963407) >> 56 = 108
    assert_eq!(random_byte(0, 1), 108);
    assert_eq!(random_byte(3, 4), random_byte(7, 0));
    let mut buf = vec![0u8; 1024];
    write_pattern(&mut buf, StressFill::PseudoRandom, 9);
    for (i, &b) in buf.iter().enumerate() {
        assert_eq!(b, random_byte(9, i as u64));
    }
    assert!(buf.iter().any(|&b| b != buf[0]));
    let written = buf.clone();
    assert_eq!(check_pattern(&mut buf, StressFill::PseudoRandom, 9), 0);
    for i in 0..buf.len() {
        assert_eq!(buf[i], 255 - written[i]);
    }
    write_pattern(&mut buf, StressFill::PseudoRandom, 9);
    buf[3] ^= 0x01;
    assert_eq!(check_pattern(&mut buf, StressFill::PseudoRandom, 9), 1);
    // a different seed gives a different block
    let mut other = vec![0u8; 1024];
    write_pattern(&mut other, StressFill::PseudoRandom, 10);
    assert_ne!(other, written);
}

#[test]
fn channel_modes() {
    assert_eq!(channel_mode_text(0), "Single Channel (1x 64-bit)");
    assert_eq!(channel_mode_text(1), "Single Channel (1x 64-bit)");
    assert_eq!(channel_mode_text(2), "Dual Channel (2x 64-bit / 4x 32-bit)");
    assert_eq!(channel_mode_text(3), "3 Channels");
    assert_eq!(channel_mode_text(4), "Quad Channel (4x 64-bit)");
    assert_eq!(channel_mode_text(6), "6 Channels");
    assert_eq!(channel_mode_text(8), "Octa Channel (8x 64-bit)");
    assert_eq!(channel_mode_text(12), "12 Channels");
    let info = MemoryInfo::summarize(32 * 1_073_741_824u64, &Vec::new());
    let l = info.live;
    assert_eq!((l.used_mb, l.available_mb, l.usage_tenths, l.swap_used_mb, l.swap_total_mb), (0, 0, 0, 0, 0));
}

#[test]
fn ram_tally_accumulates() {
    let mut t = RamStressTally::new();
    t.record_pass(1024, 1, 0);
    t.record_pass(1024, 1, 3);
    assert_eq!(t.total_verified_mb, 4096);
    assert_eq!(t.error_count, 3);
    assert_eq!(t.cycles_completed, 1);
    assert_eq!(t.allocated_mb, 1024);
    let mut w = RamStressTally::new();
    for _ in 0..5 {
        w.record_pass(256, 2, u64::MAX / 2);
    }
    assert_eq!(w.total_verified_mb, 2 * 256 * 5);
    assert_eq!(w.error_count, (5u128 * (u64::MAX / 2) as u128 % (1u128 << 64)) as u64);
    assert_eq!(w.cycles_completed, 2);
}

use rs_cpu::memory::{channel_mode_text, chunk_seed, live_usage, pattern_status, random_byte, StressFill, stress_speed_tenths, RamStressStatus};

#[test]
fn ram_test_status_and_speed() {
    assert_eq!(pattern_status(0), RamStressStatus::Running { pattern: 0, cycle_progress_permille: 0 });
    assert_eq!(pattern_status(1), RamStressStatus::Running { pattern: 1, cycle_progress_permille: 333 });
    assert_eq!(pattern_status(2), RamStressStatus::Running { pattern: 2, cycle_progress_permille: 666 });
    // 2048 MiB in 4 s: 512.0 MiB/s
    assert_eq!(stress_speed_tenths(2048, 4_000_000), 5120);
    assert_eq!(stress_speed_tenths(1, 0), 10000);
    assert_eq!(stress_speed_tenths(u64::MAX, 1000), u64::MAX);
}

#[test]
fn memory_usage_figures() {
    let gib = 1_073_741_824u64;
    let u = live_usage(16 * gib, 4 * gib, 12 * gib, 2 * gib, gib / 2);
    assert_eq!((u.used_mb, u.available_mb, u.usage_tenths, u.swap_total_mb, u.swap_used_mb), (4096, 12288, 250, 2048, 512));
    let none = live_usage(0, 5, 0, 0, 0);
    assert_eq!(none.usage_tenths, 0);
    let mut info = MemoryInfo::summarize(16 * gib, &Vec::new());
    let before = info.total_mb;
    info.update_live_metrics(16 * gib, 8 * gib, 8 * gib, 0, 0);
    assert_eq!(info.live.usage_tenths, 500);
    assert_eq!(info.total_mb, before);
}

#[test]
fn ram_test_chunk_seeds() {
    assert_eq!(chunk_seed(0, 0), 0);
    assert_eq!(chunk_seed(0, 3), 3 * 1_048_576);
    assert_eq!(chunk_seed(1, 0), 1u64 << 40);
    assert_eq!(chunk_seed(2, 5), (2u64 << 40) + 5 * 1_048_576);
    // the cycle wraps around at 2^64
    assert_eq!(chunk_seed(1 << 24, 1), 1_048_576);
    assert_ne!(chunk_seed(1, 0), chunk_seed(2, 0));
}

#[test]
fn ram_test_speed_rounds_to_nearest() {
    // 1 MiB in 3 s: 0.333 MiB/s, shown as 0.3
    assert_eq!(stress_speed_tenths(1, 3_000_000), 3);
    // 2 MiB in 3 s: 0.667 MiB/s, shown as 0.7
    assert_eq!(stress_speed_tenths(2, 3_000_000), 7);
    // 3 MiB in 2 s: 1.5 MiB/s exactly
    assert_eq!(stress_speed_tenths(3, 2_000_000), 15);
    let gib = 1_073_741_824u64;
    // 1 MiB of 3 MiB in use: 33.33 %, shown as 33.3; 2 of 3: 66.67 %, shown as 66.7
    assert_eq!(live_usage(3 * 1_048_576, 1_048_576, 0, 0, 0).usage_tenths, 333);
    assert_eq!(live_usage(3 * 1_048_576, 2 * 1_048_576, 0, 0, 0).usage_tenths, 667);
    assert_eq!(live_usage(16 * gib, 4 * gib, 0, 0, 0).usage_tenths, 250);
}
