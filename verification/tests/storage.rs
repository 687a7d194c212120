use rs_cpu::storage::{
    bus_type_name, deduce_storage_specs, disk_number_from_extents, disk_size_from_geometry, drive_model,
    drive_partition_indices, parse_device_descriptor, physical_drive_path, random_4k_offset, reports_progress,
    volume_device_path, DiskBenchmarkStage, PhysicalDriveInfo,
};
use rs_cpu::storage::{
    drive_capacity_bytes, duplicate_partitions, iops, select_partitions, stage_blocks, stage_io, stage_progress,
    throughput_tenths, DiskBenchmarkResult, DiskKindField, PartitionInfo, StorageInfo,
};

#[test]
fn test_deduce_storage_specs() {
    let (interface, form_factor, _) = deduce_storage_specs("Samsung SSD 990 PRO 2TB", "NVMe");
    assert!(interface.contains("NVMe"));
    assert_eq!(form_factor, "M.2 2280");
}

#[test]
fn storage_specs_sata_and_generic() {
    let (i, f, t) = deduce_storage_specs("Crucial MX500 1TB", "SATA");
    assert_eq!((i.as_str(), f.as_str(), t.as_str()), ("SATA III 6.0 Gb/s", "2.5-inch 7mm", "3D TLC NAND Flash"));
    let (i, _, _) = deduce_storage_specs("Generic Flash Disk", "USB");
    assert_eq!(i, "High-Speed Storage Controller");
}

#[test]
fn stage_labels() {
    assert_eq!(DiskBenchmarkStage::SeqWrite.label(), "1/4 Gravando Sequencial (1 MB)...");
    assert_eq!(DiskBenchmarkStage::RndRead4k.label(), "4/4 Lendo Aleatório 4K (IOPS)...");
}

#[test]
fn default_drive_attributes_and_warnings() {
    let d = PhysicalDriveInfo::default();
    assert_eq!(d.model, "Disco Não Identificado");
    assert_eq!((d.total_host_writes_tenths_tb, d.total_host_reads_tenths_tb), (0, 0));
    assert_eq!(d.smart_attributes.len(), 10);
    assert_eq!(d.smart_attributes[1].value_str, "0 hrs (0 dias, 0h)");
    assert_eq!(d.smart_attributes[3].value_str, "0% restante");
    assert_eq!(d.smart_attributes[3].status, "Atenção");
    assert_eq!(d.smart_attributes[9].value_str, "0.0 °C");
    assert_eq!(d.diagnostic_warnings.len(), 1);
    assert!(d.diagnostic_warnings[0].contains("ALERTA DE DESGASTE"));
    assert!(d.diagnostic_warnings[0].contains("em 0%."));
}

#[test]
fn smart_warnings_for_readings() {
    let mut d = PhysicalDriveInfo::default();
    d.reallocated_sectors = 5;
    d.temperature_decidegrees = 712;
    d.wear_level_decipercent = 985;
    d.crc_errors = 0;
    d.power_on_hours = 50;
    d.power_cycles = 7;
    d.build_smart_attributes_and_warnings();
    assert_eq!(d.smart_attributes[0].status, "Crítico");
    assert_eq!(d.smart_attributes[1].value_str, "50 hrs (2 dias, 2h)");
    assert_eq!(d.smart_attributes[2].value_str, "7 vezes");
    assert_eq!(d.smart_attributes[3].value_str, "98% restante");
    assert_eq!(d.smart_attributes[9].value_str, "71.2 °C");
    assert_eq!(d.smart_attributes[9].status, "Atenção");
    assert_eq!(d.diagnostic_warnings.len(), 2);
    assert!(d.diagnostic_warnings[0].contains("Detectados 5 setores"));
    assert!(d.diagnostic_warnings[1].contains("71.2 °C"));

    d.reallocated_sectors = 0;
    d.temperature_decidegrees = 400;
    d.build_smart_attributes_and_warnings();
    assert_eq!(d.diagnostic_warnings.len(), 1);
    assert!(d.diagnostic_warnings[0].starts_with("✅"));
}

#[test]
fn tenths_formatting_matches_float_formatting() {
    for t in -300i32..1500 {
        let mut d = PhysicalDriveInfo::default();
        d.temperature_decidegrees = t;
        d.build_smart_attributes_and_warnings();
        assert_eq!(d.smart_attributes[9].value_str, format!("{:.1} °C", t as f32 / 10.0));
    }
    for w in 0u32..1200 {
        let mut d = PhysicalDriveInfo::default();
        d.wear_level_decipercent = w;
        d.build_smart_attributes_and_warnings();
        assert_eq!(d.smart_attributes[3].value_str, format!("{:.0}% restante", w as f32 / 10.0));
    }
}

fn descriptor_buffer() -> Vec<u8> {
    let mut buf = vec![0u8; 1024];
    buf[12..16].copy_from_slice(&100u32.to_le_bytes());
    buf[16..20].copy_from_slice(&200u32.to_le_bytes());
    buf[20..24].copy_from_slice(&300u32.to_le_bytes());
    buf[24..28].copy_from_slice(&0u32.to_le_bytes());
    buf[28..32].copy_from_slice(&17u32.to_le_bytes());
    buf[100..112].copy_from_slice(b"  Samsung   ");
    buf[200..219].copy_from_slice(b"SSD 990 PRO 2TB____");
    buf[300..308].copy_from_slice(b"4B2QJXD7");
    buf
}

#[test]
fn parse_descriptor_and_name_drive() {
    let buf = descriptor_buffer();
    assert!(parse_device_descriptor(false, 1024, &buf).is_none());
    assert!(parse_device_descriptor(true, 27, &buf).is_none());
    let d = parse_device_descriptor(true, 1024, &buf).unwrap();
    assert_eq!(d.vendor, "Samsung");
    assert_eq!(d.product, "SSD 990 PRO 2TB____");
    assert_eq!(d.firmware, "4B2QJXD7");
    assert_eq!(d.serial, "");
    assert_eq!(d.bus_type_code, 17);
    let drive = PhysicalDriveInfo::from_descriptor(&d, 0, 2_000_398_934_016, Vec::new());
    assert_eq!(drive.model, "Samsung SSD 990 PRO 2TB");
    assert_eq!(drive.capacity_bytes, 2_000_398_934_016);
    assert!(drive.partitions.is_empty());
    assert_eq!(drive.serial, "N/D");
    assert_eq!((drive.total_host_writes_tenths_tb, drive.total_host_reads_tenths_tb), (0, 0));
    assert_eq!(drive.firmware, "4B2QJXD7");
    assert_eq!(drive.interface, "NVMe PCIe 4.0 x4 (M-Key)");
    assert_eq!(drive.smart_attributes.len(), 10);
}

#[test]
fn drive_model_rules() {
    assert_eq!(drive_model("ATA ATA WDC_", "_WDC WD10EZEX_", 1), "WDC WD10EZEX");
    assert_eq!(drive_model("ATA", "", 3), "Physical Drive #3");
    assert_eq!(drive_model("", "", 0), "Physical Drive #0");
    assert_eq!(drive_model("Kingston", "", 0), "Kingston");
    assert_eq!(drive_model("KINGSTON", "kingston sa400", 0), "kingston sa400");
    assert_eq!(drive_model("Samsung", "SSD 870 EVO", 0), "Samsung SSD 870 EVO");
}

#[test]
fn bus_types_and_paths() {
    assert_eq!(bus_type_name(3), "SATA");
    assert_eq!(bus_type_name(11), "SATA");
    assert_eq!(bus_type_name(7), "USB");
    assert_eq!(bus_type_name(8), "RAID");
    assert_eq!(bus_type_name(17), "NVMe");
    assert_eq!(bus_type_name(99), "NVMe / SSD");
    assert_eq!(physical_drive_path(12), r"\\.\PhysicalDrive12");
    assert_eq!(volume_device_path(r"C:\").unwrap(), r"\\.\C:");
    assert_eq!(volume_device_path("/mnt/data//").unwrap(), r"\\.\/mnt/data");
    assert!(volume_device_path(r"\/").is_none());
}

#[test]
fn geometry_and_extents() {
    let mut g = vec![0u8; 256];
    g[24..32].copy_from_slice(&2_000_398_934_016u64.to_le_bytes());
    assert_eq!(disk_size_from_geometry(true, 256, &g), Some(2_000_398_934_016));
    assert_eq!(disk_size_from_geometry(true, 31, &g), None);
    assert_eq!(disk_size_from_geometry(false, 256, &g), None);
    let mut e = vec![0u8; 256];
    e[0..4].copy_from_slice(&1u32.to_le_bytes());
    e[8..12].copy_from_slice(&2u32.to_le_bytes());
    assert_eq!(disk_number_from_extents(true, 32, &e), Some(2));
    assert_eq!(disk_number_from_extents(true, 11, &e), None);
    e[0..4].copy_from_slice(&0u32.to_le_bytes());
    assert_eq!(disk_number_from_extents(true, 32, &e), None);
}

#[test]
fn partitions_by_drive() {
    let disks = vec![Some(0), None, Some(1), Some(0)];
    assert_eq!(drive_partition_indices(&disks, 0), vec![0, 1, 3]);
    assert_eq!(drive_partition_indices(&disks, 1), vec![2]);
    assert_eq!(drive_partition_indices(&disks, 5), Vec::<usize>::new());
}

#[test]
fn benchmark_access_pattern() {
    assert_eq!(random_4k_offset(0), 0);
    assert_eq!(random_4k_offset(1), 7919);
    assert_eq!(random_4k_offset(3999), ((3999 * 7919) % (64 * 1048576 - 4096)) as u64);
    assert!(reports_progress(0, 4, 64));
    assert!(!reports_progress(5, 4, 64));
    assert!(reports_progress(63, 4, 64));
}

fn volume(mount: &str, total: u64, free: u64) -> PartitionInfo {
    PartitionInfo::from_volume(mount.to_string(), "Data".to_string(), "NTFS".to_string(), total, free, DiskKindField::Ssd)
}

#[test]
fn volume_usage_figures() {
    let p = volume("C:\\", 1000, 250);
    assert_eq!(p.used_bytes, 750);
    assert_eq!(p.used_pct_tenths, 750);
    assert_eq!(p.disk_type, "SSD");
    let full = volume("D:\\", 3, 0);
    assert_eq!(full.used_pct_tenths, 1000);
    let odd = volume("E:\\", 3, 2);
    assert_eq!(odd.used_pct_tenths, 333);
    // 2 of 3 bytes in use: 66.67 %, shown as 66.7
    let two_thirds = volume("E:\\", 3, 1);
    assert_eq!(two_thirds.used_pct_tenths, 667);
    let over = volume("F:\\", 100, 200);
    assert_eq!(over.used_bytes, 0);
    assert_eq!(over.used_pct_tenths, 0);
    let empty = volume("G:\\", 0, 0);
    assert_eq!(empty.used_pct_tenths, 0);
    let hdd = PartitionInfo::from_volume("/".to_string(), "root".to_string(), "ext4".to_string(), 10, 5, DiskKindField::Hdd);
    assert_eq!(hdd.disk_type, "HDD");
    let other = PartitionInfo::from_volume("/".to_string(), "root".to_string(), "ext4".to_string(), 10, 5, DiskKindField::Unknown);
    assert_eq!(other.disk_type, "NVMe / SSD");
}

#[test]
fn partitions_selected_for_drive() {
    let all = vec![volume("C:\\", 10, 1), volume("D:\\", 20, 2), volume("E:\\", 30, 3)];
    let disks = vec![Some(0), None, Some(1)];
    let d0 = select_partitions(&all, &disks, 0);
    assert_eq!(d0.iter().map(|p| p.mount_point.clone()).collect::<Vec<_>>(), vec!["C:\\", "D:\\"]);
    let d1 = select_partitions(&all, &disks, 1);
    assert_eq!(d1.len(), 1);
    assert_eq!(d1[0].mount_point, "E:\\");
    assert_eq!(d1[0].total_bytes, 30);
    let copies = duplicate_partitions(&all);
    assert_eq!(copies.len(), 3);
    assert_eq!(copies[2].free_bytes, 3);
}

#[test]
fn drive_capacity_sources() {
    let parts = vec![volume("C:\\", 100, 1), volume("D:\\", 23, 2)];
    assert_eq!(drive_capacity_bytes(Some(512), Some(999), &parts), 512);
    assert_eq!(drive_capacity_bytes(Some(0), Some(999), &parts), 999);
    assert_eq!(drive_capacity_bytes(None, None, &parts), 123);
    assert_eq!(drive_capacity_bytes(None, None, &Vec::new()), 0);
    let huge = vec![volume("C:\\", u64::MAX, 0), volume("D:\\", 5, 0)];
    assert_eq!(drive_capacity_bytes(None, None, &huge), u64::MAX);
}

#[test]
fn storage_assembly() {
    let all = vec![volume("C:\\", 10, 1), volume("D:\\", 20, 2)];
    let s = StorageInfo::assemble(all, Vec::new());
    assert_eq!(s.drives.len(), 1);
    assert_eq!(s.drives[0].model, "Disco Não Identificado");
    assert_eq!(s.drives[0].partitions.len(), 2);
    assert_eq!(s.drives[0].partitions[1].mount_point, "D:\\");
    assert_eq!(s.drives[0].smart_attributes.len(), 10);
    assert_eq!(s.all_partitions.len(), 2);

    let mut d = PhysicalDriveInfo::default();
    d.model = "Disk A".to_string();
    let s2 = StorageInfo::assemble(vec![volume("C:\\", 1, 0)], vec![d]);
    assert_eq!(s2.drives.len(), 1);
    assert_eq!(s2.drives[0].model, "Disk A");
    assert!(s2.drives[0].partitions.is_empty());
    let empty = StorageInfo::default();
    assert!(empty.drives.is_empty() && empty.all_partitions.is_empty());
}

#[test]
fn benchmark_progress_and_speeds() {
    assert_eq!(stage_blocks(DiskBenchmarkStage::SeqWrite), 64);
    assert_eq!(stage_blocks(DiskBenchmarkStage::RndRead4k), 4000);
    assert_eq!(stage_progress(DiskBenchmarkStage::SeqWrite, 0), 100);
    assert_eq!(stage_progress(DiskBenchmarkStage::SeqWrite, 32), 200);
    assert_eq!(stage_progress(DiskBenchmarkStage::SeqRead, 63), 546);
    assert_eq!(stage_progress(DiskBenchmarkStage::RndWrite4k, 2000), 700);
    assert_eq!(stage_progress(DiskBenchmarkStage::RndRead4k, 3999), 999);
    // 64 MiB in half a second: 128.0 MiB/s.
    assert_eq!(throughput_tenths(64 * 1048576, 500_000), 1280);
    // Too short a time counts as one millisecond.
    assert_eq!(throughput_tenths(1048576, 10), 10000);
    assert_eq!(iops(4000, 2_000_000), 2000);
    assert_eq!(iops(4000, 0), 4_000_000);
    assert_eq!(iops(u64::MAX, 1000), u64::MAX);
    let r = DiskBenchmarkResult::default();
    assert_eq!(r.seq_read_tenths + r.rnd_write_iops, 0);
}

#[test]
fn test_storage_detect() {
    let mut partitions = Vec::new();
    if let Ok(disks) = sysinfo::Disks::new_with_refreshed_list() {
        for disk in &disks {
            let kind = match disk.kind() {
                sysinfo::DiskKind::SSD => DiskKindField::Ssd,
                sysinfo::DiskKind::HDD => DiskKindField::Hdd,
                sysinfo::DiskKind::Unknown(_) => DiskKindField::Unknown,
            };
            partitions.push(PartitionInfo::from_volume(
                disk.mount_point().to_string_lossy().to_string(),
                disk.name().to_string_lossy().to_string(),
                disk.file_system().to_string_lossy().to_string(),
                disk.total_space(),
                disk.available_space(),
                kind,
            ));
        }
    }
    let storage = StorageInfo::assemble(partitions, Vec::new());
    assert!(!storage.drives.is_empty());
}

#[test]
fn stage_plans() {
    let w = stage_io(DiskBenchmarkStage::SeqWrite);
    assert!(w.writes && w.sequential);
    assert_eq!((w.block_size, w.report_every, w.fill_byte, w.total_bytes), (1 << 20, 4, 0x5A, 64 << 20));
    let r = stage_io(DiskBenchmarkStage::RndRead4k);
    assert!(!r.writes && !r.sequential);
    assert_eq!((r.block_size, r.report_every, r.fill_byte, r.total_bytes), (4096, 200, 0, 4000 * 4096));
    assert_eq!(stage_io(DiskBenchmarkStage::RndWrite4k).fill_byte, 0xA5);
}

use rs_cpu::storage::{advance_benchmark, first_stage, next_stage, DiskBenchStep, DiskStageOutcome};

#[test]
fn benchmark_sequence_and_results() {
    let mut order = vec![first_stage()];
    while let Some(n) = next_stage(*order.last().unwrap()) {
        order.push(n);
    }
    assert_eq!(
        order,
        vec![
            DiskBenchmarkStage::SeqWrite,
            DiskBenchmarkStage::SeqRead,
            DiskBenchmarkStage::RndWrite4k,
            DiskBenchmarkStage::RndRead4k
        ]
    );

    let mut r = DiskBenchmarkResult::default();
    let step = advance_benchmark(
        &mut r,
        DiskBenchmarkStage::SeqWrite,
        DiskStageOutcome::Measured { bytes: 64 * 1048576, elapsed_us: 500_000 },
    );
    assert_eq!(step, DiskBenchStep::Run(DiskBenchmarkStage::SeqRead));
    assert_eq!(r.seq_write_tenths, 1280);
    assert_eq!(r.seq_read_tenths, 0);

    let step = advance_benchmark(&mut r, DiskBenchmarkStage::SeqRead, DiskStageOutcome::Skipped);
    assert_eq!(step, DiskBenchStep::Run(DiskBenchmarkStage::RndWrite4k));
    assert_eq!(r.seq_read_tenths, 0);

    let step = advance_benchmark(
        &mut r,
        DiskBenchmarkStage::RndWrite4k,
        DiskStageOutcome::Measured { bytes: 16_384_000, elapsed_us: 2_000_000 },
    );
    assert_eq!(step, DiskBenchStep::Run(DiskBenchmarkStage::RndRead4k));
    assert_eq!((r.rnd_write_tenths, r.rnd_write_iops), (78, 2000));

    let step = advance_benchmark(
        &mut r,
        DiskBenchmarkStage::RndRead4k,
        DiskStageOutcome::Measured { bytes: 16_384_000, elapsed_us: 1_000_000 },
    );
    assert_eq!(step, DiskBenchStep::Finish);
    assert_eq!((r.rnd_read_tenths, r.rnd_read_iops), (156, 4000));
    assert_eq!(r.seq_write_tenths, 1280);

    let before = r;
    let step = advance_benchmark(&mut r, DiskBenchmarkStage::SeqRead, DiskStageOutcome::Cancelled);
    assert_eq!(step, DiskBenchStep::Abort);
    assert_eq!(r, before);
}

#[test]
fn benchmark_progress_never_goes_back() {
    let stages = [
        DiskBenchmarkStage::SeqWrite,
        DiskBenchmarkStage::SeqRead,
        DiskBenchmarkStage::RndWrite4k,
        DiskBenchmarkStage::RndRead4k,
    ];
    let mut last = 0u32;
    for s in stages {
        for i in 0..stage_blocks(s) {
            let p = stage_progress(s, i);
            assert!(p >= last);
            last = p;
        }
    }
    assert!(last < 1000);
}

#[test]
fn benchmark_speeds_round_to_nearest() {
    // 64 MiB in 3 s: 21.333 MiB/s, shown as 21.3
    assert_eq!(throughput_tenths(64 * 1048576, 3_000_000), 213);
    // 64 MiB in 1.5 s: 42.667 MiB/s, shown as 42.7
    assert_eq!(throughput_tenths(64 * 1048576, 1_500_000), 427);
    // 4000 operations in 3 s: 1333.3 per second, cut to 1333
    assert_eq!(iops(4000, 3_000_000), 1333);
    assert_eq!(iops(4000, 2_400_000), 1666);
}
