use rs_cpu::cpu::{CpuFeatureFlags, CpuInfo, CpuProbe, CpuReadings, CpuSignature, SensorReading};
use rs_cpu::gpu::GpuInfo;
use rs_cpu::memory::MemoryInfo;
use rs_cpu::motherboard::MotherboardInfo;
use rs_cpu::report::{
    generate_csv_report, html_report_dated, text_report_dated,
    SystemHardware,
};
use rs_cpu::storage::{DiskKindField, PartitionInfo, PhysicalDriveInfo, StorageInfo};

fn flags() -> CpuFeatureFlags {
    CpuFeatureFlags {
        mmx: true, sse: true, sse2: true, sse3: false, ssse3: false, sse41: false, sse42: false, avx: true,
        fma: false, aesni: false, popcnt: false, vmx: false, long_mode: true, svm: false, lzcnt: false,
        sse4a: false, amd_3dnow: false, avx2: true, bmi1: false, bmi2: false, sha: false, avx512f: false,
        avx512cd: false, avx512er: false, avx512pf: false, avx512bw: false, avx512dq: false, avx512vl: false,
        clflushopt: false, sgx: false,
    }
}

fn machine(gpus: Vec<GpuInfo>) -> SystemHardware {
    let cpu = CpuInfo::identify(&CpuProbe {
        vendor: Some("GenuineIntel".to_string()),
        brand: Some("13th Gen Intel(R) Core(TM) i9-13900K".to_string()),
        os_brand: None,
        signature: Some(CpuSignature { family: 6, model: 0xB7, stepping: 1, ext_family: 0, ext_model: 0xB }),
        features: flags(),
        cache_leaves: Vec::new(),
        amd_l1: None,
        amd_l2l3: None,
        physical_cores: Some(24),
        logical_threads: 32,
    });
    let memory = MemoryInfo::summarize(34_359_738_368 + 3 * 1_048_576 * 100, &Vec::new());
    let mut drive = PhysicalDriveInfo::default();
    drive.model = "Samsung SSD 990 PRO 2TB".to_string();
    drive.capacity_bytes = 2_000_398_934_016;
    let mut other = PhysicalDriveInfo::default();
    other.capacity_bytes = 3 * 107_374_182 + 1;
    let storage = StorageInfo::assemble(Vec::new(), vec![drive, other]);
    SystemHardware::assemble(cpu, MotherboardInfo::default(), memory, storage, gpus, Some("Windows".to_string()), None, 77)
}

fn expected_text(h: &SystemHardware, date: &str) -> String {
    let mut out = String::new();
    out.push_str("--------------------------------------------------\n");
    out.push_str(" RS-CPU RELATORIO DE DIAGNOSTICO DE HARDWARE\n");
    out.push_str(&format!(" Gerado em: {}\n", date));
    out.push_str("--------------------------------------------------\n\n");
    out.push_str("[PROCESSADOR]\n");
    out.push_str(&format!("  Nome:             {}\n", h.cpu.name));
    out.push_str(&format!("  Fabricante:       {}\n", h.cpu.vendor));
    out.push_str(&format!("  Codinome:         {}\n", h.cpu.code_name));
    out.push_str(&format!("  Soquete/Pacote:   {}\n", h.cpu.package_socket));
    out.push_str(&format!("  Litografia:       {}\n", h.cpu.technology));
    out.push_str(&format!("  Familia/Mod/Stp:  {:X} / {:X} / {}\n", h.cpu.family, h.cpu.model, h.cpu.stepping));
    out.push_str(&format!("  Nucleos / Threads:{} Nucleos, {} Threads\n", h.cpu.physical_cores, h.cpu.logical_threads));
    out.push_str(&format!("  Instrucoes:       {}\n\n", h.cpu.instructions.join(" ")));
    out.push_str("[PLACA-MAE]\n");
    let m = &h.motherboard;
    out.push_str(&format!("  Fabricante:       {}\n", m.manufacturer));
    out.push_str(&format!("  Modelo:           {}\n", m.model));
    out.push_str(&format!("  Versao:           {}\n", m.version));
    out.push_str(&format!("  Chipset:          {}\n", m.chipset));
    out.push_str(&format!("  BIOS Fabricante:  {}\n", m.bios_vendor));
    out.push_str(&format!("  BIOS Versao:      {}\n", m.bios_version));
    out.push_str(&format!("  BIOS Data:        {}\n\n", m.bios_date));
    out.push_str("[MEMORIA RAM]\n");
    let mem = &h.memory;
    out.push_str(&format!("  Capacidade Total: {} MB ({} GB)\n", mem.total_mb, mem.total_mb / 1024));
    out.push_str(&format!("  Tipo:             {}\n", mem.memory_type));
    out.push_str(&format!("  Canais:           {}\n", mem.channel_mode));
    out.push_str(&format!("  Frequencia DRAM:  {:.1} MHz\n", mem.dram_speed_mts as f32 / 2.0));
    out.push_str(&format!("  Timings:          CL{}-{}-{}-{}\n\n", mem.cl, mem.trcd, mem.trp, mem.tras));
    out.push_str("[GRAFICOS]\n");
    for (i, gpu) in h.gpus.iter().enumerate() {
        out.push_str(&format!("  GPU #{i}:          {}\n", gpu.name));
        out.push_str(&format!("  VRAM:             {} MB ({})\n", gpu.vram_mb, gpu.memory_type));
        out.push_str(&format!("  Driver:           {}\n", gpu.driver_version));
    }
    out
}

fn expected_csv(h: &SystemHardware) -> String {
    let mut out = String::from("Categoria,Propriedade,Valor\n");
    out.push_str(&format!("Sistema,Sistema Operacional,\"{}\"\n", h.os_name));
    out.push_str(&format!("Sistema,Versao do SO,\"{}\"\n", h.os_version));
    out.push_str(&format!("Processador,Nome,\"{}\"\n", h.cpu.name));
    out.push_str(&format!("Processador,Fabricante,\"{}\"\n", h.cpu.vendor));
    out.push_str(&format!("Processador,Codinome,\"{}\"\n", h.cpu.code_name));
    out.push_str(&format!("Processador,Soquete,\"{}\"\n", h.cpu.package_socket));
    out.push_str(&format!("Processador,Litografia,\"{}\"\n", h.cpu.technology));
    out.push_str(&format!("Processador,Nucleos Fisicos,\"{}\"\n", h.cpu.physical_cores));
    out.push_str(&format!("Processador,Threads Logicas,\"{}\"\n", h.cpu.logical_threads));
    out.push_str(&format!("Placa-Mae,Fabricante,\"{}\"\n", h.motherboard.manufacturer));
    out.push_str(&format!("Placa-Mae,Modelo,\"{}\"\n", h.motherboard.model));
    out.push_str(&format!("Placa-Mae,Chipset,\"{}\"\n", h.motherboard.chipset));
    out.push_str(&format!("Placa-Mae,BIOS Versao,\"{}\"\n", h.motherboard.bios_version));
    out.push_str(&format!("Memoria,Total MB,\"{}\"\n", h.memory.total_mb));
    out.push_str(&format!("Memoria,Tipo,\"{}\"\n", h.memory.memory_type));
    out.push_str(&format!("Memoria,Canais,\"{}\"\n", h.memory.channel_mode));
    out.push_str(&format!("Memoria,Frequencia DRAM,\"{:.1} MHz\"\n", h.memory.dram_speed_mts as f32 / 2.0));
    for (idx, gpu) in h.gpus.iter().enumerate() {
        out.push_str(&format!("GPU,GPU #{idx} Nome,\"{}\"\n", gpu.name));
        out.push_str(&format!("GPU,GPU #{idx} VRAM,\"{}\"\n", gpu.vram_mb));
        out.push_str(&format!("GPU,GPU #{idx} Driver,\"{}\"\n", gpu.driver_version));
    }
    for (idx, drive) in h.storage.drives.iter().enumerate() {
        out.push_str(&format!("Armazenamento,Drive #{idx} Modelo,\"{}\"\n", drive.model));
        out.push_str(&format!("Armazenamento,Drive #{idx} Capacidade,\"{:.1} GB\"\n", drive.capacity_bytes as f64 / 1_073_741_824.0));
        out.push_str(&format!("Armazenamento,Drive #{idx} Interface,\"{}\"\n", drive.interface));
    }
    out
}

#[test]
fn csv_report_lines() {
    let gpu = GpuInfo::primary_display_adapter();
    let h = machine(vec![gpu]);
    let csv = generate_csv_report(&h);
    assert_eq!(csv, expected_csv(&h));
    assert!(csv.contains("Sistema,Versao do SO,\"10 / 11\"\n"));
    assert!(csv.contains("Armazenamento,Drive #0 Capacidade,\"1863.0 GB\"\n"));
    assert!(csv.contains("Armazenamento,Drive #1 Capacidade,\"0.3 GB\"\n"));
    assert!(csv.contains("Memoria,Frequencia DRAM,\"2400.0 MHz\"\n"));
}

#[test]
fn text_report_layout() {
    let h = machine(vec![GpuInfo::primary_display_adapter(), GpuInfo::primary_display_adapter()]);
    let date = "Tue, 1 Jul 2003 10:52:37 +0200";
    let text = text_report_dated(&h, date);
    assert_eq!(text, expected_text(&h, date));
    assert!(text.contains("  Familia/Mod/Stp:  6 / B7 / 1\n"));
    assert!(text.contains("  GPU #1:          Primary Display Adapter\n"));
    let other = text_report_dated(&h, "Wed, 2 Jul 2003 08:00:00 +0000");
    assert!(other.contains(" Gerado em: Wed, 2 Jul 2003 08:00:00 +0000\n"));
    let now = other;
    assert!(now.starts_with("--------------------------------------------------\n RS-CPU RELATORIO"));
    assert!(now.ends_with("  Driver:           560.94 WHQL\n"));
}

#[test]
fn html_report_values() {
    let h = machine(Vec::new());
    let html = html_report_dated(&h, "DATE");
    assert!(html.starts_with("<!DOCTYPE html>\n<html lang=\"pt-BR\">"));
    assert!(html.contains("<title>RS-CPU Relatório de Diagnóstico - 13th Gen Intel(R) Core(TM) i9-13900K</title>"));
    assert!(html.contains("Gerado em: DATE • Sistema: Windows (10 / 11)</div>"));
    assert!(html.contains(&format!("{} MB ({:.1} GB)", h.memory.total_mb, h.memory.total_mb as f64 / 1024.0)));
    assert!(html.contains("<td class=\"value\">N/D</td></tr>\n<tr><td class=\"label\">VRAM:</td><td class=\"value\">0 MB (N/D)"));
    assert!(html.contains(".container { max-width: 900px; margin: 0 auto; }"));
    assert!(html.ends_with("</td></tr>\n</table>\n</div>\n</div>\n</body>\n</html>"));
    let with_gpu = machine(vec![GpuInfo::primary_display_adapter()]);
    let html = html_report_dated(&with_gpu, "Tue, 1 Jul 2003 10:52:37 +0200");
    assert!(html.contains("16384 MB (GDDR6X (Micron))"));
}

#[test]
fn live_refresh_of_whole_machine() {
    let mut h = machine(vec![GpuInfo::primary_display_adapter()]);
    let readings = CpuReadings {
        core_frequencies_mhz: vec![5000, 5000],
        core_loads_tenths: vec![10, 20],
        global_load_tenths: 15,
        sensors: vec![SensorReading { label: "Package id 0".to_string(), temp_tenths: Some(450) }],
    };
    h.refresh_live_metrics(&readings, 32 * 1_073_741_824, 8 * 1_073_741_824, 24 * 1_073_741_824, 0, 0, 3600);
    assert_eq!(h.cpu.live.cpu_temp_tenths, 450);
    assert_eq!(h.memory.live.usage_tenths, 250);
    assert_eq!(h.memory.live.used_mb, 8192);
    assert_eq!(h.gpus[0].live_temp_tenths, 430);
    assert_eq!(h.uptime_secs, 3600);
}

#[test]
fn tenths_of_capacity_match_float_formatting() {
    for cap in [0u64, 1, 53_687_091, 53_687_092, 107_374_182, 161_061_273, 1_073_741_824, 2_000_398_934_016, 999_999_999_999] {
        let mut d = PhysicalDriveInfo::default();
        d.capacity_bytes = cap;
        let h = SystemHardware::assemble(
            machine(Vec::new()).cpu,
            MotherboardInfo::default(),
            MemoryInfo::summarize(0, &Vec::new()),
            StorageInfo::assemble(Vec::new(), vec![d]),
            Vec::new(),
            None,
            None,
            0,
        );
        let csv = generate_csv_report(&h);
        let want = format!("Armazenamento,Drive #0 Capacidade,\"{:.1} GB\"\n", cap as f64 / 1_073_741_824.0);
        assert!(csv.contains(&want), "{cap}");
    }
    let p = PartitionInfo::from_volume("C:".to_string(), "n".to_string(), "fs".to_string(), 1, 0, DiskKindField::Ssd);
    assert_eq!(p.used_pct_tenths, 1000);
}
