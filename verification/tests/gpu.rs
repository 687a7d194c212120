use rs_cpu::gpu::{adapters_or_default, gpus_from_video_controllers, GpuInfo, VideoControllerEntry};

#[test]
fn default_adapter() {
    let g = GpuInfo::primary_display_adapter();
    assert_eq!(g.name, "Primary Display Adapter");
    assert_eq!(g.technologies.len(), 9);
    assert_eq!(g.technologies[8], "Resizable BAR");
    assert_eq!(g.die_size, "379 mm²");
    assert_eq!((g.shaders, g.vram_mb, g.bandwidth_tenths), (10240, 16384, 7168));
    let v = adapters_or_default(Vec::new());
    assert_eq!(v.len(), 1);
    assert_eq!(v[0].vendor, "NVIDIA");
    let one = adapters_or_default(vec![GpuInfo::from_adapter("Radeon RX 7900 XTX".to_string(), 24576, "x".to_string(), "y".to_string())]);
    assert_eq!(one.len(), 1);
    assert_eq!(one[0].name, "Radeon RX 7900 XTX");
}

#[test]
fn live_temperature_and_fan() {
    let mut g = GpuInfo::primary_display_adapter();
    g.live_load_tenths = 85;
    g.update_live_metrics();
    // 40.0 + 8.5 * 0.35 = 42.975 °C, shown as 43.0
    assert_eq!(g.live_temp_tenths, 430);
    assert_eq!(g.live_fan_rpm, 0);
    // 40.0 + 40.1 * 0.35 = 54.035 °C: shown as 54.0; (54.035 - 50) * 45 + 800 = 981.575
    g.live_load_tenths = 401;
    g.update_live_metrics();
    assert_eq!(g.live_temp_tenths, 540);
    assert_eq!(g.live_fan_rpm, 981);
    // 40.0 + 34.3 * 0.35 = 52.005 °C: shown as 52.0, yet above 52.0, so the fan runs
    g.live_load_tenths = 343;
    g.update_live_metrics();
    assert_eq!(g.live_temp_tenths, 520);
    assert_eq!(g.live_fan_rpm, 890);
    g.live_load_tenths = 1000;
    g.update_live_metrics();
    // 40.0 + 100 * 0.35 = 75.0 °C; (75 - 50) * 45 + 800 = 1925 RPM
    assert_eq!(g.live_temp_tenths, 750);
    assert_eq!(g.live_fan_rpm, 1925);
    assert_eq!(g.name, "Primary Display Adapter");
    g.live_load_tenths = u32::MAX;
    g.update_live_metrics();
    assert_eq!(g.live_fan_rpm, u32::MAX);
}

#[test]
fn adapters_from_video_controllers() {
    let entries = vec![
        VideoControllerEntry {
            name: Some("  NVIDIA GeForce RTX 4080  ".to_string()),
            adapter_ram: Some(4_293_918_720),
            driver_version: Some(" 31.0.15.6094 ".to_string()),
        },
        VideoControllerEntry { name: None, adapter_ram: None, driver_version: None },
    ];
    let g = gpus_from_video_controllers(&entries);
    assert_eq!(g.len(), 2);
    assert_eq!(g[0].name, "NVIDIA GeForce RTX 4080");
    assert_eq!(g[0].vram_mb, 4095);
    assert_eq!(g[0].driver_version, "31.0.15.6094");
    assert_eq!(g[0].driver_date, "Recente (WHQL)");
    assert_eq!(g[0].live_temp_tenths, 410);
    assert_eq!(g[1].name, "Display Adapter");
    assert_eq!(g[1].vram_mb, 8192);
    assert_eq!(g[1].driver_version, "WHQL");
}

use rs_cpu::gpu::{display_class_subkey, is_physical_adapter, registry_number, registry_text, vram_mb_from_bytes};

#[test]
fn registry_values() {
    let mut buf: Vec<u16> = "  NVIDIA GeForce RTX 4090 ".encode_utf16().collect();
    buf.push(0);
    let len = (buf.len() * 2) as u32;
    assert_eq!(registry_text(true, &buf, len).as_deref(), Some("NVIDIA GeForce RTX 4090"));
    assert_eq!(registry_text(false, &buf, len), None);
    let blank: Vec<u16> = vec![32, 32, 0];
    assert_eq!(registry_text(true, &blank, 6), None);
    assert_eq!(registry_number(true, 8, true, 4), Some(8));
    assert_eq!(registry_number(true, 0, true, 4), Some(4));
    assert_eq!(registry_number(false, 9, false, 4), None);
    assert_eq!(vram_mb_from_bytes(0), 8192);
    assert_eq!(vram_mb_from_bytes(25_769_803_776), 24576);
    assert!(is_physical_adapter("AMD Radeon RX 7900 XTX"));
    assert!(!is_physical_adapter("Microsoft Basic Display Adapter"));
    assert!(!is_physical_adapter("Virtual Display"));
    assert_eq!(
        display_class_subkey(7),
        "SYSTEM\\CurrentControlSet\\Control\\Class\\{4d36e968-e325-11ce-bfc1-08002be10318}\\0007"
    );
}

#[test]
fn adapters_from_registry() {
    let g = GpuInfo::from_registry_entry("NVIDIA GeForce RTX 4080".to_string(), None, Some(17_179_869_184), None, Some("1-1-2024".to_string())).unwrap();
    assert_eq!(g.vram_mb, 16384);
    assert_eq!(g.driver_version, "WHQL");
    assert_eq!(g.driver_date, "1-1-2024");
    assert!(GpuInfo::from_registry_entry("Microsoft Remote Display Adapter RdpIdd".to_string(), None, None, None, None).is_none());
}
