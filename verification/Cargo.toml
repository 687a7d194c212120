[package]
name = "rs_cpu"
version = "0.1.0"
edition = "2021"
publish = false

[dependencies]
raw-cpuid = "11"
sysinfo = "*"
smbios-lib = "*"
rayon = "1"
serde = { version = "1", features = ["derive"] }
serde_json = "1"
thiserror = "*"
chrono = "0.4"
tracing = "0.1"
tracing-subscriber = { version = "0.3", features = ["env-filter"] }
