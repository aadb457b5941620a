use overclock::snapshot::{capture_snapshot, hardware_fingerprint, SNAPSHOT_VERSION};
use overclock::types::{CpuInfo, GpuInfo, HardwareProfile, MemoryInfo, NetworkInfo, OsInfo, StorageInfo, StorageType};

fn machine(cpu: &str, ram_mb: u64) -> HardwareProfile {
    HardwareProfile {
        cpu: CpuInfo { name: cpu.into(), manufacturer: "AMD".into(), cores: 8, threads: 16, max_clock_mhz: 4000 },
        gpu: GpuInfo { name: "RTX 4070".into(), manufacturer: "NVIDIA".into(), vram_mb: 12288 },
        memory: MemoryInfo { total_mb: ram_mb, speed_mhz: 3200, memory_type: "DDR4".into() },
        storage: StorageInfo { media_type: StorageType::NVMe, total_gb: 931, model: "Samsung 980".into() },
        network: NetworkInfo {
            adapter_name: "Ethernet".into(),
            description: "NIC".into(),
            link_speed: "1 Gbps".into(),
            connection_type: "Ethernet 802.3".into(),
            supports_interrupt_mod: true,
            supports_eee: false,
        },
        os: OsInfo { caption: "Windows 11 Pro".into(), version: "10.0".into(), build_number: "22631".into(), edition: "Pro".into(), is_desktop: true },
        games: vec![],
    }
}

#[test]
fn captured_with_version_one_and_a_fingerprint() {
    let hw = machine("Ryzen 7 5800X", 32768);
    let s = capture_snapshot("competitive_fps", vec![], &hw, "2026-01-02T03:04:05".to_string());
    assert_eq!(s.version, SNAPSHOT_VERSION);
    assert_eq!(SNAPSHOT_VERSION, 1);
    assert_eq!(s.profile_applied, "competitive_fps");
    assert_eq!(s.timestamp, "2026-01-02T03:04:05");
    assert!(s.changes.is_empty());
    assert_eq!(s.hardware_fingerprint, "cpu=Ryzen 7 5800X;gpu=RTX 4070;ram=32768;disk=Samsung 980;os=22631");
}

#[test]
fn fingerprints_tell_machines_apart() {
    assert_ne!(hardware_fingerprint(&machine("A", 16384)), hardware_fingerprint(&machine("A", 32768)));
    assert_ne!(hardware_fingerprint(&machine("A", 16384)), hardware_fingerprint(&machine("B", 16384)));
    assert!(!hardware_fingerprint(&machine("", 0)).is_empty());
    assert_eq!(hardware_fingerprint(&machine("", 0)), "cpu=;gpu=RTX 4070;ram=0;disk=Samsung 980;os=22631");
}
