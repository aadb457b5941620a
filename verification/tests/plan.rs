use overclock::optimizer::{apply_profile, Change};
use overclock::profiles::{casual_gaming, competitive_fps, productivity, streaming};
use overclock::types::{CpuInfo, DetectedGame, GameSource, GpuInfo, HardwareProfile, MemoryInfo, NetworkInfo, OsInfo, StorageInfo, StorageType};

fn game(exe: &str) -> DetectedGame {
    DetectedGame { name: exe.to_string(), exe_name: exe.to_string(), install_path: String::new(), source: GameSource::Steam }
}

fn hardware(supports_interrupt_mod: bool, games: Vec<DetectedGame>) -> HardwareProfile {
    HardwareProfile {
        cpu: CpuInfo { name: "CPU".into(), manufacturer: "AMD".into(), cores: 8, threads: 16, max_clock_mhz: 4000 },
        gpu: GpuInfo { name: "GPU".into(), manufacturer: "NVIDIA".into(), vram_mb: 8192 },
        memory: MemoryInfo { total_mb: 32768, speed_mhz: 3200, memory_type: "DDR4".into() },
        storage: StorageInfo { media_type: StorageType::NVMe, total_gb: 931, model: "disk".into() },
        network: NetworkInfo {
            adapter_name: "Ethernet".into(),
            description: "NIC".into(),
            link_speed: "1 Gbps".into(),
            connection_type: "Ethernet 802.3".into(),
            supports_interrupt_mod,
            supports_eee: false,
        },
        os: OsInfo { caption: "Windows 11 Pro".into(), version: "10.0".into(), build_number: "22631".into(), edition: "Pro".into(), is_desktop: true },
        games,
    }
}

fn describe(c: &Change) -> String {
    match c {
        Change::UltimatePerformance => "power".into(),
        Change::UsbSuspendDisable => "usb".into(),
        Change::NagleDisable => "nagle".into(),
        Change::InterruptModDisable(a) => format!("intmod:{}", a),
        Change::WakeOnLanDisable(a) => format!("wol:{}", a),
        Change::MouseAccelDisable => "mouse".into(),
        Change::DisableService(s) => format!("svc:{}", s),
        Change::ProcessPriority(e) => format!("prio:{}", e),
        Change::BackgroundAppsDisable => "bg".into(),
    }
}

fn plan(p: &overclock::types::Profile, hw: &HardwareProfile, excluded: &[String]) -> Vec<String> {
    apply_profile(p, hw, excluded).iter().map(describe).collect()
}

#[test]
fn competitive_fps_makes_every_change_in_order() {
    let hw = hardware(true, vec![game("cs2.exe"), game("r5apex.exe")]);
    assert_eq!(
        plan(&competitive_fps(), &hw, &[]),
        vec![
            "power", "usb", "nagle", "intmod:Ethernet", "wol:Ethernet", "mouse", "svc:SysMain", "svc:DiagTrack",
            "svc:XblAuthManager", "svc:WSearch", "prio:cs2.exe", "prio:r5apex.exe", "bg",
        ]
    );
}

#[test]
fn excluded_keys_are_left_out() {
    let hw = hardware(true, vec![game("cs2.exe")]);
    let excluded = vec!["nagle_disable".to_string(), "service_WSearch".to_string(), "process_priority_high".to_string()];
    assert_eq!(
        plan(&competitive_fps(), &hw, &excluded),
        vec!["power", "usb", "intmod:Ethernet", "wol:Ethernet", "mouse", "svc:SysMain", "svc:DiagTrack", "svc:XblAuthManager", "bg"]
    );
}

#[test]
fn exclusion_only_removes_changes() {
    let hw = hardware(true, vec![game("a.exe"), game("b.exe")]);
    let full = plan(&competitive_fps(), &hw, &[]);
    let excluded = vec!["power_ultimate".to_string(), "service_DiagTrack".to_string(), "unrelated".to_string()];
    let kept: Vec<String> = full.into_iter().filter(|c| c != "power" && c != "svc:DiagTrack").collect();
    assert_eq!(plan(&competitive_fps(), &hw, &excluded), kept);
}

#[test]
fn interrupt_moderation_needs_adapter_support() {
    let hw = hardware(false, vec![]);
    let changes = plan(&competitive_fps(), &hw, &[]);
    assert!(!changes.iter().any(|c| c.starts_with("intmod")));
    assert!(changes.iter().any(|c| c == "wol:Ethernet"));
}

#[test]
fn other_profiles_plans() {
    let hw = hardware(true, vec![game("dota2.exe")]);
    assert_eq!(plan(&casual_gaming(), &hw, &[]), vec!["usb", "nagle", "wol:Ethernet", "mouse", "svc:DiagTrack", "svc:XblAuthManager", "bg"]);
    assert_eq!(plan(&streaming(), &hw, &[]), vec!["usb", "nagle", "wol:Ethernet", "mouse", "svc:DiagTrack", "svc:XblAuthManager", "prio:dota2.exe"]);
    assert_eq!(plan(&productivity(), &hw, &[]), vec!["svc:DiagTrack"]);
}
