use overclock::commands::{check_snapshot, find_profile, get_profiles, snapshot_can_be_deleted, snapshot_for, snapshot_to_revert, split_results, to_ipc, to_ipc_results};
use overclock::json::JsonValue;
use overclock::optimizer::{ApplyResult, ChangeStatus};
use overclock::profiles::all_profiles;
use overclock::types::{CpuInfo, GpuInfo, HardwareProfile, MemoryInfo, NetworkInfo, OsInfo, Snapshot, SnapshotEntry, StorageInfo, StorageType};

fn entry(key: &str) -> SnapshotEntry {
    SnapshotEntry { category: "service".into(), key: key.into(), original_value: JsonValue::Str("Manual".into()), new_value: JsonValue::Str("Disabled".into()), applied: true }
}

fn result(title: &str, status: ChangeStatus, e: Option<SnapshotEntry>) -> ApplyResult {
    ApplyResult { title: title.into(), status, snapshot_entry: e }
}

#[test]
fn snapshot_summary() {
    let snap = Snapshot { version: 1, timestamp: "2026-04-15T10:00:00".into(), hardware_fingerprint: String::new(), profile_applied: "streaming".into(), changes: vec![entry("A"), entry("B")] };
    let info = check_snapshot(Some(snap)).unwrap();
    assert!(info.exists);
    assert_eq!(info.timestamp, "2026-04-15T10:00:00");
    assert_eq!(info.profile, "streaming");
    assert_eq!(info.change_count, 2);
    assert!(check_snapshot(None).is_none());
}

#[test]
fn profiles_found_by_id() {
    let ps = all_profiles();
    assert_eq!(find_profile(&ps, "video_editing").unwrap().name, "Video Editing");
    assert_eq!(find_profile(&ps, "turbo").unwrap_err(), "Profile 'turbo' not found");
}

#[test]
fn results_as_shown() {
    let i = to_ipc(result("T", ChangeStatus::Applied, None));
    assert_eq!((i.title.as_str(), i.status.as_str(), i.message), ("T", "applied", None));
    let i = to_ipc(result("U", ChangeStatus::Skipped("why".into()), None));
    assert_eq!((i.status.as_str(), i.message.as_deref()), ("skipped", Some("why")));
    let i = to_ipc(result("V", ChangeStatus::Failed("err".into()), None));
    assert_eq!((i.status.as_str(), i.message.as_deref()), ("failed", Some("err")));
}

#[test]
fn results_split_into_entries_and_messages() {
    let rs = vec![
        result("a", ChangeStatus::Applied, Some(entry("A"))),
        result("b", ChangeStatus::Skipped("s".into()), None),
        result("c", ChangeStatus::Failed("f".into()), Some(entry("C"))),
    ];
    let (entries, shown) = split_results(rs);
    assert_eq!(entries.iter().map(|e| e.key.as_str()).collect::<Vec<_>>(), vec!["A", "C"]);
    assert_eq!(shown.iter().map(|i| i.title.as_str()).collect::<Vec<_>>(), vec!["a", "b", "c"]);
    assert_eq!(shown.iter().map(|i| i.status.as_str()).collect::<Vec<_>>(), vec!["applied", "skipped", "failed"]);
    let shown = to_ipc_results(vec![result("x", ChangeStatus::Applied, Some(entry("X")))]);
    assert_eq!(shown.len(), 1);
}

#[test]
fn snapshot_only_when_something_was_recorded() {
    let hw = machine();
    assert!(snapshot_for("streaming", vec![], &hw, "2026-04-15T10:00:00".into()).is_none());
    let s = snapshot_for("streaming", vec![entry("A")], &hw, "2026-04-15T10:00:00".into()).unwrap();
    assert_eq!(s.version, 1);
    assert_eq!(s.timestamp, "2026-04-15T10:00:00");
    assert_eq!(s.hardware_fingerprint, "cpu=CPU;gpu=GPU;ram=32768;disk=disk;os=22631");
    assert_eq!(s.profile_applied, "streaming");
    assert_eq!(s.changes.len(), 1);
    assert_eq!(snapshot_to_revert(None).unwrap_err(), "No snapshot found to revert");
    assert_eq!(snapshot_to_revert(Some(s)).unwrap().profile_applied, "streaming");
}

#[test]
fn profiles_offered_to_the_interface() {
    let ids: Vec<String> = get_profiles().into_iter().map(|p| p.id).collect();
    assert_eq!(ids, vec!["competitive_fps", "casual_gaming", "video_editing", "streaming", "productivity"]);
}

fn machine() -> HardwareProfile {
    HardwareProfile {
        cpu: CpuInfo { name: "CPU".into(), manufacturer: "AMD".into(), cores: 8, threads: 16, max_clock_mhz: 4000 },
        gpu: GpuInfo { name: "GPU".into(), manufacturer: "NVIDIA".into(), vram_mb: 8192 },
        memory: MemoryInfo { total_mb: 32768, speed_mhz: 3200, memory_type: "DDR4".into() },
        storage: StorageInfo { media_type: StorageType::NVMe, total_gb: 931, model: "disk".into() },
        network: NetworkInfo {
            adapter_name: "Ethernet".into(),
            description: "NIC".into(),
            link_speed: "1 Gbps".into(),
            connection_type: "Ethernet 802.3".into(),
            supports_interrupt_mod: true,
            supports_eee: false,
        },
        os: OsInfo { caption: "Windows 11 Pro".into(), version: "10.0".into(), build_number: "22631".into(), edition: "Pro".into(), is_desktop: true },
        games: vec![],
    }
}

#[test]
fn snapshot_kept_after_a_failed_revert() {
    assert!(snapshot_can_be_deleted(&vec![]));
    assert!(snapshot_can_be_deleted(&vec![
        result("a", ChangeStatus::Applied, None),
        result("b", ChangeStatus::Skipped("Unknown category".into()), None),
    ]));
    assert!(!snapshot_can_be_deleted(&vec![
        result("a", ChangeStatus::Applied, None),
        result("b", ChangeStatus::Failed("Registry revert failed".into()), None),
    ]));
}
