use overclock::json::{JsonNumber, JsonValue};
use overclock::optimizer::{apply_step, ApplyResult, Change, ChangeStatus, PsResult, PsStep};
use overclock::revert::{revert_snapshot, revert_step};
use overclock::types::{Snapshot, SnapshotEntry};

fn ok(out: &str) -> PsResult {
    PsResult { stdout: out.to_string(), stderr: String::new(), success: true }
}

fn failed(err: &str) -> PsResult {
    PsResult { stdout: String::new(), stderr: err.to_string(), success: false }
}

fn apply(change: &Change, outcomes: Vec<PsResult>) -> ApplyResult {
    let mut history: Vec<PsResult> = Vec::new();
    let mut it = outcomes.into_iter();
    loop {
        match apply_step(change, &history) {
            PsStep::Run(_) => history.push(it.next().unwrap()),
            PsStep::Done(r) => return r,
        }
    }
}

fn revert(entry: &SnapshotEntry, outcomes: Vec<PsResult>) -> (Vec<String>, ApplyResult) {
    let mut history: Vec<PsResult> = Vec::new();
    let mut commands = Vec::new();
    let mut it = outcomes.into_iter();
    loop {
        match revert_step(entry, &history) {
            PsStep::Run(c) => {
                commands.push(c);
                history.push(it.next().expect("an outcome for every command"));
            }
            PsStep::Done(r) => {
                assert!(it.next().is_none(), "every outcome used");
                return (commands, r);
            }
        }
    }
}

fn entry(category: &str, key: &str, original: JsonValue) -> SnapshotEntry {
    SnapshotEntry { category: category.into(), key: key.into(), original_value: original, new_value: JsonValue::Null, applied: true }
}

fn write_dword(hive: &str, path: &str, name: &str, value: u32) -> String {
    format!(
        "New-Item -Path '{}:\\{}' -Force -ErrorAction SilentlyContinue | Out-Null; \
         New-ItemProperty -Path '{}:\\{}' -Name '{}' -Value {} -PropertyType DWord -Force -ErrorAction SilentlyContinue | Out-Null",
        hive, path, hive, path, name, value
    )
}

fn write_string(hive: &str, path: &str, name: &str, value: &str) -> String {
    format!(
        "New-Item -Path '{}:\\{}' -Force -ErrorAction SilentlyContinue | Out-Null; \
         Set-ItemProperty -Path '{}:\\{}' -Name '{}' -Value '{}' -Force -ErrorAction SilentlyContinue",
        hive, path, hive, path, name, value
    )
}

const USB: &str = r"SYSTEM\CurrentControlSet\Services\USB";
const IFACES: &str = r"SYSTEM\CurrentControlSet\Services\Tcpip\Parameters\Interfaces";

#[test]
fn usb_rollback_writes_back_the_original() {
    let e = apply(&Change::UsbSuspendDisable, vec![ok("0"), ok("")]).snapshot_entry.unwrap();
    let (cmds, r) = revert(&e, vec![ok("")]);
    assert_eq!(cmds, vec![write_dword("HKLM", USB, "DisableSelectiveSuspend", 0)]);
    assert_eq!(r.title, r"Revert: HKLM\SYSTEM\CurrentControlSet\Services\USB\DisableSelectiveSuspend");
    assert!(matches!(r.status, ChangeStatus::Applied));
    assert!(r.snapshot_entry.is_none());
}

#[test]
fn usb_rollback_removes_a_value_that_did_not_exist() {
    let e = apply(&Change::UsbSuspendDisable, vec![ok(""), ok("")]).snapshot_entry.unwrap();
    let (cmds, r) = revert(&e, vec![failed("")]);
    assert_eq!(
        cmds,
        vec![format!("Remove-ItemProperty -Path 'HKLM:\\{}' -Name 'DisableSelectiveSuspend' -ErrorAction SilentlyContinue", USB)]
    );
    assert!(matches!(r.status, ChangeStatus::Failed(ref m) if m == "Registry revert failed"));
}

#[test]
fn generic_registry_revert_with_a_string_and_other_values() {
    let (cmds, _) = revert(&entry("registry", r"HKCU\Control Panel\Desktop\Wallpaper", JsonValue::Str("x.bmp".into())), vec![ok("")]);
    assert_eq!(cmds, vec![write_string("HKCU", r"Control Panel\Desktop", "Wallpaper", "x.bmp")]);
    let (cmds, r) = revert(&entry("registry", r"HKLM\A\B", JsonValue::Bool(true)), vec![]);
    assert!(cmds.is_empty());
    assert!(matches!(r.status, ChangeStatus::Failed(ref m) if m == "Registry revert failed"));
    let (_, r) = revert(&entry("registry", r"HKLM\B", JsonValue::Null), vec![]);
    assert!(matches!(r.status, ChangeStatus::Skipped(ref m) if m == "No revert action matched"));
    assert_eq!(r.title, r"Revert: HKLM\B");
    let big = JsonValue::Number(JsonNumber::Unsigned(4294967297));
    let (cmds, _) = revert(&entry("registry", r"HKLM\P\N", big), vec![ok("")]);
    assert_eq!(cmds, vec![write_dword("HKLM", "P", "N", 1)]);
}

#[test]
fn power_rollback() {
    let e = apply(&Change::UltimatePerformance, vec![ok("e9a42b02-d5df-448d-aa00-03f14749eb61"), ok("old-guid\n"), ok("")])
        .snapshot_entry
        .unwrap();
    let (cmds, r) = revert(&e, vec![ok("")]);
    assert_eq!(cmds, vec!["powercfg /setactive old-guid".to_string()]);
    assert_eq!(r.title, "Restore original power plan");
    let (cmds, r) = revert(&entry("power_plan", "active_scheme", JsonValue::Null), vec![]);
    assert!(cmds.is_empty());
    assert_eq!(r.title, "Restore power plan");
    assert!(matches!(r.status, ChangeStatus::Skipped(ref m) if m == "No original GUID saved"));
}

#[test]
fn service_rollback_restores_and_starts() {
    let c = Change::DisableService("SysMain".into());
    let e = apply(&c, vec![ok("Automatic"), ok("")]).snapshot_entry.unwrap();
    let (cmds, r) = revert(&e, vec![ok(""), failed("ignored")]);
    assert_eq!(
        cmds,
        vec![
            "Set-Service 'SysMain' -StartupType 'Automatic' -ErrorAction SilentlyContinue".to_string(),
            "Start-Service 'SysMain' -ErrorAction SilentlyContinue".to_string(),
        ]
    );
    assert_eq!(r.title, "Restore SysMain (Automatic)");
    assert!(matches!(r.status, ChangeStatus::Applied));
    let (cmds, r) = revert(&entry("service", "X", JsonValue::Str("Disabled".into())), vec![failed("nope")]);
    assert_eq!(cmds.len(), 1);
    assert!(matches!(r.status, ChangeStatus::Failed(ref m) if m == "nope"));
    let (cmds, _) = revert(&entry("service", "Y", JsonValue::Null), vec![ok(""), ok("")]);
    assert_eq!(cmds[0], "Set-Service 'Y' -StartupType 'Manual' -ErrorAction SilentlyContinue");
}

#[test]
fn nic_rollback() {
    let e = apply(&Change::InterruptModDisable("Ethernet".into()), vec![ok(""), ok("")]).snapshot_entry.unwrap();
    let (cmds, r) = revert(&e, vec![ok("")]);
    assert_eq!(
        cmds,
        vec!["Set-NetAdapterAdvancedProperty -Name 'Ethernet' -DisplayName 'Interrupt Moderation' -DisplayValue 'Enabled' -ErrorAction SilentlyContinue".to_string()]
    );
    assert_eq!(r.title, "Restore Interrupt Moderation on Ethernet");
    let e = apply(&Change::WakeOnLanDisable("Wi-Fi".into()), vec![ok("On"), ok("Off"), ok("")]).snapshot_entry.unwrap();
    let (cmds, r) = revert(&e, vec![ok(""), ok("")]);
    assert_eq!(
        cmds,
        vec![
            "Set-NetAdapterAdvancedProperty -Name 'Wi-Fi' -DisplayName 'Wake on Magic Packet' -DisplayValue 'On' -ErrorAction SilentlyContinue".to_string(),
            "Set-NetAdapterAdvancedProperty -Name 'Wi-Fi' -DisplayName 'Wake on Pattern Match' -DisplayValue 'Off' -ErrorAction SilentlyContinue".to_string(),
        ]
    );
    assert_eq!(r.title, "Restore Wake on Magic Packet on Wi-Fi");
    assert!(matches!(r.status, ChangeStatus::Applied));
    let (_, r) = revert(&e, vec![ok(""), failed("pattern")]);
    assert!(matches!(r.status, ChangeStatus::Failed(ref m) if m == "pattern"));
    let (cmds, _) = revert(&entry("nic", "Wi-Fi\\WakeOnLAN", JsonValue::Str("On".into())), vec![ok(""), ok("")]);
    assert!(cmds[0].contains("'Wake on Magic Packet' -DisplayValue 'On'"));
    assert!(cmds[1].contains("'Wake on Pattern Match' -DisplayValue 'Enabled'"));
    let (cmds, r) = revert(&entry("nic", "NoSeparator", JsonValue::Null), vec![]);
    assert!(cmds.is_empty());
    assert_eq!(r.title, "Revert NIC: NoSeparator");
    assert!(matches!(r.status, ChangeStatus::Skipped(ref m) if m == "Invalid key format"));
    let (cmds, _) = revert(&entry("nic", "Eth\\Jumbo Packet", JsonValue::Str("9014".into())), vec![ok("")]);
    assert_eq!(cmds[0], "Set-NetAdapterAdvancedProperty -Name 'Eth' -DisplayName 'Jumbo Packet' -DisplayValue '9014' -ErrorAction SilentlyContinue");
}

#[test]
fn priority_rollback_removes_the_key() {
    let e = apply(&Change::ProcessPriority("cs2.exe".into()), vec![ok("")]).snapshot_entry.unwrap();
    let (cmds, r) = revert(&e, vec![failed("ignored")]);
    assert_eq!(
        cmds,
        vec![r"Remove-Item -Path 'HKLM:\SOFTWARE\Microsoft\Windows NT\CurrentVersion\Image File Execution Options\cs2.exe' -Recurse -ErrorAction SilentlyContinue".to_string()]
    );
    assert_eq!(r.title, "Remove cs2.exe priority override");
    assert!(matches!(r.status, ChangeStatus::Failed(ref m) if m == "ignored"));
    let (_, r) = revert(&e, vec![ok("")]);
    assert!(matches!(r.status, ChangeStatus::Applied));
}

#[test]
fn mouse_rollback() {
    let e = apply(&Change::MouseAccelDisable, vec![ok("1"), ok("6"), ok(""), ok(""), ok(""), ok(""), ok("")])
        .snapshot_entry
        .unwrap();
    let mouse = r"Control Panel\Mouse";
    let expected = vec![
        write_string("HKCU", mouse, "MouseSpeed", "1"),
        write_string("HKCU", mouse, "MouseThreshold1", "6"),
        write_string("HKCU", mouse, "MouseThreshold2", "10"),
    ];
    let (cmds, r) = revert(&e, vec![ok(""), ok(""), ok("")]);
    assert_eq!(cmds, expected);
    assert_eq!(r.title, "Restore Mouse Acceleration");
    assert!(matches!(r.status, ChangeStatus::Applied));
    let (cmds, r) = revert(&e, vec![ok(""), failed(""), ok("")]);
    assert_eq!(cmds, expected);
    assert!(matches!(r.status, ChangeStatus::Failed(ref m) if m == "Registry write failed"));

    let e = apply(&Change::MouseAccelDisable, vec![ok("2"), ok("4"), ok("12"), ok(""), ok(""), ok(""), ok("")])
        .snapshot_entry
        .unwrap();
    let (cmds, _) = revert(&e, vec![ok(""), ok(""), ok("")]);
    assert_eq!(
        cmds,
        vec![
            write_string("HKCU", mouse, "MouseSpeed", "2"),
            write_string("HKCU", mouse, "MouseThreshold1", "4"),
            write_string("HKCU", mouse, "MouseThreshold2", "12"),
        ]
    );

    // An entry that records only the speed, and one that records nothing.
    let only_speed = JsonValue::Object(vec![("MouseSpeed".into(), JsonValue::Str("0".into()))]);
    let (cmds, _) = revert(&entry("registry", "mouse_acceleration", only_speed), vec![ok(""), ok(""), ok("")]);
    assert_eq!(
        cmds,
        vec![
            write_string("HKCU", mouse, "MouseSpeed", "0"),
            write_string("HKCU", mouse, "MouseThreshold1", "6"),
            write_string("HKCU", mouse, "MouseThreshold2", "10"),
        ]
    );
    let (cmds, r) = revert(&entry("registry", "mouse_acceleration", JsonValue::Object(vec![])), vec![ok(""), ok(""), failed("")]);
    assert_eq!(cmds, expected);
    assert!(matches!(r.status, ChangeStatus::Failed(ref m) if m == "Registry write failed"));

    let (cmds, r) = revert(&entry("registry", "mouse_acceleration", JsonValue::Null), vec![]);
    assert!(cmds.is_empty());
    assert!(matches!(r.status, ChangeStatus::Failed(ref m) if m == "Registry write failed"));
}

#[test]
fn nagle_rollback_restores_recorded_values() {
    let e = apply(
        &Change::NagleDisable,
        vec![ok("{A}\n{B}\n"), ok("2"), ok(""), ok(""), ok(""), ok(""), ok("1"), ok(""), ok("")],
    )
    .snapshot_entry
    .unwrap();
    let a = format!("{}\\{}", IFACES, "{A}");
    let b = format!("{}\\{}", IFACES, "{B}");
    let remove = |path: &str, name: &str| {
        format!("Remove-ItemProperty -Path 'HKLM:\\{}' -Name '{}' -ErrorAction SilentlyContinue", path, name)
    };
    let expected = vec![
        write_dword("HKLM", &a, "TcpAckFrequency", 2),
        remove(&a, "TCPNoDelay"),
        remove(&b, "TcpAckFrequency"),
        write_dword("HKLM", &b, "TCPNoDelay", 1),
    ];
    let (cmds, r) = revert(&e, vec![ok(""), ok(""), ok(""), ok("")]);
    assert_eq!(cmds, expected);
    assert_eq!(r.title, "Restore Nagle's Algorithm");
    assert!(matches!(r.status, ChangeStatus::Applied));
    let (_, r) = revert(&e, vec![ok(""), ok(""), failed(""), ok("")]);
    assert!(matches!(r.status, ChangeStatus::Failed(ref m) if m == "Failed to restore Nagle registry values"));
    let none = apply(&Change::NagleDisable, vec![ok("")]).snapshot_entry.unwrap();
    let (cmds, r) = revert(&none, vec![]);
    assert!(cmds.is_empty());
    assert!(matches!(r.status, ChangeStatus::Applied));
    let (cmds, r) = revert(&entry("registry", "nagle_algorithm", JsonValue::Null), vec![]);
    assert!(cmds.is_empty());
    assert!(matches!(r.status, ChangeStatus::Failed(_)));
}

#[test]
fn unknown_category_is_skipped() {
    let (cmds, r) = revert(&entry("firmware", "bios", JsonValue::Null), vec![]);
    assert!(cmds.is_empty());
    assert_eq!(r.title, "Revert: bios");
    assert!(matches!(r.status, ChangeStatus::Skipped(ref m) if m == "Unknown category"));
}

#[test]
fn only_applied_entries_are_reverted() {
    let mut a = entry("service", "A", JsonValue::Null);
    a.applied = false;
    let snap = Snapshot {
        version: 1,
        timestamp: "t".into(),
        hardware_fingerprint: String::new(),
        profile_applied: "p".into(),
        changes: vec![entry("service", "X", JsonValue::Null), a, entry("nic", "Y\\Z", JsonValue::Null)],
    };
    assert_eq!(revert_snapshot(&snap), vec![0, 2]);
}
