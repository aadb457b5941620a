use overclock::json::{JsonNumber, JsonValue};
use overclock::optimizer::{apply_step, ApplyResult, Change, ChangeStatus, PsResult, PsStep};

fn ok(out: &str) -> PsResult {
    PsResult { stdout: out.to_string(), stderr: String::new(), success: true }
}

fn failed(err: &str) -> PsResult {
    PsResult { stdout: String::new(), stderr: err.to_string(), success: false }
}

fn drive(change: &Change, outcomes: Vec<PsResult>) -> (Vec<String>, ApplyResult) {
    let mut history: Vec<PsResult> = Vec::new();
    let mut commands = Vec::new();
    let mut it = outcomes.into_iter();
    loop {
        match apply_step(change, &history) {
            PsStep::Run(c) => {
                commands.push(c);
                history.push(it.next().expect("an outcome for every command"));
            }
            PsStep::Done(r) => {
                assert!(it.next().is_none(), "every outcome used");
                return (commands, r);
            }
        }
    }
}

// The expected command texts, written out with format!.
fn read_cmd(hive: &str, path: &str, name: &str) -> String {
    format!("(Get-ItemProperty -Path '{}:\\{}' -Name '{}' -ErrorAction SilentlyContinue).'{}'", hive, path, name, name)
}

fn write_dword(hive: &str, path: &str, name: &str, value: u32) -> String {
    format!(
        "New-Item -Path '{}:\\{}' -Force -ErrorAction SilentlyContinue | Out-Null; \
         New-ItemProperty -Path '{}:\\{}' -Name '{}' -Value {} -PropertyType DWord -Force -ErrorAction SilentlyContinue | Out-Null",
        hive, path, hive, path, name, value
    )
}

fn write_string(hive: &str, path: &str, name: &str, value: &str) -> String {
    format!(
        "New-Item -Path '{}:\\{}' -Force -ErrorAction SilentlyContinue | Out-Null; \
         Set-ItemProperty -Path '{}:\\{}' -Name '{}' -Value '{}' -Force -ErrorAction SilentlyContinue",
        hive, path, hive, path, name, value
    )
}

fn unsigned(v: &JsonValue) -> Option<u64> {
    match v {
        JsonValue::Number(JsonNumber::Unsigned(n)) => Some(*n),
        _ => None,
    }
}

fn text(v: &JsonValue) -> Option<&str> {
    match v {
        JsonValue::Str(s) => Some(s.as_str()),
        _ => None,
    }
}

const USB: &str = r"SYSTEM\CurrentControlSet\Services\USB";
const IFACES: &str = r"SYSTEM\CurrentControlSet\Services\Tcpip\Parameters\Interfaces";
const GUID: &str = "e9a42b02-d5df-448d-aa00-03f14749eb61";

#[test]
fn usb_suspend_reads_then_writes() {
    let (cmds, r) = drive(&Change::UsbSuspendDisable, vec![ok("0\r\n"), ok("")]);
    assert_eq!(cmds, vec![read_cmd("HKLM", USB, "DisableSelectiveSuspend"), write_dword("HKLM", USB, "DisableSelectiveSuspend", 1)]);
    assert_eq!(r.title, "Disable USB Selective Suspend");
    assert!(matches!(r.status, ChangeStatus::Applied));
    let e = r.snapshot_entry.unwrap();
    assert_eq!(e.category, "registry");
    assert_eq!(e.key, r"HKLM\SYSTEM\CurrentControlSet\Services\USB\DisableSelectiveSuspend");
    assert_eq!(unsigned(&e.original_value), Some(0));
    assert_eq!(unsigned(&e.new_value), Some(1));
    assert!(e.applied);
}

#[test]
fn usb_suspend_failed_write_with_missing_value() {
    let (_, r) = drive(&Change::UsbSuspendDisable, vec![ok("   \n"), failed("denied")]);
    assert!(matches!(r.status, ChangeStatus::Failed(ref m) if m == "Registry write failed"));
    let e = r.snapshot_entry.unwrap();
    assert!(matches!(e.original_value, JsonValue::Null));
    assert!(!e.applied);
}

#[test]
fn background_apps_writes_two() {
    let path = r"SOFTWARE\Policies\Microsoft\Windows\AppPrivacy";
    let (cmds, r) = drive(&Change::BackgroundAppsDisable, vec![ok("1"), ok("")]);
    assert_eq!(cmds, vec![read_cmd("HKLM", path, "LetAppsRunInBackground"), write_dword("HKLM", path, "LetAppsRunInBackground", 2)]);
    assert_eq!(r.title, "Disable background apps");
    let e = r.snapshot_entry.unwrap();
    assert_eq!(e.key, r"HKLM\SOFTWARE\Policies\Microsoft\Windows\AppPrivacy\LetAppsRunInBackground");
    assert_eq!(unsigned(&e.original_value), Some(1));
    assert_eq!(unsigned(&e.new_value), Some(2));
}

#[test]
fn unparsable_dword_is_recorded_as_missing() {
    let (_, r) = drive(&Change::UsbSuspendDisable, vec![ok("4294967296"), ok("")]);
    assert!(matches!(r.snapshot_entry.unwrap().original_value, JsonValue::Null));
    let (_, r) = drive(&Change::UsbSuspendDisable, vec![ok("+7"), ok("")]);
    assert_eq!(unsigned(&r.snapshot_entry.unwrap().original_value), Some(7));
}

#[test]
fn ultimate_performance_when_listed() {
    let list = format!("Power Scheme GUID: {}  (Ultimate Performance)", GUID);
    let (cmds, r) = drive(&Change::UltimatePerformance, vec![ok(&list), ok("381b4222-f694-41f0-9685-ff5bb260df2e\r\n"), ok("")]);
    assert_eq!(
        cmds,
        vec![
            "powercfg /list".to_string(),
            "(powercfg /getactivescheme) -replace '.*: ','' -replace ' \\(.*',''".to_string(),
            format!("powercfg /setactive {}", GUID),
        ]
    );
    assert_eq!(r.title, "Activate Ultimate Performance plan");
    assert!(matches!(r.status, ChangeStatus::Applied));
    let e = r.snapshot_entry.unwrap();
    assert_eq!(e.category, "power_plan");
    assert_eq!(e.key, "active_scheme");
    assert_eq!(text(&e.original_value), Some("381b4222-f694-41f0-9685-ff5bb260df2e"));
    assert_eq!(text(&e.new_value), Some(GUID));
    assert!(e.applied);
}

#[test]
fn ultimate_performance_created_when_missing() {
    let (cmds, r) = drive(&Change::UltimatePerformance, vec![ok("nothing"), ok(""), ok("abc"), ok("")]);
    assert_eq!(cmds.len(), 4);
    assert_eq!(
        cmds[1],
        "powercfg /duplicatescheme e9a42b02-d5df-448d-aa00-03f14749eb61 2>$null; if ($LASTEXITCODE -ne 0) { powercfg /duplicatescheme 8c5e7fda-e8bf-4a96-9a85-a6e23a8c635c e9a42b02-d5df-448d-aa00-03f14749eb61 }"
    );
    assert_eq!(text(&r.snapshot_entry.unwrap().original_value), Some("abc"));
}

#[test]
fn ultimate_performance_failure_has_no_entry() {
    let (_, r) = drive(&Change::UltimatePerformance, vec![ok(GUID), ok("abc"), failed("Invalid Parameters")]);
    assert!(matches!(r.status, ChangeStatus::Failed(ref m) if m == "Invalid Parameters"));
    assert!(r.snapshot_entry.is_none());
}

#[test]
fn nagle_per_interface() {
    let listing = "{A}\r\n\r\n  {B}  \r\n";
    let outcomes = vec![
        ok(listing),
        ok("1"), ok(""), ok(""), ok(""),
        ok(""), ok("0"), failed("x"), ok(""),
    ];
    let (cmds, r) = drive(&Change::NagleDisable, outcomes);
    let a = format!("{}\\{}", IFACES, "{A}");
    let b = format!("{}\\{}", IFACES, "{B}");
    assert_eq!(
        cmds,
        vec![
            format!("Get-ChildItem 'HKLM:\\{}' | ForEach-Object {{ $_.PSChildName }}", IFACES),
            read_cmd("HKLM", &a, "TcpAckFrequency"),
            read_cmd("HKLM", &a, "TCPNoDelay"),
            write_dword("HKLM", &a, "TcpAckFrequency", 1),
            write_dword("HKLM", &a, "TCPNoDelay", 1),
            read_cmd("HKLM", &b, "TcpAckFrequency"),
            read_cmd("HKLM", &b, "TCPNoDelay"),
            write_dword("HKLM", &b, "TcpAckFrequency", 1),
            write_dword("HKLM", &b, "TCPNoDelay", 1),
        ]
    );
    assert_eq!(r.title, "Disable Nagle's Algorithm");
    assert!(matches!(r.status, ChangeStatus::Applied));
    let e = r.snapshot_entry.unwrap();
    assert_eq!(e.key, "nagle_algorithm");
    assert!(e.applied);
    match &e.original_value {
        JsonValue::Array(items) => {
            assert_eq!(items.len(), 2);
            assert_eq!(text(items[0].get("iface").unwrap()), Some("{A}"));
            assert_eq!(unsigned(items[0].get("TcpAckFrequency").unwrap()), Some(1));
            assert!(matches!(items[0].get("TCPNoDelay").unwrap(), JsonValue::Null));
            assert_eq!(text(items[1].get("iface").unwrap()), Some("{B}"));
            assert_eq!(unsigned(items[1].get("TCPNoDelay").unwrap()), Some(0));
        }
        _ => panic!("originals are an array"),
    }
    assert_eq!(unsigned(e.new_value.get("TcpAckFrequency").unwrap()), Some(1));
    assert_eq!(unsigned(e.new_value.get("TCPNoDelay").unwrap()), Some(1));
}

#[test]
fn nagle_without_interfaces_is_skipped() {
    let (cmds, r) = drive(&Change::NagleDisable, vec![ok(" \r\n")]);
    assert_eq!(cmds.len(), 1);
    assert!(matches!(r.status, ChangeStatus::Skipped(ref m) if m == "No network interfaces found"));
    assert!(!r.snapshot_entry.unwrap().applied);
}

#[test]
fn nagle_all_writes_failing() {
    let (_, r) = drive(&Change::NagleDisable, vec![ok("x"), ok(""), ok(""), failed(""), failed("")]);
    assert!(matches!(r.status, ChangeStatus::Failed(ref m) if m == "Registry writes failed"));
}

#[test]
fn interrupt_moderation() {
    let c = Change::InterruptModDisable("Ethernet".to_string());
    let (cmds, r) = drive(&c, vec![ok(""), ok("")]);
    assert_eq!(
        cmds,
        vec![
            "(Get-NetAdapterAdvancedProperty -Name 'Ethernet' -DisplayName 'Interrupt Moderation' -ErrorAction SilentlyContinue).DisplayValue".to_string(),
            "Set-NetAdapterAdvancedProperty -Name 'Ethernet' -DisplayName 'Interrupt Moderation' -DisplayValue 'Disabled' -ErrorAction SilentlyContinue".to_string(),
        ]
    );
    assert_eq!(r.title, "Disable Interrupt Moderation on Ethernet");
    let e = r.snapshot_entry.unwrap();
    assert_eq!(e.category, "nic");
    assert_eq!(e.key, "Ethernet\\InterruptModeration");
    assert_eq!(text(&e.original_value), Some("Enabled"));
    assert_eq!(text(&e.new_value), Some("Disabled"));

    let (_, r) = drive(&c, vec![ok(" Adaptive \n"), failed("no such property")]);
    assert!(matches!(r.status, ChangeStatus::Failed(ref m) if m == "no such property"));
    assert_eq!(text(&r.snapshot_entry.unwrap().original_value), Some("Adaptive"));
}

#[test]
fn wake_on_lan() {
    let c = Change::WakeOnLanDisable("Wi-Fi".to_string());
    let (cmds, r) = drive(&c, vec![ok("Enabled"), ok("\r\n"), failed("")]);
    assert_eq!(
        cmds[0],
        "(Get-NetAdapterAdvancedProperty -Name 'Wi-Fi' -DisplayName 'Wake on Magic Packet' -ErrorAction SilentlyContinue).DisplayValue"
    );
    assert_eq!(
        cmds[1],
        "(Get-NetAdapterAdvancedProperty -Name 'Wi-Fi' -DisplayName 'Wake on Pattern Match' -ErrorAction SilentlyContinue).DisplayValue"
    );
    assert_eq!(
        cmds[2],
        "Set-NetAdapterAdvancedProperty -Name 'Wi-Fi' -DisplayName 'Wake on Magic Packet' -DisplayValue 'Disabled' -ErrorAction SilentlyContinue; \
         Set-NetAdapterAdvancedProperty -Name 'Wi-Fi' -DisplayName 'Wake on Pattern Match' -DisplayValue 'Disabled' -ErrorAction SilentlyContinue"
    );
    assert_eq!(r.title, "Disable Wake-on-LAN");
    assert!(matches!(r.status, ChangeStatus::Skipped(ref m) if m == "WoL settings not found"));
    let e = r.snapshot_entry.unwrap();
    assert_eq!(e.key, "Wi-Fi\\WakeOnLAN");
    assert_eq!(text(e.original_value.get("Wake on Magic Packet").unwrap()), Some("Enabled"));
    assert_eq!(text(e.original_value.get("Wake on Pattern Match").unwrap()), Some("Enabled"));
    assert!(!e.applied);

    let (_, r) = drive(&c, vec![ok("Disabled"), ok("Enabled"), ok("")]);
    assert!(matches!(r.status, ChangeStatus::Applied));
    let e = r.snapshot_entry.unwrap();
    assert_eq!(text(e.original_value.get("Wake on Magic Packet").unwrap()), Some("Disabled"));
    assert!(e.applied);
}

#[test]
fn mouse_acceleration() {
    let mouse = r"Control Panel\Mouse";
    let (cmds, r) =
        drive(&Change::MouseAccelDisable, vec![ok("1\r\n"), ok("6"), ok("10"), ok(""), ok(""), ok(""), failed("ignored")]);
    assert_eq!(cmds.len(), 7);
    assert_eq!(cmds[0], read_cmd("HKCU", mouse, "MouseSpeed"));
    assert_eq!(cmds[1], read_cmd("HKCU", mouse, "MouseThreshold1"));
    assert_eq!(cmds[2], read_cmd("HKCU", mouse, "MouseThreshold2"));
    assert_eq!(cmds[3], write_string("HKCU", mouse, "MouseSpeed", "0"));
    assert_eq!(cmds[4], write_string("HKCU", mouse, "MouseThreshold1", "0"));
    assert_eq!(cmds[5], write_string("HKCU", mouse, "MouseThreshold2", "0"));
    assert!(cmds[6].starts_with("Add-Type -TypeDefinition 'using System;"));
    assert!(cmds[6].ends_with("$curve = @(0,0,0,0,0,0,0,0,0,0,0,0,0,0,0,0,0,0,0,0); [SPI]::SystemParametersInfo(0x001D, 0, $curve, 0x03)"));
    assert_eq!(r.title, "Disable Mouse Acceleration");
    assert!(matches!(r.status, ChangeStatus::Applied));
    let e = r.snapshot_entry.unwrap();
    assert_eq!(e.key, "mouse_acceleration");
    assert_eq!(text(e.original_value.get("MouseSpeed").unwrap()), Some("1"));
    assert_eq!(text(e.original_value.get("MouseThreshold1").unwrap()), Some("6"));
    assert_eq!(text(e.original_value.get("MouseThreshold2").unwrap()), Some("10"));
    assert_eq!(text(e.new_value.get("MouseThreshold2").unwrap()), Some("0"));

    let (cmds, r) = drive(&Change::MouseAccelDisable, vec![ok(""), ok("6"), ok(""), ok(""), failed(""), ok("")]);
    assert_eq!(cmds.len(), 6);
    assert!(matches!(r.status, ChangeStatus::Failed(ref m) if m == "Registry write failed"));
    let e = r.snapshot_entry.unwrap();
    assert!(matches!(e.original_value.get("MouseSpeed").unwrap(), JsonValue::Null));
    assert!(matches!(e.original_value.get("MouseThreshold2").unwrap(), JsonValue::Null));
    assert!(!e.applied);
}

#[test]
fn services() {
    let c = Change::DisableService("SysMain".to_string());
    let (cmds, r) = drive(&c, vec![ok("Automatic\r\n"), ok("")]);
    assert_eq!(
        cmds,
        vec![
            "(Get-Service 'SysMain' -ErrorAction SilentlyContinue).StartType".to_string(),
            "Stop-Service 'SysMain' -Force -ErrorAction SilentlyContinue; Set-Service 'SysMain' -StartupType Disabled -ErrorAction SilentlyContinue".to_string(),
        ]
    );
    assert_eq!(r.title, "Disable SysMain");
    let e = r.snapshot_entry.unwrap();
    assert_eq!(e.category, "service");
    assert_eq!(e.key, "SysMain");
    assert_eq!(text(&e.original_value), Some("Automatic"));

    let (cmds, r) = drive(&c, vec![ok("")]);
    assert_eq!(cmds.len(), 1);
    assert!(matches!(r.status, ChangeStatus::Skipped(ref m) if m == "Service SysMain not found"));
    assert!(r.snapshot_entry.is_none());

    let (_, r) = drive(&c, vec![PsResult { stdout: "Manual".to_string(), stderr: String::new(), success: false }]);
    assert!(matches!(r.status, ChangeStatus::Skipped(ref m) if m == "Service SysMain not found"));

    let (_, r) = drive(&c, vec![ok("Disabled\n")]);
    assert!(matches!(r.status, ChangeStatus::Skipped(ref m) if m == "Already disabled"));
}

#[test]
fn game_priority() {
    let (cmds, r) = drive(&Change::ProcessPriority("cs2.exe".to_string()), vec![ok("")]);
    let p = r"SOFTWARE\Microsoft\Windows NT\CurrentVersion\Image File Execution Options\cs2.exe";
    assert_eq!(
        cmds,
        vec![format!(
            "New-Item -Path 'HKLM:\\{}' -Force | Out-Null; \
             New-ItemProperty -Path 'HKLM:\\{}' -Name 'CpuPriorityClass' -Value 3 -PropertyType DWord -Force | Out-Null; \
             New-Item -Path 'HKLM:\\{}\\PerfOptions' -Force | Out-Null; \
             New-ItemProperty -Path 'HKLM:\\{}\\PerfOptions' -Name 'CpuPriorityClass' -Value 3 -PropertyType DWord -Force | Out-Null",
            p, p, p, p
        )]
    );
    assert_eq!(r.title, "Set cs2.exe priority to High");
    let e = r.snapshot_entry.unwrap();
    assert_eq!(e.key, "IFEO\\cs2.exe");
    assert!(matches!(e.original_value, JsonValue::Null));
    assert_eq!(unsigned(&e.new_value), Some(3));
}
