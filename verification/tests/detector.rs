use overclock::detector::{
    advanced_properties_command, battery_check_command, check_adapter_advanced_properties, classify_lowered, classify_storage, detect_cpu, detect_gpu,
    detect_memory, detect_network, detect_os, detect_storage, edition, exe_for_game, extract_acf_value, find_active_adapter,
    find_main_exe, ifeo_key_path, is_app_manifest, is_desktop, is_exe_file_name, known_exe_for, known_game, link_speed,
    parse_acf_manifest, scan_games, steam_game, WmiCpu, WmiDisk, WmiGpu, WmiMemory, WmiNetwork, WmiOs, KNOWN_GAME_COUNT,
};
use overclock::types::{DetectedGame, GameSource, StorageType};

#[test]
fn cpu_from_first_row() {
    let rows = vec![WmiCpu { name: "  AMD Ryzen 7 5800X  ".into(), manufacturer: "AuthenticAMD".into(), number_of_cores: 8, number_of_logical_processors: 16, max_clock_speed: 3801 }];
    let c = detect_cpu(&rows).unwrap();
    assert_eq!(c.name, "AMD Ryzen 7 5800X");
    assert_eq!(c.manufacturer, "AuthenticAMD");
    assert_eq!((c.cores, c.threads, c.max_clock_mhz), (8, 16, 3801));
    assert_eq!(detect_cpu(&vec![]).unwrap_err(), "No CPU found");
}

#[test]
fn gpu_memory_in_mib() {
    let rows = vec![WmiGpu { name: "RTX 3080 ".into(), adapter_compatibility: Some("NVIDIA".into()), adapter_ram: Some(4293918720) }];
    let g = detect_gpu(&rows).unwrap();
    assert_eq!(g.name, "RTX 3080");
    assert_eq!(g.manufacturer, "NVIDIA");
    assert_eq!(g.vram_mb, 4095);
    let g = detect_gpu(&vec![WmiGpu { name: "x".into(), adapter_compatibility: None, adapter_ram: None }]).unwrap();
    assert_eq!((g.manufacturer.as_str(), g.vram_mb), ("", 0));
    assert_eq!(detect_gpu(&vec![]).unwrap_err(), "No GPU found");
}

#[test]
fn memory_total_and_type() {
    let rows = vec![
        WmiMemory { capacity: 17179869184, speed: Some(3200), memory_type: Some(26) },
        WmiMemory { capacity: 17179869184, speed: Some(2666), memory_type: Some(34) },
    ];
    let m = detect_memory(&rows).unwrap();
    assert_eq!(m.total_mb, 32768);
    assert_eq!(m.speed_mhz, 3200);
    assert_eq!(m.memory_type, "DDR4");
    let m = detect_memory(&vec![WmiMemory { capacity: 1048575, speed: None, memory_type: Some(34) }]).unwrap();
    assert_eq!((m.total_mb, m.speed_mhz, m.memory_type.as_str()), (0, 0, "DDR5"));
    let m = detect_memory(&vec![WmiMemory { capacity: 0, speed: None, memory_type: Some(24) }]).unwrap();
    assert_eq!(m.memory_type, "Type 24");
    let m = detect_memory(&vec![]).unwrap();
    assert_eq!((m.total_mb, m.speed_mhz, m.memory_type.as_str()), (0, 0, "Unknown"));
}

#[test]
fn storage_kinds() {
    assert_eq!(classify_storage("Samsung SSD 970 EVO Plus NVME", &Some("Fixed hard disk media".into())), StorageType::NVMe);
    assert_eq!(classify_storage("WDC WDS100T", &Some("Solid state".into())), StorageType::SSD);
    assert_eq!(classify_storage("ST2000DM008", &Some("Fixed hard disk media".into())), StorageType::HDD);
    assert_eq!(classify_storage("Crucial SSD", &None), StorageType::SSD);
    assert_eq!(classify_storage("Crucial sSd", &Some("Removable".into())), StorageType::SSD);
    assert_eq!(classify_storage("USB stick", &None), StorageType::Unknown);
    assert_eq!(classify_lowered("samsung nvme", &None), StorageType::NVMe);
    assert_eq!(classify_lowered("Samsung NVMe", &None), StorageType::Unknown);
    assert_eq!(classify_lowered("x", &Some("Fixed HDD".into())), StorageType::HDD);
    let d = detect_storage(&vec![WmiDisk { model: " Samsung NVMe ".into(), media_type: None, size: Some(1000202273280) }]).unwrap();
    assert_eq!(d.media_type, StorageType::NVMe);
    assert_eq!(d.total_gb, 931);
    assert_eq!(d.model, "Samsung NVMe");
    assert_eq!(detect_storage(&vec![]).unwrap_err(), "No disk found");
}

fn nic(name: &str, id: Option<&str>, speed: Option<u64>, kind: Option<&str>) -> WmiNetwork {
    WmiNetwork { name: name.into(), net_connection_id: id.map(|s| s.to_string()), speed, adapter_type: kind.map(|s| s.to_string()) }
}

#[test]
fn network_adapter_and_speed() {
    let rows = vec![nic("WAN Miniport", None, None, None), nic(" Intel I225-V ", Some("Ethernet"), Some(2_500_000_000), None), nic("x", Some("Wi-Fi"), None, None)];
    assert_eq!(find_active_adapter(&rows).unwrap(), 1);
    let n = detect_network(&rows, (true, false)).unwrap();
    assert_eq!(n.adapter_name, "Ethernet");
    assert_eq!(n.description, "Intel I225-V");
    assert_eq!(n.link_speed, "2 Gbps");
    assert_eq!(n.connection_type, "Ethernet");
    assert!(n.supports_interrupt_mod && !n.supports_eee);
    assert_eq!(detect_network(&vec![nic("a", None, None, None)], (false, false)).unwrap_err(), "No active network adapter found");
    assert_eq!(link_speed(Some(100_000_000)), "100 Mbps");
    assert_eq!(link_speed(Some(999_999_999)), "999 Mbps");
    assert_eq!(link_speed(Some(1_000_000_000)), "1 Gbps");
    assert_eq!(link_speed(None), "Unknown");
    assert_eq!(
        advanced_properties_command(&rows[1]),
        "Get-NetAdapterAdvancedProperty -Name 'Ethernet' -ErrorAction SilentlyContinue | Select-Object -ExpandProperty DisplayName"
    );
}

#[test]
fn advanced_properties() {
    assert_eq!(check_adapter_advanced_properties(Some("Speed & Duplex\r\nInterrupt Moderation\r\nEnergy-Efficient Ethernet\r\n")), (true, true));
    assert_eq!(check_adapter_advanced_properties(Some("Energy Efficient Ethernet")), (false, true));
    assert_eq!(check_adapter_advanced_properties(Some("")), (false, false));
    assert_eq!(check_adapter_advanced_properties(None), (false, false));
}

#[test]
fn operating_system() {
    assert_eq!(edition("Microsoft Windows 11 Pro"), "Pro");
    assert_eq!(edition("Microsoft Windows 10 Enterprise"), "Enterprise");
    assert_eq!(edition("Microsoft Windows 11 Home"), "Home");
    assert_eq!(edition("Windows Server"), "Unknown");
    let o = detect_os(&vec![WmiOs { caption: "Microsoft Windows 11 Pro ".into(), version: "10.0.22631".into(), build_number: "22631".into() }], false).unwrap();
    assert_eq!(o.caption, "Microsoft Windows 11 Pro");
    assert_eq!((o.version.as_str(), o.build_number.as_str(), o.edition.as_str()), ("10.0.22631", "22631", "Pro"));
    assert!(!o.is_desktop);
    assert_eq!(detect_os(&vec![], true).unwrap_err(), "No OS info found");
    assert!(is_desktop(false, Some("False")));
    assert!(is_desktop(true, Some("True\r\n")));
    assert!(!is_desktop(true, Some("False")));
    assert!(is_desktop(true, None));
    assert_eq!(battery_check_command(), "(Get-CimInstance Win32_Battery -ErrorAction SilentlyContinue) -eq $null");
}

#[test]
fn acf_values() {
    let acf = "\"AppState\"\r\n{\r\n\t\"appid\"\t\t\"730\"\r\n\t\"name\"\t\t\"Counter-Strike 2\"\r\n\t\"installdir\"\t\t\"Counter-Strike Global Offensive\"\r\n}\r\n";
    assert_eq!(extract_acf_value(acf, "name").as_deref(), Some("Counter-Strike 2"));
    assert_eq!(extract_acf_value(acf, "installdir").as_deref(), Some("Counter-Strike Global Offensive"));
    assert_eq!(extract_acf_value(acf, "appid").as_deref(), Some("730"));
    assert_eq!(extract_acf_value(acf, "missing"), None);
    assert_eq!(extract_acf_value("\"name\" no quotes\n\"name\" \"second\"", "name").as_deref(), Some("second"));
    assert_eq!(extract_acf_value("\"name\"\"\"", "name").as_deref(), Some(""));
    assert_eq!(
        parse_acf_manifest(acf),
        Some(("Counter-Strike 2".to_string(), "Counter-Strike Global Offensive".to_string()))
    );
    assert_eq!(parse_acf_manifest("\"name\" \"x\""), None);
}

#[test]
fn steam_helpers() {
    assert!(is_app_manifest("appmanifest_730.acf"));
    assert!(!is_app_manifest("appmanifest_730.acf.bak"));
    assert!(!is_app_manifest("libraryfolders.vdf"));
    assert_eq!(known_exe_for("Counter-Strike 2").as_deref(), Some("cs2.exe"));
    assert_eq!(known_exe_for("Dota").as_deref(), Some("dota2.exe"));
    assert_eq!(known_exe_for("Portal 2"), None);
    assert_eq!(known_exe_for("").as_deref(), Some("cs2.exe"));
    assert!(is_exe_file_name("game.exe"));
    assert!(!is_exe_file_name(".exe"));
    assert!(!is_exe_file_name("game.EXE"));
    assert!(!is_exe_file_name("readme.txt"));
    assert!(is_exe_file_name("a.b.exe"));
    let names = vec!["data".to_string(), "launcher.exe".to_string(), "game.exe".to_string()];
    assert_eq!(find_main_exe(&names).as_deref(), Some("launcher.exe"));
    assert_eq!(find_main_exe(&vec!["a.dll".to_string()]), None);
    assert_eq!(exe_for_game(Some("k.exe".into()), Some("f.exe".into()), "Dir"), "k.exe");
    assert_eq!(exe_for_game(None, Some("f.exe".into()), "Dir"), "f.exe");
    assert_eq!(exe_for_game(None, None, "Dir"), "Dir.exe");
    assert_eq!(ifeo_key_path("cs2.exe"), r"SOFTWARE\Microsoft\Windows NT\CurrentVersion\Image File Execution Options\cs2.exe");
}

#[test]
fn known_games_list() {
    assert_eq!(KNOWN_GAME_COUNT, 16);
    assert_eq!(known_game(0), ("Counter-Strike 2", "cs2.exe"));
    assert_eq!(known_game(5), ("Valorant", "VALORANT-Win64-Shipping.exe"));
    assert_eq!(known_game(13), ("League of Legends", "League of Legends.exe"));
    assert_eq!(known_game(15), ("Rocket League", "RocketLeague.exe"));
}

#[test]
fn games_from_steam_then_known_list() {
    let steam = vec![DetectedGame { name: "CS".into(), exe_name: "cs2.exe".into(), install_path: "C:\\cs".into(), source: GameSource::Steam }];
    let mut registered = vec![false; 16];
    registered[0] = true;
    registered[2] = true;
    let games = scan_games(Some(steam), &registered);
    assert_eq!(games.len(), 2);
    assert_eq!(games[0].exe_name, "cs2.exe");
    assert_eq!(games[0].source, GameSource::Steam);
    assert_eq!(games[1].name, "Halo Infinite");
    assert_eq!(games[1].exe_name, "HaloInfinite.exe");
    assert_eq!(games[1].install_path, "");
    assert_eq!(games[1].source, GameSource::KnownList);
    assert!(scan_games(None, &vec![false; 16]).is_empty());
    assert_eq!(scan_games(None, &vec![true; 16]).len(), 16);
}

#[test]
fn steam_games_from_manifests() {
    let names = Some(vec!["readme.txt".to_string(), "game.exe".to_string(), "tool.exe".to_string()]);
    let g = steam_game("Counter-Strike 2".into(), "Counter-Strike Global Offensive", r"C:\S\common\CS".into(), true, &names).unwrap();
    assert_eq!(g.exe_name, "cs2.exe");
    assert_eq!(g.name, "Counter-Strike 2");
    assert_eq!(g.install_path, r"C:\S\common\CS");
    assert!(matches!(g.source, GameSource::Steam));
    let g = steam_game("Some Indie".into(), "Indie", "p".into(), true, &names).unwrap();
    assert_eq!(g.exe_name, "game.exe");
    let g = steam_game("Some Indie".into(), "Indie", "p".into(), true, &None).unwrap();
    assert_eq!(g.exe_name, "Indie.exe");
    let g = steam_game("Some Indie".into(), "Indie", "p".into(), true, &Some(vec![".exe".into()])).unwrap();
    assert_eq!(g.exe_name, "Indie.exe");
    assert!(steam_game("Some Indie".into(), "Indie", "p".into(), false, &names).is_none());
}
