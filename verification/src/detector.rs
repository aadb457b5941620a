//! Hardware detection: turning what WMI, PowerShell, the registry and the Steam
//! library report into a hardware profile.
use vstd::prelude::*;
use crate::text::{chars_of, contains, decimal, decimal_string, ends_with, ends_with_chars, index_of, index_of_char, last_index_of, last_index_of_char, line_bounds, lines, seq_eq, slice_of, starts_with, starts_with_chars, str_contains, substring, text_eq, trim, trim_bounds, trim_str};
use crate::types::{CpuInfo, DetectedGame, GameSource, GameView, GpuInfo, MemoryInfo, NetworkInfo, OsInfo, StorageInfo, StorageType};

verus! {

broadcast use vstd::string::group_string_axioms;

// ─── WMI rows ───────────────────────────────────────────────────────────────

/// A row of `Win32_Processor`.
#[derive(Debug, Clone)]
pub struct WmiCpu {
    pub name: String,
    pub manufacturer: String,
    pub number_of_cores: u32,
    pub number_of_logical_processors: u32,
    pub max_clock_speed: u32,
}

/// A row of `Win32_VideoController`.
#[derive(Debug, Clone)]
pub struct WmiGpu {
    pub name: String,
    pub adapter_compatibility: Option<String>,
    pub adapter_ram: Option<u64>,
}

/// A row of `Win32_PhysicalMemory`.
#[derive(Debug, Clone)]
pub struct WmiMemory {
    pub capacity: u64,
    pub speed: Option<u32>,
    pub memory_type: Option<u32>,
}

/// A row of `Win32_DiskDrive`.
#[derive(Debug, Clone)]
pub struct WmiDisk {
    pub model: String,
    pub media_type: Option<String>,
    pub size: Option<u64>,
}

/// A row of `Win32_OperatingSystem`.
#[derive(Debug, Clone)]
pub struct WmiOs {
    pub caption: String,
    pub version: String,
    pub build_number: String,
}

/// A row of `Win32_NetworkAdapter`.
#[derive(Debug, Clone)]
pub struct WmiNetwork {
    pub name: String,
    pub net_connection_id: Option<String>,
    pub speed: Option<u64>,
    pub adapter_type: Option<String>,
}

pub open spec fn opt_view(o: Option<String>) -> Option<Seq<char>> {
    match o {
        Some(s) => Some(s@),
        None => None,
    }
}

pub open spec fn text_or(o: Option<String>, default: Seq<char>) -> Seq<char> {
    match o {
        Some(s) => s@,
        None => default,
    }
}

pub fn string_or(o: &Option<String>, default: &str) -> (r: String)
    ensures
        r@ == text_or(*o, default@),
{
    match o {
        Some(s) => s.clone(),
        None => default.to_string(),
    }
}

pub const MIB: u64 = 1048576;

pub const GIB: u64 = 1073741824;

// ─── CPU, GPU, memory ───────────────────────────────────────────────────────

/// The CPU of the first processor row.
pub fn detect_cpu(results: &Vec<WmiCpu>) -> (r: Result<CpuInfo, String>)
    ensures
        match r {
            Ok(c) => {
                &&& results@.len() > 0
                &&& c.name@ == trim(results@[0].name@)
                &&& c.manufacturer@ == results@[0].manufacturer@
                &&& c.cores == results@[0].number_of_cores
                &&& c.threads == results@[0].number_of_logical_processors
                &&& c.max_clock_mhz == results@[0].max_clock_speed
            },
            Err(e) => results@.len() == 0 && e@ == "No CPU found"@,
        },
{
    if results.len() == 0 {
        return Err("No CPU found".to_string());
    }
    let cpu = &results[0];
    Ok(
        CpuInfo {
            name: trim_str(cpu.name.as_str()),
            manufacturer: cpu.manufacturer.clone(),
            cores: cpu.number_of_cores,
            threads: cpu.number_of_logical_processors,
            max_clock_mhz: cpu.max_clock_speed,
        },
    )
}

/// The GPU of the first video controller row; its memory in MiB.
pub fn detect_gpu(results: &Vec<WmiGpu>) -> (r: Result<GpuInfo, String>)
    ensures
        match r {
            Ok(g) => {
                &&& results@.len() > 0
                &&& g.name@ == trim(results@[0].name@)
                &&& g.manufacturer@ == text_or(results@[0].adapter_compatibility, seq![])
                &&& g.vram_mb == match results@[0].adapter_ram {
                    Some(b) => b / MIB,
                    None => 0,
                }
            },
            Err(e) => results@.len() == 0 && e@ == "No GPU found"@,
        },
{
    if results.len() == 0 {
        return Err("No GPU found".to_string());
    }
    let gpu = &results[0];
    let ram = match gpu.adapter_ram {
        Some(b) => b,
        None => 0,
    };
    let manufacturer = match &gpu.adapter_compatibility {
        Some(m) => m.clone(),
        None => String::new(),
    };
    Ok(GpuInfo { name: trim_str(gpu.name.as_str()), manufacturer, vram_mb: ram / MIB })
}

/// The total capacity of the memory modules, in bytes.
pub open spec fn capacity_sum(rows: Seq<WmiMemory>) -> nat
    decreases rows.len(),
{
    if rows.len() == 0 {
        0
    } else {
        capacity_sum(rows.drop_last()) + rows.last().capacity as nat
    }
}

/// The name of a memory type code: 26 is DDR4, 34 is DDR5.
pub open spec fn memory_type_name(t: Option<u32>) -> Seq<char> {
    match t {
        Some(26) => "DDR4"@,
        Some(34) => "DDR5"@,
        Some(n) => "Type "@ + decimal(n as nat),
        None => "Unknown"@,
    }
}

/// Total memory in MiB over all modules; speed and type from the first.
pub fn detect_memory(results: &Vec<WmiMemory>) -> (r: Result<MemoryInfo, String>)
    requires
        capacity_sum(results@) <= u64::MAX,
    ensures
        match r {
            Ok(m) => {
                &&& m.total_mb == capacity_sum(results@) / (MIB as nat)
                &&& m.speed_mhz == (if results@.len() > 0 {
                    match results@[0].speed {
                        Some(s) => s,
                        None => 0,
                    }
                } else {
                    0
                })
                &&& m.memory_type@ == memory_type_name(
                    if results@.len() > 0 {
                        results@[0].memory_type
                    } else {
                        None
                    },
                )
            },
            Err(_) => false,
        },
{
    let mut total: u64 = 0;
    let mut i: usize = 0;
    assert(results@.take(0) =~= seq![]);
    while i < results.len()
        invariant
            i <= results@.len(),
            capacity_sum(results@) <= u64::MAX,
            total == capacity_sum(results@.take(i as int)),
        decreases results@.len() - i,
    {
        assert(results@.take(i + 1).drop_last() =~= results@.take(i as int));
        proof {
            lemma_capacity_sum_prefix(results@, i + 1);
        }
        total = total + results[i].capacity;
        i += 1;
    }
    assert(results@.take(i as int) =~= results@);
    let mut speed: u32 = 0;
    let mut kind: Option<u32> = None;
    if results.len() > 0 {
        speed = match results[0].speed {
            Some(s) => s,
            None => 0,
        };
        kind = results[0].memory_type;
    }
    let memory_type = match kind {
        Some(26) => "DDR4".to_string(),
        Some(34) => "DDR5".to_string(),
        Some(n) => {
            let mut t = "Type ".to_string();
            let d = decimal_string(n as u64);
            t.append(d.as_str());
            t
        },
        None => "Unknown".to_string(),
    };
    Ok(MemoryInfo { total_mb: total / MIB, speed_mhz: speed, memory_type })
}

/// No prefix of the modules holds more capacity than all of them.
pub proof fn lemma_capacity_sum_prefix(rows: Seq<WmiMemory>, k: int)
    requires
        0 <= k <= rows.len(),
    ensures
        capacity_sum(rows.take(k)) <= capacity_sum(rows),
    decreases rows.len() - k,
{
    if k < rows.len() {
        lemma_capacity_sum_prefix(rows, k + 1);
        assert(rows.take(k + 1).drop_last() =~= rows.take(k));
    } else {
        assert(rows.take(k) =~= rows);
    }
}

// ─── Storage ────────────────────────────────────────────────────────────────

/// What `str::to_lowercase` gives (Unicode lowercase mapping).
pub uninterp spec fn str_lowercase(s: Seq<char>) -> Seq<char>;

/// `str::to_lowercase`: its result is named [`str_lowercase`] of its argument;
/// nothing more of the Unicode mapping is stated.
#[verifier::external_body]
fn to_lowercase(s: &str) -> (r: String)
    ensures
        r@ == str_lowercase(s@),
{
    s.to_lowercase()
}

/// The kind of a disk, given its model in lower case: NVMe by the model, else
/// SSD or HDD by the media type, else SSD by the model, else unknown.
pub open spec fn lowered_storage_kind(lower_model: Seq<char>, media: Option<Seq<char>>) -> StorageType {
    if contains(lower_model, "nvme"@) {
        StorageType::NVMe
    } else if media is Some && (contains(media->0, "SSD"@) || contains(media->0, "Solid"@)) {
        StorageType::SSD
    } else if media is Some && (contains(media->0, "Fixed"@) || contains(media->0, "HDD"@)) {
        StorageType::HDD
    } else if contains(lower_model, "ssd"@) {
        StorageType::SSD
    } else {
        StorageType::Unknown
    }
}

/// The kind of a disk by its model and media type.
pub open spec fn storage_kind(model: Seq<char>, media: Option<Seq<char>>) -> StorageType {
    lowered_storage_kind(str_lowercase(model), media)
}

/// The kind of a disk whose model is given in lower case (see
/// [`lowered_storage_kind`]).
pub fn classify_lowered(lower_model: &str, media: &Option<String>) -> (r: StorageType)
    ensures
        r == lowered_storage_kind(lower_model@, opt_view(*media)),
{
    if str_contains(lower_model, "nvme") {
        return StorageType::NVMe;
    }
    match media {
        Some(m) => {
            if str_contains(m.as_str(), "SSD") || str_contains(m.as_str(), "Solid") {
                return StorageType::SSD;
            }
            if str_contains(m.as_str(), "Fixed") || str_contains(m.as_str(), "HDD") {
                return StorageType::HDD;
            }
        },
        None => {},
    }
    if str_contains(lower_model, "ssd") {
        StorageType::SSD
    } else {
        StorageType::Unknown
    }
}

/// The kind of a disk (see [`storage_kind`]).
pub fn classify_storage(model: &str, media: &Option<String>) -> (r: StorageType)
    ensures
        r == storage_kind(model@, opt_view(*media)),
{
    let lower = to_lowercase(model);
    classify_lowered(lower.as_str(), media)
}

/// The first disk: its kind, its size in GiB, its trimmed model.
pub fn detect_storage(results: &Vec<WmiDisk>) -> (r: Result<StorageInfo, String>)
    ensures
        match r {
            Ok(d) => {
                &&& results@.len() > 0
                &&& d.media_type == storage_kind(results@[0].model@, opt_view(results@[0].media_type))
                &&& d.total_gb == match results@[0].size {
                    Some(b) => b / GIB,
                    None => 0,
                }
                &&& d.model@ == trim(results@[0].model@)
            },
            Err(e) => results@.len() == 0 && e@ == "No disk found"@,
        },
{
    if results.len() == 0 {
        return Err("No disk found".to_string());
    }
    let disk = &results[0];
    let size = match disk.size {
        Some(b) => b,
        None => 0,
    };
    Ok(
        StorageInfo {
            media_type: classify_storage(disk.model.as_str(), &disk.media_type),
            total_gb: size / GIB,
            model: trim_str(disk.model.as_str()),
        },
    )
}

// ─── Network ────────────────────────────────────────────────────────────────

/// The position of the first adapter with a connection id.
pub open spec fn first_connected(rows: Seq<WmiNetwork>) -> Option<int>
    decreases rows.len(),
{
    if rows.len() == 0 {
        None
    } else {
        let before = first_connected(rows.drop_last());
        if before is Some {
            before
        } else if rows.last().net_connection_id is Some {
            Some(rows.len() - 1)
        } else {
            None
        }
    }
}

/// A connected adapter found in a prefix is the first connected one of all.
pub proof fn lemma_first_connected_extend(rows: Seq<WmiNetwork>, k: int)
    requires
        0 <= k <= rows.len(),
        first_connected(rows.take(k)) is Some,
    ensures
        first_connected(rows) == first_connected(rows.take(k)),
    decreases rows.len() - k,
{
    if k < rows.len() {
        assert(rows.take(k + 1).drop_last() =~= rows.take(k));
        lemma_first_connected_extend(rows, k + 1);
    } else {
        assert(rows.take(k) =~= rows);
    }
}

/// The active adapter: the first one with a connection id.
pub fn find_active_adapter(results: &Vec<WmiNetwork>) -> (r: Result<usize, String>)
    ensures
        match r {
            Ok(i) => first_connected(results@) == Some(i as int) && i < results@.len(),
            Err(e) => first_connected(results@) is None && e@ == "No active network adapter found"@,
        },
{
    let mut i: usize = 0;
    assert(results@.take(0) =~= seq![]);
    while i < results.len()
        invariant
            i <= results@.len(),
            first_connected(results@.take(i as int)) is None,
        decreases results@.len() - i,
    {
        assert(results@.take(i + 1).drop_last() =~= results@.take(i as int));
        if results[i].net_connection_id.is_some() {
            assert(results@.take(i + 1).last() == results@[i as int]);
            proof {
                lemma_first_connected_extend(results@, i as int + 1);
            }
            return Ok(i);
        }
        i += 1;
    }
    assert(results@.take(i as int) =~= results@);
    Err("No active network adapter found".to_string())
}

/// A link speed in bits per second, in whole Gbps from 1 Gbps up, else in
/// whole Mbps.
pub open spec fn speed_text(speed: Option<u64>) -> Seq<char> {
    match speed {
        Some(b) => if b >= 1_000_000_000 {
            decimal((b / 1_000_000_000) as nat) + " Gbps"@
        } else {
            decimal((b / 1_000_000) as nat) + " Mbps"@
        },
        None => "Unknown"@,
    }
}

pub fn link_speed(speed: Option<u64>) -> (r: String)
    ensures
        r@ == speed_text(speed),
{
    match speed {
        Some(b) => {
            if b >= 1_000_000_000 {
                let mut t = decimal_string(b / 1_000_000_000);
                t.append(" Gbps");
                t
            } else {
                let mut t = decimal_string(b / 1_000_000);
                t.append(" Mbps");
                t
            }
        },
        None => "Unknown".to_string(),
    }
}

/// Lists the display names of an adapter's advanced properties.
pub open spec fn advanced_properties_cmd(adapter: Seq<char>) -> Seq<char> {
    "Get-NetAdapterAdvancedProperty -Name '"@ + adapter
        + "' -ErrorAction SilentlyContinue | Select-Object -ExpandProperty DisplayName"@
}

/// The command that lists the advanced properties of the adapter (by its
/// connection id, empty when it has none).
pub fn advanced_properties_command(adapter: &WmiNetwork) -> (r: String)
    ensures
        r@ == advanced_properties_cmd(text_or(adapter.net_connection_id, seq![])),
{
    let name = string_or(&adapter.net_connection_id, "");
    proof {
        reveal_strlit("");
        assert(""@ =~= Seq::<char>::empty());
    }
    let mut r = "Get-NetAdapterAdvancedProperty -Name '".to_string();
    r.append(name.as_str());
    r.append("' -ErrorAction SilentlyContinue | Select-Object -ExpandProperty DisplayName");
    r
}

/// Whether the adapter supports interrupt moderation and energy-efficient
/// Ethernet, by the property names listed; neither when the listing could
/// not run.
pub open spec fn advanced_support(listing: Option<Seq<char>>) -> (bool, bool) {
    match listing {
        Some(t) => (
            contains(t, "Interrupt Moderation"@),
            contains(t, "Energy Efficient Ethernet"@) || contains(t, "Energy-Efficient Ethernet"@),
        ),
        None => (false, false),
    }
}

/// Reads the property listing (see [`advanced_support`]); `None` when
/// PowerShell could not be run.
pub fn check_adapter_advanced_properties(listing: Option<&str>) -> (r: (bool, bool))
    ensures
        r == advanced_support(
            match listing {
                Some(t) => Some(t@),
                None => None,
            },
        ),
{
    match listing {
        Some(t) => (
            str_contains(t, "Interrupt Moderation"),
            str_contains(t, "Energy Efficient Ethernet") || str_contains(t, "Energy-Efficient Ethernet"),
        ),
        None => (false, false),
    }
}

/// The network adapter: the first one with a connection id, with the support
/// flags read for it.
pub fn detect_network(results: &Vec<WmiNetwork>, support: (bool, bool)) -> (r: Result<NetworkInfo, String>)
    ensures
        match r {
            Ok(n) => {
                let i = first_connected(results@)->0;
                let a = results@[i];
                &&& first_connected(results@) is Some
                &&& n.adapter_name@ == text_or(a.net_connection_id, "Unknown"@)
                &&& n.description@ == trim(a.name@)
                &&& n.link_speed@ == speed_text(a.speed)
                &&& n.connection_type@ == text_or(a.adapter_type, "Ethernet"@)
                &&& n.supports_interrupt_mod == support.0
                &&& n.supports_eee == support.1
            },
            Err(e) => first_connected(results@) is None && e@ == "No active network adapter found"@,
        },
{
    let i = match find_active_adapter(results) {
        Ok(i) => i,
        Err(e) => return Err(e),
    };
    let a = &results[i];
    Ok(
        NetworkInfo {
            adapter_name: string_or(&a.net_connection_id, "Unknown"),
            description: trim_str(a.name.as_str()),
            link_speed: link_speed(a.speed),
            connection_type: string_or(&a.adapter_type, "Ethernet"),
            supports_interrupt_mod: support.0,
            supports_eee: support.1,
        },
    )
}

// ─── Operating system ───────────────────────────────────────────────────────

/// The edition named in the caption: Pro, Enterprise, Home, in that order.
pub open spec fn edition_of(caption: Seq<char>) -> Seq<char> {
    if contains(caption, "Pro"@) {
        "Pro"@
    } else if contains(caption, "Enterprise"@) {
        "Enterprise"@
    } else if contains(caption, "Home"@) {
        "Home"@
    } else {
        "Unknown"@
    }
}

pub fn edition(caption: &str) -> (r: String)
    ensures
        r@ == edition_of(caption@),
{
    if str_contains(caption, "Pro") {
        "Pro".to_string()
    } else if str_contains(caption, "Enterprise") {
        "Enterprise".to_string()
    } else if str_contains(caption, "Home") {
        "Home".to_string()
    } else {
        "Unknown".to_string()
    }
}

/// Prints `True` when the machine has no battery.
pub open spec fn battery_check_cmd() -> Seq<char> {
    "(Get-CimInstance Win32_Battery -ErrorAction SilentlyContinue) -eq $null"@
}

pub fn battery_check_command() -> (r: String)
    ensures
        r@ == battery_check_cmd(),
{
    "(Get-CimInstance Win32_Battery -ErrorAction SilentlyContinue) -eq $null".to_string()
}

/// A desktop: no battery library, or the battery check printed `True`, or it
/// could not run.
pub open spec fn desktop(battery_dll_exists: bool, battery_check: Option<Seq<char>>) -> bool {
    !battery_dll_exists || match battery_check {
        Some(out) => trim(out) == "True"@,
        None => true,
    }
}

/// Whether the machine is a desktop (see [`desktop`]). The check's output is
/// only looked at when the battery library exists.
pub fn is_desktop(battery_dll_exists: bool, battery_check: Option<&str>) -> (r: bool)
    ensures
        r == desktop(
            battery_dll_exists,
            match battery_check {
                Some(t) => Some(t@),
                None => None,
            },
        ),
{
    if !battery_dll_exists {
        return true;
    }
    match battery_check {
        Some(out) => {
            let t = trim_str(out);
            text_eq(t.as_str(), "True")
        },
        None => true,
    }
}

/// The operating system of the first row.
pub fn detect_os(results: &Vec<WmiOs>, is_desktop: bool) -> (r: Result<OsInfo, String>)
    ensures
        match r {
            Ok(o) => {
                &&& results@.len() > 0
                &&& o.caption@ == trim(results@[0].caption@)
                &&& o.version@ == results@[0].version@
                &&& o.build_number@ == results@[0].build_number@
                &&& o.edition@ == edition_of(results@[0].caption@)
                &&& o.is_desktop == is_desktop
            },
            Err(e) => results@.len() == 0 && e@ == "No OS info found"@,
        },
{
    if results.len() == 0 {
        return Err("No OS info found".to_string());
    }
    let os = &results[0];
    Ok(
        OsInfo {
            caption: trim_str(os.caption.as_str()),
            version: os.version.clone(),
            build_number: os.build_number.clone(),
            edition: edition(os.caption.as_str()),
            is_desktop,
        },
    )
}

// ─── Games ──────────────────────────────────────────────────────────────────

/// How many games the known-games list holds.
pub const KNOWN_GAME_COUNT: usize = 16;

/// Known game executables (name, executable), for priority changes when the
/// Steam scan finds less.
pub open spec fn known_games() -> Seq<(Seq<char>, Seq<char>)> {
    seq![
        ("Counter-Strike 2"@, "cs2.exe"@),
        ("Battlefield 2042"@, "BF2042.exe"@),
        ("Halo Infinite"@, "HaloInfinite.exe"@),
        ("Red Dead Redemption 2"@, "RDR2.exe"@),
        ("Deadlock"@, "deadlock.exe"@),
        ("Valorant"@, "VALORANT-Win64-Shipping.exe"@),
        ("Apex Legends"@, "r5apex.exe"@),
        ("Fortnite"@, "FortniteClient-Win64-Shipping.exe"@),
        ("Overwatch 2"@, "Overwatch.exe"@),
        ("Call of Duty"@, "cod.exe"@),
        ("PUBG"@, "TslGame.exe"@),
        ("Rainbow Six Siege"@, "RainbowSix.exe"@),
        ("Escape from Tarkov"@, "EscapeFromTarkov.exe"@),
        ("League of Legends"@, "League of Legends.exe"@),
        ("Dota 2"@, "dota2.exe"@),
        ("Rocket League"@, "RocketLeague.exe"@),
    ]
}

/// The known game at position `i`.
pub fn known_game(i: usize) -> (r: (&'static str, &'static str))
    requires
        i < KNOWN_GAME_COUNT,
    ensures
        (r.0@, r.1@) == known_games()[i as int],
{
    if i == 0 {
        ("Counter-Strike 2", "cs2.exe")
    } else
    if i == 1 {
        ("Battlefield 2042", "BF2042.exe")
    } else
    if i == 2 {
        ("Halo Infinite", "HaloInfinite.exe")
    } else
    if i == 3 {
        ("Red Dead Redemption 2", "RDR2.exe")
    } else
    if i == 4 {
        ("Deadlock", "deadlock.exe")
    } else
    if i == 5 {
        ("Valorant", "VALORANT-Win64-Shipping.exe")
    } else
    if i == 6 {
        ("Apex Legends", "r5apex.exe")
    } else
    if i == 7 {
        ("Fortnite", "FortniteClient-Win64-Shipping.exe")
    } else
    if i == 8 {
        ("Overwatch 2", "Overwatch.exe")
    } else
    if i == 9 {
        ("Call of Duty", "cod.exe")
    } else
    if i == 10 {
        ("PUBG", "TslGame.exe")
    } else
    if i == 11 {
        ("Rainbow Six Siege", "RainbowSix.exe")
    } else
    if i == 12 {
        ("Escape from Tarkov", "EscapeFromTarkov.exe")
    } else
    if i == 13 {
        ("League of Legends", "League of Legends.exe")
    } else
    if i == 14 {
        ("Dota 2", "dota2.exe")
    } else
    {
        ("Rocket League", "RocketLeague.exe")
    }
}

pub open spec fn game_views(games: Seq<DetectedGame>) -> Seq<GameView> {
    Seq::new(games.len(), |i: int| games[i]@)
}

/// Some game in `games` has executable `exe`.
pub open spec fn has_exe(games: Seq<GameView>, exe: Seq<char>) -> bool {
    exists|j: int| 0 <= j < games.len() && (#[trigger] games[j]).exe_name == exe
}

/// The games after considering the first `i` known games: each one not found
/// yet whose Image File Execution Options key is registered is added.
pub open spec fn known_scan(found: Seq<GameView>, registered: Seq<bool>, i: nat) -> Seq<GameView>
    decreases i,
{
    if i == 0 {
        found
    } else {
        let g = known_scan(found, registered, (i - 1) as nat);
        let k = known_games()[i - 1];
        if has_exe(g, k.1) {
            g
        } else if registered[i - 1] {
            g.push(GameView { name: k.0, exe_name: k.1, install_path: seq![], source: GameSource::KnownList })
        } else {
            g
        }
    }
}

/// The games a Steam scan found; none when there was no Steam library.
pub open spec fn steam_views(steam_games: Option<Vec<DetectedGame>>) -> Seq<GameView> {
    match steam_games {
        Some(g) => game_views(g@),
        None => seq![],
    }
}

/// Some game in `games` has executable `exe`.
pub fn has_exe_name(games: &Vec<DetectedGame>, exe: &str) -> (r: bool)
    ensures
        r == has_exe(game_views(games@), exe@),
{
    let mut j: usize = 0;
    while j < games.len()
        invariant
            j <= games@.len(),
            forall|k: int| 0 <= k < j ==> (#[trigger] games@[k]).exe_name@ != exe@,
        decreases games@.len() - j,
    {
        if text_eq(games[j].exe_name.as_str(), exe) {
            assert(game_views(games@)[j as int].exe_name == exe@);
            return true;
        }
        j += 1;
    }
    assert forall|k: int| 0 <= k < games@.len() implies (#[trigger] game_views(games@)[k]).exe_name != exe@ by {
        assert(game_views(games@)[k] == games@[k]@);
    }
    false
}

/// The games found: those of the Steam scan, then each known game not found yet
/// whose Image File Execution Options key is registered (`registered[i]` for
/// known game `i`).
pub fn scan_games(steam_games: Option<Vec<DetectedGame>>, registered: &Vec<bool>) -> (r: Vec<DetectedGame>)
    requires
        registered@.len() == KNOWN_GAME_COUNT,
    ensures
        game_views(r@) == known_scan(
            steam_views(steam_games),
            registered@,
            KNOWN_GAME_COUNT as nat,
        ),
{
    let ghost found = steam_views(steam_games);
    let mut games = match steam_games {
        Some(g) => g,
        None => Vec::new(),
    };
    assert(game_views(games@) =~= found);
    let mut i: usize = 0;
    while i < KNOWN_GAME_COUNT
        invariant
            i <= KNOWN_GAME_COUNT,
            registered@.len() == KNOWN_GAME_COUNT,
            game_views(games@) == known_scan(found, registered@, i as nat),
        decreases KNOWN_GAME_COUNT - i,
    {
        let (name, exe) = known_game(i);
        if !has_exe_name(&games, exe) && registered[i] {
            let ghost before = games@;
            games.push(
                DetectedGame {
                    name: name.to_string(),
                    exe_name: exe.to_string(),
                    install_path: String::new(),
                    source: GameSource::KnownList,
                },
            );
            assert(game_views(games@) =~= game_views(before).push(
                GameView {
                    name: known_games()[i as int].0,
                    exe_name: known_games()[i as int].1,
                    install_path: seq![],
                    source: GameSource::KnownList,
                },
            ));
        }
        i += 1;
    }
    games
}

/// The registry path whose presence marks a known game (see
/// [`crate::scripts::ifeo_path`]).
pub fn ifeo_key_path(exe: &str) -> (r: String)
    ensures
        r@ == crate::scripts::ifeo_path(exe@),
{
    crate::scripts::ifeo_path_of(exe)
}

/// A Steam app manifest file name: `appmanifest_*.acf`.
pub open spec fn app_manifest_name(name: Seq<char>) -> bool {
    starts_with(name, "appmanifest_"@) && ends_with(name, ".acf"@)
}

pub fn is_app_manifest(file_name: &str) -> (r: bool)
    ensures
        r == app_manifest_name(file_name@),
{
    let n = chars_of(file_name);
    let p = chars_of("appmanifest_");
    let x = chars_of(".acf");
    starts_with_chars(&n, &p) && ends_with_chars(&n, &x)
}

/// `"key"`, as an ACF line begins with it.
pub open spec fn acf_pattern(key: Seq<char>) -> Seq<char> {
    "\""@ + key + "\""@
}

/// The value of a line `"key"  "value"`: the text between the next two quotes
/// after the quoted key, on the trimmed line.
pub open spec fn acf_line_value(line: Seq<char>, key: Seq<char>) -> Option<Seq<char>> {
    let t = trim(line);
    let p = acf_pattern(key);
    if starts_with(t, p) {
        let after = t.skip(p.len() as int);
        match index_of(after, '"') {
            Some(a) => {
                let rest = after.skip(a + 1);
                match index_of(rest, '"') {
                    Some(b) => Some(rest.take(b)),
                    None => None,
                }
            },
            None => None,
        }
    } else {
        None
    }
}

/// The value of the first line that gives one for `key`.
pub open spec fn acf_value_in(ls: Seq<Seq<char>>, key: Seq<char>) -> Option<Seq<char>>
    decreases ls.len(),
{
    if ls.len() == 0 {
        None
    } else {
        let before = acf_value_in(ls.drop_last(), key);
        if before is Some {
            before
        } else {
            acf_line_value(ls.last(), key)
        }
    }
}

/// Where the value a line gives for `key` lies in the line (see
/// [`acf_line_value`]).
pub fn acf_line_value_bounds(line: &Vec<char>, pattern: &Vec<char>, key: Ghost<Seq<char>>) -> (r: Option<(usize, usize)>)
    requires
        pattern@ == acf_pattern(key@),
    ensures
        match r {
            Some((x, y)) => x <= y <= line@.len() && acf_line_value(line@, key@) == Some(
                line@.subrange(x as int, y as int),
            ),
            None => acf_line_value(line@, key@) is None,
        },
{
    let (i, j) = trim_bounds(line);
    let t = slice_of(line, i, j);
    if !starts_with_chars(&t, pattern) {
        return None;
    }
    let p = pattern.len();
    let after = slice_of(&t, p, t.len());
    assert(after@ =~= t@.skip(p as int));
    match index_of_char(&after, '"') {
        Some(a) => {
            let rest = slice_of(&after, a + 1, after.len());
            assert(rest@ =~= after@.skip(a + 1));
            match index_of_char(&rest, '"') {
                Some(b) => {
                    let x = i + p + a + 1;
                    assert(rest@.take(b as int) =~= line@.subrange(x as int, x + b));
                    Some((x, x + b))
                },
                None => None,
            }
        },
        None => None,
    }
}

/// The value of `key` in an ACF manifest: the first line `"key"  "value"`.
pub fn extract_acf_value(content: &str, key: &str) -> (r: Option<String>)
    ensures
        match r {
            Some(v) => acf_value_in(lines(content@), key@) == Some(v@),
            None => acf_value_in(lines(content@), key@) is None,
        },
{
    let mut pattern = "\"".to_string();
    pattern.append(key);
    pattern.append("\"");
    let pat = chars_of(pattern.as_str());
    let c = chars_of(content);
    let ls = line_bounds(&c);
    let ghost all = lines(content@);
    let mut i: usize = 0;
    assert(all.take(0) =~= seq![]);
    while i < ls.len()
        invariant
            i <= ls@.len(),
            c@ == content@,
            ls@.len() == all.len(),
            forall|k: int|
                0 <= k < ls@.len() ==> {
                    let (a, b) = #[trigger] ls@[k];
                    &&& a <= b <= c@.len()
                    &&& c@.subrange(a as int, b as int) == all[k]
                },
            pat@ == acf_pattern(key@),
            all == lines(content@),
            acf_value_in(all.take(i as int), key@) is None,
        decreases ls@.len() - i,
    {
        let (a, b) = ls[i];
        assert(ls@[i as int] == (a, b));
        let line = slice_of(&c, a, b);
        assert(all.take(i + 1).drop_last() =~= all.take(i as int));
        assert(all.take(i + 1).last() == line@);
        match acf_line_value_bounds(&line, &pat, Ghost(key@)) {
            Some((x, y)) => {
                let v = substring(content, a + x, a + y);
                assert(v@ =~= line@.subrange(x as int, y as int));
                proof {
                    assert(acf_value_in(all.take(i + 1), key@) == Some(v@));
                    lemma_acf_value_extend(all, i as int + 1, key@);
                }
                return Some(v);
            },
            None => {},
        }
        i += 1;
    }
    assert(all.take(i as int) =~= all);
    None
}

/// A value found in the first lines is the value found in all of them.
pub proof fn lemma_acf_value_extend(ls: Seq<Seq<char>>, k: int, key: Seq<char>)
    requires
        0 <= k <= ls.len(),
        acf_value_in(ls.take(k), key) is Some,
    ensures
        acf_value_in(ls, key) == acf_value_in(ls.take(k), key),
    decreases ls.len() - k,
{
    if k < ls.len() {
        assert(ls.take(k + 1).drop_last() =~= ls.take(k));
        lemma_acf_value_extend(ls, k + 1, key);
    } else {
        assert(ls.take(k) =~= ls);
    }
}

/// The `name` and `installdir` of an app manifest, when it gives both.
pub fn parse_acf_manifest(content: &str) -> (r: Option<(String, String)>)
    ensures
        match r {
            Some((n, d)) => acf_value_in(lines(content@), "name"@) == Some(n@) && acf_value_in(
                lines(content@),
                "installdir"@,
            ) == Some(d@),
            None => acf_value_in(lines(content@), "name"@) is None || acf_value_in(
                lines(content@),
                "installdir"@,
            ) is None,
        },
{
    let name = match extract_acf_value(content, "name") {
        Some(n) => n,
        None => return None,
    };
    let installdir = match extract_acf_value(content, "installdir") {
        Some(d) => d,
        None => return None,
    };
    Some((name, installdir))
}

/// A known game matches a Steam name when either name contains the other.
pub open spec fn known_matches(name: Seq<char>, known: Seq<char>) -> bool {
    contains(name, known) || contains(known, name)
}

/// The executable of the first of the first `i` known games that matches.
pub open spec fn known_exe_in(name: Seq<char>, i: nat) -> Option<Seq<char>>
    decreases i,
{
    if i == 0 {
        None
    } else {
        let before = known_exe_in(name, (i - 1) as nat);
        if before is Some {
            before
        } else if known_matches(name, known_games()[i - 1].0) {
            Some(known_games()[i - 1].1)
        } else {
            None
        }
    }
}

/// The executable of the first known game that matches `name`.
pub fn known_exe_for(name: &str) -> (r: Option<String>)
    ensures
        match r {
            Some(e) => known_exe_in(name@, KNOWN_GAME_COUNT as nat) == Some(e@),
            None => known_exe_in(name@, KNOWN_GAME_COUNT as nat) is None,
        },
{
    let mut i: usize = 0;
    while i < KNOWN_GAME_COUNT
        invariant
            i <= KNOWN_GAME_COUNT,
            known_exe_in(name@, i as nat) is None,
        decreases KNOWN_GAME_COUNT - i,
    {
        let (n, e) = known_game(i);
        if str_contains(name, n) || str_contains(n, name) {
            proof {
                lemma_known_exe_extend(name@, i as nat + 1);
            }
            return Some(e.to_string());
        }
        i += 1;
    }
    None
}

/// A match among the first `i` known games is the first match of all.
pub proof fn lemma_known_exe_extend(name: Seq<char>, i: nat)
    requires
        i <= KNOWN_GAME_COUNT,
        known_exe_in(name, i) is Some,
    ensures
        known_exe_in(name, KNOWN_GAME_COUNT as nat) == known_exe_in(name, i),
    decreases KNOWN_GAME_COUNT - i,
{
    if i < KNOWN_GAME_COUNT {
        lemma_known_exe_extend(name, i + 1);
    }
}

/// A file name whose extension (the text after its last dot, when that dot is
/// not its first character) is `exe`.
pub open spec fn exe_file_name(name: Seq<char>) -> bool {
    match last_index_of(name, '.') {
        Some(i) => i > 0 && name.skip(i + 1) == "exe"@,
        None => false,
    }
}

pub fn is_exe_file_name(name: &str) -> (r: bool)
    ensures
        r == exe_file_name(name@),
{
    let n = chars_of(name);
    match last_index_of_char(&n, '.') {
        Some(i) => {
            if i == 0 {
                return false;
            }
            let ext = slice_of(&n, i + 1, n.len());
            assert(ext@ =~= n@.skip(i + 1));
            let exe = chars_of("exe");
            seq_eq(&ext, &exe)
        },
        None => false,
    }
}

/// The first of `names` that is an executable.
pub open spec fn first_exe(names: Seq<String>) -> Option<Seq<char>>
    decreases names.len(),
{
    if names.len() == 0 {
        None
    } else {
        let before = first_exe(names.drop_last());
        if before is Some {
            before
        } else if exe_file_name(names.last()@) {
            Some(names.last()@)
        } else {
            None
        }
    }
}

/// The main executable of a game directory: the first executable among the
/// names of its first entries.
pub fn find_main_exe(names: &Vec<String>) -> (r: Option<String>)
    ensures
        match r {
            Some(e) => first_exe(names@) == Some(e@),
            None => first_exe(names@) is None,
        },
{
    let mut i: usize = 0;
    assert(names@.take(0) =~= seq![]);
    while i < names.len()
        invariant
            i <= names@.len(),
            first_exe(names@.take(i as int)) is None,
        decreases names@.len() - i,
    {
        assert(names@.take(i + 1).drop_last() =~= names@.take(i as int));
        assert(names@.take(i + 1).last() == names@[i as int]);
        if is_exe_file_name(names[i].as_str()) {
            proof {
                lemma_first_exe_extend(names@, i as int + 1);
            }
            return Some(names[i].clone());
        }
        i += 1;
    }
    assert(names@.take(i as int) =~= names@);
    None
}

/// An executable found among the first names is the first of all.
pub proof fn lemma_first_exe_extend(names: Seq<String>, k: int)
    requires
        0 <= k <= names.len(),
        first_exe(names.take(k)) is Some,
    ensures
        first_exe(names) == first_exe(names.take(k)),
    decreases names.len() - k,
{
    if k < names.len() {
        assert(names.take(k + 1).drop_last() =~= names.take(k));
        lemma_first_exe_extend(names, k + 1);
    } else {
        assert(names.take(k) =~= names);
    }
}

/// The executable of a Steam game: the known one, else the one found in its
/// directory, else its install directory's name with `.exe`.
pub open spec fn game_exe(known: Option<Seq<char>>, found: Option<Seq<char>>, installdir: Seq<char>) -> Seq<char> {
    match known {
        Some(k) => k,
        None => match found {
            Some(f) => f,
            None => installdir + ".exe"@,
        },
    }
}

pub fn exe_for_game(known: Option<String>, found: Option<String>, installdir: &str) -> (r: String)
    ensures
        r@ == game_exe(opt_view(known), opt_view(found), installdir@),
{
    match known {
        Some(k) => k,
        None => match found {
            Some(f) => f,
            None => {
                let mut r = installdir.to_string();
                r.append(".exe");
                r
            },
        },
    }
}

/// The first executable among a directory's first entry names, or none when
/// the directory could not be listed.
pub open spec fn listed_exe(entry_names: Option<Seq<String>>) -> Option<Seq<char>> {
    match entry_names {
        Some(n) => first_exe(n),
        None => None,
    }
}

/// The game a Steam manifest names: none when its install directory does not
/// exist; else the game with the manifest's name, found by Steam, installed at
/// `install_path`, whose executable is the known one for its name, else the
/// first executable among the directory's entries, else `installdir.exe`.
pub open spec fn steam_game_view(
    name: Seq<char>,
    installdir: Seq<char>,
    install_path: Seq<char>,
    dir_exists: bool,
    entry_names: Option<Seq<String>>,
) -> Option<GameView> {
    if dir_exists {
        Some(
            GameView {
                name,
                exe_name: game_exe(
                    known_exe_in(name, KNOWN_GAME_COUNT as nat),
                    listed_exe(entry_names),
                    installdir,
                ),
                install_path,
                source: GameSource::Steam,
            },
        )
    } else {
        None
    }
}

/// The game a Steam manifest names (see [`steam_game_view`]).
pub fn steam_game(
    name: String,
    installdir: &str,
    install_path: String,
    dir_exists: bool,
    entry_names: &Option<Vec<String>>,
) -> (r: Option<DetectedGame>)
    ensures
        match r {
            Some(g) => steam_game_view(
                name@,
                installdir@,
                install_path@,
                dir_exists,
                match entry_names {
                    Some(n) => Some(n@),
                    None => None,
                },
            ) == Some(g@),
            None => steam_game_view(
                name@,
                installdir@,
                install_path@,
                dir_exists,
                match entry_names {
                    Some(n) => Some(n@),
                    None => None,
                },
            ) is None,
        },
{
    if !dir_exists {
        return None;
    }
    let known = known_exe_for(name.as_str());
    let found = match entry_names {
        Some(n) => find_main_exe(n),
        None => None,
    };
    let exe_name = exe_for_game(known, found, installdir);
    Some(DetectedGame { name, exe_name, install_path, source: GameSource::Steam })
}

} // verus!
