//! The data that hardware detection, profiles and snapshots pass around.
use vstd::prelude::*;
use crate::json::{JsonSpec, JsonValue};

verus! {

// ─── Hardware detection ─────────────────────────────────────────────────────

#[derive(Debug, Clone)]
pub struct HardwareProfile {
    pub cpu: CpuInfo,
    pub gpu: GpuInfo,
    pub memory: MemoryInfo,
    pub storage: StorageInfo,
    pub network: NetworkInfo,
    pub os: OsInfo,
    pub games: Vec<DetectedGame>,
}

#[derive(Debug, Clone)]
pub struct CpuInfo {
    pub name: String,
    pub manufacturer: String,
    pub cores: u32,
    pub threads: u32,
    pub max_clock_mhz: u32,
}

#[derive(Debug, Clone)]
pub struct GpuInfo {
    pub name: String,
    pub manufacturer: String,
    pub vram_mb: u64,
}

#[derive(Debug, Clone)]
pub struct MemoryInfo {
    pub total_mb: u64,
    pub speed_mhz: u32,
    pub memory_type: String,
}

#[derive(Debug, Clone)]
pub struct StorageInfo {
    pub media_type: StorageType,
    pub total_gb: u64,
    pub model: String,
}

#[derive(Debug, Clone, Copy, PartialEq, Eq, Structural)]
pub enum StorageType {
    NVMe,
    SSD,
    HDD,
    Unknown,
}

#[derive(Debug, Clone)]
pub struct NetworkInfo {
    pub adapter_name: String,
    pub description: String,
    pub link_speed: String,
    pub connection_type: String,
    pub supports_interrupt_mod: bool,
    pub supports_eee: bool,
}

#[derive(Debug, Clone)]
pub struct OsInfo {
    pub caption: String,
    pub version: String,
    pub build_number: String,
    pub edition: String,
    pub is_desktop: bool,
}

#[derive(Debug, Clone)]
pub struct DetectedGame {
    pub name: String,
    pub exe_name: String,
    pub install_path: String,
    pub source: GameSource,
}

#[derive(Debug, Clone, Copy, PartialEq, Eq, Structural)]
pub enum GameSource {
    Steam,
    Manual,
    KnownList,
}

/// The model of a [`DetectedGame`].
pub struct GameView {
    pub name: Seq<char>,
    pub exe_name: Seq<char>,
    pub install_path: Seq<char>,
    pub source: GameSource,
}

impl View for DetectedGame {
    type V = GameView;

    open spec fn view(&self) -> GameView {
        GameView {
            name: self.name@,
            exe_name: self.exe_name@,
            install_path: self.install_path@,
            source: self.source,
        }
    }
}

// ─── Optimizations ──────────────────────────────────────────────────────────

#[derive(Debug, Clone)]
pub struct ProposedChange {
    pub id: String,
    pub category: ChangeCategory,
    pub title: String,
    pub description: String,
    pub current_value: String,
    pub new_value: String,
    pub risk: RiskLevel,
    pub hardware_condition: Option<String>,
}

#[derive(Debug, Clone, Copy)]
pub enum ChangeCategory {
    Power,
    Network,
    Input,
    Services,
    Process,
    Background,
}

#[derive(Debug, Clone, Copy)]
pub enum RiskLevel {
    Safe,
    Caution,
    Info,
}

#[derive(Debug, Clone)]
pub enum ChangeResult {
    Applied,
    Skipped { reason: String },
    Failed { error: String },
}

// ─── Profiles ───────────────────────────────────────────────────────────────

#[derive(Debug, Clone)]
pub struct Profile {
    pub id: String,
    pub name: String,
    pub description: String,
    pub power_ultimate: bool,
    pub usb_suspend_disable: bool,
    pub nagle_disable: bool,
    pub interrupt_mod_disable: bool,
    pub wake_on_lan_disable: bool,
    pub mouse_accel_disable: bool,
    pub disable_services: Vec<String>,
    pub process_priority_high: bool,
    pub background_apps_disable: bool,
}

// ─── Snapshots ──────────────────────────────────────────────────────────────

#[derive(Debug)]
pub struct Snapshot {
    pub version: u32,
    pub timestamp: String,
    pub hardware_fingerprint: String,
    pub profile_applied: String,
    pub changes: Vec<SnapshotEntry>,
}

/// One setting that a change overwrote: where it lives, what it held before,
/// what was written, and whether the write took effect.
#[derive(Debug)]
pub struct SnapshotEntry {
    pub category: String,
    pub key: String,
    pub original_value: JsonValue,
    pub new_value: JsonValue,
    pub applied: bool,
}

/// The model of a [`SnapshotEntry`].
pub struct EntryView {
    pub category: Seq<char>,
    pub key: Seq<char>,
    pub original: JsonSpec,
    pub new_value: JsonSpec,
    pub applied: bool,
}

impl View for SnapshotEntry {
    type V = EntryView;

    open spec fn view(&self) -> EntryView {
        EntryView {
            category: self.category@,
            key: self.key@,
            original: self.original_value@,
            new_value: self.new_value@,
            applied: self.applied,
        }
    }
}

// ─── App state ──────────────────────────────────────────────────────────────

#[derive(Debug, Clone, Copy)]
pub enum AppStep {
    Detecting,
    SelectProfile,
    PreviewChanges,
    Applying,
    Results,
    RevertAvailable,
}

} // verus!
