//! The optimizer: which changes a profile makes, and how each change is
//! carried out as a conversation with PowerShell.
//!
//! A change is run by asking [`apply_step`] what to do next, given the outcomes
//! of the commands run so far: either run one more command, or stop with the
//! change's result. A change that overwrites values reads each of them before
//! writing, and reports what it read in its snapshot entry.
use vstd::prelude::*;
use crate::json::{JsonSpec, JsonValue, json_array, json_object2, json_object3, json_of_opt_string, json_of_opt_u32, json_opt_str, json_opt_u32, json_str, json_unsigned};
use crate::registry::{dword_output, read_registry_cmd, read_registry_command, read_registry_dword, read_registry_string, string_output, write_dword_cmd, write_registry_dword, write_registry_string, write_string_cmd};
use crate::scripts;
use crate::text::{contains, nonblank_lines, nonblank_lines_of, str_contains, trim, trim_str};
use crate::types::{EntryView, HardwareProfile, Profile, SnapshotEntry};

pub use crate::revert::revert_snapshot;

verus! {

broadcast use vstd::string::group_string_axioms;

// ─── Outcomes, results, steps ───────────────────────────────────────────────

/// What running one PowerShell command gave back.
#[derive(Debug)]
pub struct PsResult {
    pub stdout: String,
    pub stderr: String,
    pub success: bool,
}

#[derive(Debug)]
pub enum ChangeStatus {
    Applied,
    Skipped(String),
    Failed(String),
}

pub enum StatusView {
    Applied,
    Skipped(Seq<char>),
    Failed(Seq<char>),
}

impl View for ChangeStatus {
    type V = StatusView;

    open spec fn view(&self) -> StatusView {
        match self {
            ChangeStatus::Applied => StatusView::Applied,
            ChangeStatus::Skipped(s) => StatusView::Skipped(s@),
            ChangeStatus::Failed(s) => StatusView::Failed(s@),
        }
    }
}

/// The outcome of one change: a title, a status, and the snapshot entry that
/// records what was overwritten.
#[derive(Debug)]
pub struct ApplyResult {
    pub title: String,
    pub status: ChangeStatus,
    pub snapshot_entry: Option<SnapshotEntry>,
}

pub struct ResultView {
    pub title: Seq<char>,
    pub status: StatusView,
    pub entry: Option<EntryView>,
}

impl View for ApplyResult {
    type V = ResultView;

    open spec fn view(&self) -> ResultView {
        ResultView {
            title: self.title@,
            status: self.status@,
            entry: match self.snapshot_entry {
                Some(e) => Some(e@),
                None => None,
            },
        }
    }
}

/// What to do next: run a command, or stop with a result.
#[derive(Debug)]
pub enum PsStep {
    Run(String),
    Done(ApplyResult),
}

pub enum StepView {
    Run(Seq<char>),
    Done(ResultView),
}

impl View for PsStep {
    type V = StepView;

    open spec fn view(&self) -> StepView {
        match self {
            PsStep::Run(c) => StepView::Run(c@),
            PsStep::Done(r) => StepView::Done(r@),
        }
    }
}

pub open spec fn done(title: Seq<char>, status: StatusView, entry: Option<EntryView>) -> StepView {
    StepView::Done(ResultView { title, status, entry })
}

pub open spec fn entry_view(
    category: Seq<char>,
    key: Seq<char>,
    original: JsonSpec,
    new_value: JsonSpec,
    applied: bool,
) -> EntryView {
    EntryView { category, key, original, new_value, applied }
}

/// `Applied` when `ok`, else `Failed(msg)`.
pub open spec fn applied_or_failed(ok: bool, msg: Seq<char>) -> StatusView {
    if ok {
        StatusView::Applied
    } else {
        StatusView::Failed(msg)
    }
}

pub fn make_entry(
    category: &str,
    key: String,
    original_value: JsonValue,
    new_value: JsonValue,
    applied: bool,
) -> (r: SnapshotEntry)
    ensures
        r@ == entry_view(category@, key@, original_value@, new_value@, applied),
{
    SnapshotEntry { category: category.to_string(), key, original_value, new_value, applied }
}

pub fn status_of(ok: bool, msg: String) -> (r: ChangeStatus)
    ensures
        r@ == applied_or_failed(ok, msg@),
{
    if ok {
        ChangeStatus::Applied
    } else {
        ChangeStatus::Failed(msg)
    }
}

pub fn finish(title: String, status: ChangeStatus, entry: Option<SnapshotEntry>) -> (r: PsStep)
    ensures
        r@ == done(
            title@,
            status@,
            match entry {
                Some(e) => Some(e@),
                None => None,
            },
        ),
{
    PsStep::Done(ApplyResult { title, status, snapshot_entry: entry })
}

// ─── The changes a profile makes ────────────────────────────────────────────

/// One optimization, with what it acts on.
#[derive(Debug, Clone)]
pub enum Change {
    UltimatePerformance,
    UsbSuspendDisable,
    NagleDisable,
    /// On the named network adapter.
    InterruptModDisable(String),
    /// On the named network adapter.
    WakeOnLanDisable(String),
    MouseAccelDisable,
    /// The named service.
    DisableService(String),
    /// The named game executable.
    ProcessPriority(String),
    BackgroundAppsDisable,
}

/// Some element of `excluded` is `key`.
pub open spec fn excludes(excluded: Seq<String>, key: Seq<char>) -> bool {
    exists|i: int| 0 <= i < excluded.len() && (#[trigger] excluded[i])@ == key
}

pub open spec fn change_if(cond: bool, c: Change) -> Seq<Change> {
    if cond {
        seq![c]
    } else {
        seq![]
    }
}

/// The key under which a service's change can be excluded.
pub open spec fn service_key(service: Seq<char>) -> Seq<char> {
    "service_"@ + service
}

/// One change per service to disable whose key is not excluded.
pub open spec fn service_changes(services: Seq<String>, excluded: Seq<String>) -> Seq<Change>
    decreases services.len(),
{
    if services.len() == 0 {
        seq![]
    } else {
        service_changes(services.drop_last(), excluded) + change_if(
            !excludes(excluded, service_key(services.last()@)),
            Change::DisableService(services.last()),
        )
    }
}

/// One priority change per detected game.
pub open spec fn game_changes(games: Seq<crate::types::DetectedGame>) -> Seq<Change> {
    Seq::new(games.len(), |i: int| Change::ProcessPriority(games[i].exe_name))
}

/// The changes a profile makes on given hardware, in the order they are made:
/// power, USB, Nagle, interrupt moderation (only where the adapter supports it),
/// wake-on-LAN, mouse, services, game priorities, background apps. A change
/// whose key is in `excluded` is left out.
pub open spec fn profile_changes(p: Profile, hw: HardwareProfile, excluded: Seq<String>) -> Seq<Change> {
    change_if(p.power_ultimate && !excludes(excluded, "power_ultimate"@), Change::UltimatePerformance)
        + change_if(
        p.usb_suspend_disable && !excludes(excluded, "usb_suspend_disable"@),
        Change::UsbSuspendDisable,
    ) + change_if(p.nagle_disable && !excludes(excluded, "nagle_disable"@), Change::NagleDisable)
        + change_if(
        p.interrupt_mod_disable && hw.network.supports_interrupt_mod && !excludes(
            excluded,
            "interrupt_mod_disable"@,
        ),
        Change::InterruptModDisable(hw.network.adapter_name),
    ) + change_if(
        p.wake_on_lan_disable && !excludes(excluded, "wake_on_lan_disable"@),
        Change::WakeOnLanDisable(hw.network.adapter_name),
    ) + change_if(
        p.mouse_accel_disable && !excludes(excluded, "mouse_accel_disable"@),
        Change::MouseAccelDisable,
    ) + service_changes(p.disable_services@, excluded) + (if p.process_priority_high && !excludes(
        excluded,
        "process_priority_high"@,
    ) {
        game_changes(hw.games@)
    } else {
        seq![]
    }) + change_if(
        p.background_apps_disable && !excludes(excluded, "background_apps_disable"@),
        Change::BackgroundAppsDisable,
    )
}

/// `key` is one of `excluded`.
pub fn is_excluded(excluded: &[String], key: &str) -> (r: bool)
    ensures
        r == excludes(excluded@, key@),
{
    let mut i: usize = 0;
    while i < excluded.len()
        invariant
            i <= excluded.len(),
            forall|k: int| 0 <= k < i ==> (#[trigger] excluded@[k])@ != key@,
        decreases excluded.len() - i,
    {
        if crate::text::text_eq(excluded[i].as_str(), key) {
            return true;
        }
        i += 1;
    }
    false
}

/// `[c]` when `cond`, else nothing.
pub fn change_list(cond: bool, c: Change) -> (r: Vec<Change>)
    ensures
        r@ == change_if(cond, c),
{
    let mut r: Vec<Change> = Vec::new();
    if cond {
        r.push(c);
    }
    assert(r@ =~= change_if(cond, c));
    r
}

/// The service changes of a profile (see [`service_changes`]).
pub fn service_change_list(services: &Vec<String>, excluded: &[String]) -> (r: Vec<Change>)
    ensures
        r@ == service_changes(services@, excluded@),
{
    let mut r: Vec<Change> = Vec::new();
    let mut i: usize = 0;
    assert(services@.take(0) =~= seq![]);
    while i < services.len()
        invariant
            i <= services.len(),
            r@ == service_changes(services@.take(i as int), excluded@),
        decreases services.len() - i,
    {
        assert(services@.take(i + 1).drop_last() =~= services@.take(i as int));
        let mut key = "service_".to_string();
        key.append(services[i].as_str());
        let keep = !is_excluded(excluded, key.as_str());
        let mut c = change_list(keep, Change::DisableService(services[i].clone()));
        r.append(&mut c);
        i += 1;
    }
    assert(services@.take(i as int) =~= services@);
    r
}

/// The priority changes for the detected games (see [`game_changes`]).
pub fn game_change_list(games: &Vec<crate::types::DetectedGame>) -> (r: Vec<Change>)
    ensures
        r@ == game_changes(games@),
{
    let mut r: Vec<Change> = Vec::new();
    let mut j: usize = 0;
    while j < games.len()
        invariant
            j <= games.len(),
            r@ == Seq::new(j as nat, |k: int| Change::ProcessPriority(games@[k].exe_name)),
        decreases games.len() - j,
    {
        r.push(Change::ProcessPriority(games[j].exe_name.clone()));
        j += 1;
        assert(r@ =~= Seq::new(j as nat, |k: int| Change::ProcessPriority(games@[k].exe_name)));
    }
    assert(r@ =~= game_changes(games@));
    r
}

/// The changes that applying `profile` on `hardware` makes, in order, leaving
/// out those whose keys are in `excluded` (see [`profile_changes`]). Each is
/// then carried out with [`apply_step`].
pub fn apply_profile(profile: &Profile, hardware: &HardwareProfile, excluded: &[String]) -> (r: Vec<Change>)
    ensures
        r@ == profile_changes(*profile, *hardware, excluded@),
{
    let mut r = change_list(
        profile.power_ultimate && !is_excluded(excluded, "power_ultimate"),
        Change::UltimatePerformance,
    );
    let mut c = change_list(
        profile.usb_suspend_disable && !is_excluded(excluded, "usb_suspend_disable"),
        Change::UsbSuspendDisable,
    );
    r.append(&mut c);
    let mut c = change_list(
        profile.nagle_disable && !is_excluded(excluded, "nagle_disable"),
        Change::NagleDisable,
    );
    r.append(&mut c);
    let mut c = change_list(
        profile.interrupt_mod_disable && hardware.network.supports_interrupt_mod && !is_excluded(
            excluded,
            "interrupt_mod_disable",
        ),
        Change::InterruptModDisable(hardware.network.adapter_name.clone()),
    );
    r.append(&mut c);
    let mut c = change_list(
        profile.wake_on_lan_disable && !is_excluded(excluded, "wake_on_lan_disable"),
        Change::WakeOnLanDisable(hardware.network.adapter_name.clone()),
    );
    r.append(&mut c);
    let mut c = change_list(
        profile.mouse_accel_disable && !is_excluded(excluded, "mouse_accel_disable"),
        Change::MouseAccelDisable,
    );
    r.append(&mut c);
    let mut c = service_change_list(&profile.disable_services, excluded);
    r.append(&mut c);
    let mut c = if profile.process_priority_high && !is_excluded(excluded, "process_priority_high") {
        game_change_list(&hardware.games)
    } else {
        Vec::new()
    };
    r.append(&mut c);
    let mut c = change_list(
        profile.background_apps_disable && !is_excluded(excluded, "background_apps_disable"),
        Change::BackgroundAppsDisable,
    );
    r.append(&mut c);
    r
}

// ─── Carrying out a change ──────────────────────────────────────────────────

pub open spec fn usb_path() -> Seq<char> {
    "SYSTEM\\CurrentControlSet\\Services\\USB"@
}

pub open spec fn app_privacy_path() -> Seq<char> {
    "SOFTWARE\\Policies\\Microsoft\\Windows\\AppPrivacy"@
}

pub open spec fn interfaces_path() -> Seq<char> {
    "SYSTEM\\CurrentControlSet\\Services\\Tcpip\\Parameters\\Interfaces"@
}

pub open spec fn mouse_path() -> Seq<char> {
    "Control Panel\\Mouse"@
}

/// The registry key of a value, as a snapshot records it: `hive\path\name`.
pub open spec fn value_key(hive: Seq<char>, path: Seq<char>, name: Seq<char>) -> Seq<char> {
    hive + "\\"@ + path + "\\"@ + name
}

/// Setting one DWORD under `HKLM`: read it, write `value`, and report the
/// write with the value read before it.
pub open spec fn dword_change(
    title: Seq<char>,
    path: Seq<char>,
    name: Seq<char>,
    value: u32,
    h: Seq<PsResult>,
) -> StepView {
    if h.len() == 0 {
        StepView::Run(read_registry_cmd("HKLM"@, path, name))
    } else if h.len() == 1 {
        StepView::Run(write_dword_cmd("HKLM"@, path, name, value))
    } else {
        done(
            title,
            applied_or_failed(h[1].success, "Registry write failed"@),
            Some(
                entry_view(
                    "registry"@,
                    value_key("HKLM"@, path, name),
                    json_opt_u32(dword_output(h[0].stdout@)),
                    JsonSpec::Unsigned(value as u64),
                    h[1].success,
                ),
            ),
        )
    }
}

/// Activating the Ultimate Performance power scheme: list the schemes, create
/// it when the list lacks it, read the active scheme, activate it.
pub open spec fn ultimate_change(h: Seq<PsResult>) -> StepView {
    if h.len() == 0 {
        StepView::Run(scripts::power_list_cmd())
    } else {
        let listed = contains(h[0].stdout@, scripts::ultimate_guid());
        let at: int = if listed {
            1
        } else {
            2
        };
        if !listed && h.len() == 1 {
            StepView::Run(scripts::power_duplicate_cmd())
        } else if h.len() == at {
            StepView::Run(scripts::power_active_cmd())
        } else if h.len() == at + 1 {
            StepView::Run(scripts::power_set_cmd(scripts::ultimate_guid()))
        } else if !h[at + 1].success {
            done("Activate Ultimate Performance plan"@, StatusView::Failed(h[at + 1].stderr@), None)
        } else {
            done(
                "Activate Ultimate Performance plan"@,
                StatusView::Applied,
                Some(
                    entry_view(
                        "power_plan"@,
                        "active_scheme"@,
                        JsonSpec::Str(trim(h[at].stdout@)),
                        JsonSpec::Str(scripts::ultimate_guid()),
                        true,
                    ),
                ),
            )
        }
    }
}

/// The registry path of one network interface.
pub open spec fn interface_path(iface: Seq<char>) -> Seq<char> {
    interfaces_path() + "\\"@ + iface
}

/// What the Nagle change records of one interface: its name and the two values
/// read before writing.
pub open spec fn nagle_original(iface: Seq<char>, ack: PsResult, nodelay: PsResult) -> JsonSpec {
    JsonSpec::Object(
        seq![
            ("iface"@, JsonSpec::Str(iface)),
            ("TcpAckFrequency"@, json_opt_u32(dword_output(ack.stdout@))),
            ("TCPNoDelay"@, json_opt_u32(dword_output(nodelay.stdout@))),
        ],
    )
}

/// Both writes of interface `k` succeeded.
pub open spec fn nagle_writes_ok(h: Seq<PsResult>, k: int) -> bool {
    h[3 + 4 * k].success && h[4 + 4 * k].success
}

/// How many of the first `k` interfaces had both writes succeed.
pub open spec fn nagle_applied(h: Seq<PsResult>, k: nat) -> nat
    decreases k,
{
    if k == 0 {
        0
    } else {
        nagle_applied(h, (k - 1) as nat) + if nagle_writes_ok(h, k - 1) {
            1nat
        } else {
            0nat
        }
    }
}

/// Disabling Nagle's algorithm: list the interfaces; for each, read
/// `TcpAckFrequency` and `TCPNoDelay`, then set both to 1.
pub open spec fn nagle_change(h: Seq<PsResult>) -> StepView {
    if h.len() == 0 {
        StepView::Run(scripts::list_subkeys_cmd(interfaces_path()))
    } else {
        let ifaces = nonblank_lines(h[0].stdout@);
        let m = ifaces.len();
        let k = (h.len() - 1) / 4;
        let phase = (h.len() - 1) % 4;
        if k < m {
            let path = interface_path(ifaces[k]);
            if phase == 0 {
                StepView::Run(read_registry_cmd("HKLM"@, path, "TcpAckFrequency"@))
            } else if phase == 1 {
                StepView::Run(read_registry_cmd("HKLM"@, path, "TCPNoDelay"@))
            } else if phase == 2 {
                StepView::Run(write_dword_cmd("HKLM"@, path, "TcpAckFrequency"@, 1))
            } else {
                StepView::Run(write_dword_cmd("HKLM"@, path, "TCPNoDelay"@, 1))
            }
        } else {
            let count = nagle_applied(h, m);
            done(
                "Disable Nagle's Algorithm"@,
                if count > 0 {
                    StatusView::Applied
                } else if m == 0 {
                    StatusView::Skipped("No network interfaces found"@)
                } else {
                    StatusView::Failed("Registry writes failed"@)
                },
                Some(
                    entry_view(
                        "registry"@,
                        "nagle_algorithm"@,
                        JsonSpec::Array(
                            Seq::new(
                                m,
                                |j: int| nagle_original(ifaces[j], h[1 + 4 * j], h[2 + 4 * j]),
                            ),
                        ),
                        JsonSpec::Object(
                            seq![
                                ("TcpAckFrequency"@, JsonSpec::Unsigned(1)),
                                ("TCPNoDelay"@, JsonSpec::Unsigned(1)),
                            ],
                        ),
                        count > 0,
                    ),
                ),
            )
        }
    }
}

/// The value an adapter property held, `"Enabled"` when the read printed nothing.
pub open spec fn nic_original(out: Seq<char>) -> Seq<char> {
    if trim(out).len() == 0 {
        "Enabled"@
    } else {
        trim(out)
    }
}

/// Disabling interrupt moderation on an adapter: read the property, set it to
/// `Disabled`.
pub open spec fn interrupt_change(adapter: Seq<char>, h: Seq<PsResult>) -> StepView {
    if h.len() == 0 {
        StepView::Run(scripts::nic_read_cmd(adapter, "Interrupt Moderation"@))
    } else if h.len() == 1 {
        StepView::Run(scripts::nic_set_cmd(adapter, "Interrupt Moderation"@, "Disabled"@))
    } else {
        done(
            "Disable Interrupt Moderation on "@ + adapter,
            applied_or_failed(h[1].success, h[1].stderr@),
            Some(
                entry_view(
                    "nic"@,
                    adapter + "\\InterruptModeration"@,
                    JsonSpec::Str(nic_original(h[0].stdout@)),
                    JsonSpec::Str("Disabled"@),
                    h[1].success,
                ),
            ),
        )
    }
}

/// Disabling wake-on-LAN on an adapter: read both wake properties, then turn
/// both off; the entry records the value each had.
pub open spec fn wol_change(adapter: Seq<char>, h: Seq<PsResult>) -> StepView {
    if h.len() == 0 {
        StepView::Run(scripts::nic_read_cmd(adapter, "Wake on Magic Packet"@))
    } else if h.len() == 1 {
        StepView::Run(scripts::nic_read_cmd(adapter, "Wake on Pattern Match"@))
    } else if h.len() == 2 {
        StepView::Run(scripts::wol_disable_cmd(adapter))
    } else {
        done(
            "Disable Wake-on-LAN"@,
            if h[2].success {
                StatusView::Applied
            } else {
                StatusView::Skipped("WoL settings not found"@)
            },
            Some(
                entry_view(
                    "nic"@,
                    adapter + "\\WakeOnLAN"@,
                    JsonSpec::Object(
                        seq![
                            ("Wake on Magic Packet"@, JsonSpec::Str(nic_original(h[0].stdout@))),
                            ("Wake on Pattern Match"@, JsonSpec::Str(nic_original(h[1].stdout@))),
                        ],
                    ),
                    JsonSpec::Str("Disabled"@),
                    h[2].success,
                ),
            ),
        )
    }
}

/// All three mouse writes succeeded.
pub open spec fn mouse_writes_ok(h: Seq<PsResult>) -> bool {
    h[3].success && h[4].success && h[5].success
}

/// Disabling mouse acceleration: read `MouseSpeed` and both thresholds, set all
/// three to `0`, and, when all three writes succeeded, flatten the curve. The
/// entry records the three values read (null where there was none).
pub open spec fn mouse_change(h: Seq<PsResult>) -> StepView {
    if h.len() == 0 {
        StepView::Run(read_registry_cmd("HKCU"@, mouse_path(), "MouseSpeed"@))
    } else if h.len() == 1 {
        StepView::Run(read_registry_cmd("HKCU"@, mouse_path(), "MouseThreshold1"@))
    } else if h.len() == 2 {
        StepView::Run(read_registry_cmd("HKCU"@, mouse_path(), "MouseThreshold2"@))
    } else if h.len() == 3 {
        StepView::Run(write_string_cmd("HKCU"@, mouse_path(), "MouseSpeed"@, "0"@))
    } else if h.len() == 4 {
        StepView::Run(write_string_cmd("HKCU"@, mouse_path(), "MouseThreshold1"@, "0"@))
    } else if h.len() == 5 {
        StepView::Run(write_string_cmd("HKCU"@, mouse_path(), "MouseThreshold2"@, "0"@))
    } else if h.len() == 6 && mouse_writes_ok(h) {
        StepView::Run(scripts::mouse_curve_cmd())
    } else {
        done(
            "Disable Mouse Acceleration"@,
            applied_or_failed(mouse_writes_ok(h), "Registry write failed"@),
            Some(
                entry_view(
                    "registry"@,
                    "mouse_acceleration"@,
                    JsonSpec::Object(
                        seq![
                            ("MouseSpeed"@, json_opt_str(string_output(h[0].stdout@))),
                            ("MouseThreshold1"@, json_opt_str(string_output(h[1].stdout@))),
                            ("MouseThreshold2"@, json_opt_str(string_output(h[2].stdout@))),
                        ],
                    ),
                    JsonSpec::Object(
                        seq![
                            ("MouseSpeed"@, JsonSpec::Str("0"@)),
                            ("MouseThreshold1"@, JsonSpec::Str("0"@)),
                            ("MouseThreshold2"@, JsonSpec::Str("0"@)),
                        ],
                    ),
                    mouse_writes_ok(h),
                ),
            ),
        )
    }
}

/// Disabling a service: read its startup type; skip it when it is missing or
/// already disabled; else stop and disable it.
pub open spec fn service_change(service: Seq<char>, h: Seq<PsResult>) -> StepView {
    if h.len() == 0 {
        StepView::Run(scripts::service_query_cmd(service))
    } else {
        let current = trim(h[0].stdout@);
        if current.len() == 0 || !h[0].success {
            done(
                "Disable "@ + service,
                StatusView::Skipped("Service "@ + service + " not found"@),
                None,
            )
        } else if current == "Disabled"@ {
            done("Disable "@ + service, StatusView::Skipped("Already disabled"@), None)
        } else if h.len() == 1 {
            StepView::Run(scripts::service_disable_cmd(service))
        } else {
            done(
                "Disable "@ + service,
                applied_or_failed(h[1].success, h[1].stderr@),
                Some(
                    entry_view(
                        "service"@,
                        service,
                        JsonSpec::Str(current),
                        JsonSpec::Str("Disabled"@),
                        h[1].success,
                    ),
                ),
            )
        }
    }
}

/// Raising the CPU priority of a game through its Image File Execution Options.
pub open spec fn priority_change(exe: Seq<char>, h: Seq<PsResult>) -> StepView {
    if h.len() == 0 {
        StepView::Run(scripts::priority_cmd(scripts::ifeo_path(exe)))
    } else {
        done(
            "Set "@ + exe + " priority to High"@,
            applied_or_failed(h[0].success, h[0].stderr@),
            Some(
                entry_view(
                    "registry"@,
                    "IFEO\\"@ + exe,
                    JsonSpec::Null,
                    JsonSpec::Unsigned(3),
                    h[0].success,
                ),
            ),
        )
    }
}

/// The next step of carrying out change `c`, after the commands whose outcomes
/// are `h`.
pub open spec fn change_step(c: Change, h: Seq<PsResult>) -> StepView {
    match c {
        Change::UltimatePerformance => ultimate_change(h),
        Change::UsbSuspendDisable => dword_change(
            "Disable USB Selective Suspend"@,
            usb_path(),
            "DisableSelectiveSuspend"@,
            1,
            h,
        ),
        Change::NagleDisable => nagle_change(h),
        Change::InterruptModDisable(a) => interrupt_change(a@, h),
        Change::WakeOnLanDisable(a) => wol_change(a@, h),
        Change::MouseAccelDisable => mouse_change(h),
        Change::DisableService(s) => service_change(s@, h),
        Change::ProcessPriority(e) => priority_change(e@, h),
        Change::BackgroundAppsDisable => dword_change(
            "Disable background apps"@,
            app_privacy_path(),
            "LetAppsRunInBackground"@,
            2,
            h,
        ),
    }
}

/// `hive\path\name` (see [`value_key`]).
pub fn value_key_of(hive: &str, path: &str, name: &str) -> (r: String)
    ensures
        r@ == value_key(hive@, path@, name@),
{
    let mut r = hive.to_string();
    r.append("\\");
    r.append(path);
    r.append("\\");
    r.append(name);
    r
}

/// `a + b`.
pub fn joined(a: &str, b: &str) -> (r: String)
    ensures
        r@ == a@ + b@,
{
    let mut r = a.to_string();
    r.append(b);
    r
}

/// `a + b + c`.
pub fn joined3(a: &str, b: &str, c: &str) -> (r: String)
    ensures
        r@ == a@ + b@ + c@,
{
    let mut r = a.to_string();
    r.append(b);
    r.append(c);
    r
}

pub fn dword_change_step(title: &str, path: &str, name: &str, value: u32, h: &[PsResult]) -> (r: PsStep)
    ensures
        r@ == dword_change(title@, path@, name@, value, h@),
{
    if h.len() == 0 {
        return PsStep::Run(read_registry_command("HKLM", path, name));
    }
    if h.len() == 1 {
        return PsStep::Run(write_registry_dword("HKLM", path, name, value));
    }
    let original = json_of_opt_u32(read_registry_dword(h[0].stdout.as_str()));
    let entry = make_entry(
        "registry",
        value_key_of("HKLM", path, name),
        original,
        json_unsigned(value as u64),
        h[1].success,
    );
    finish(
        title.to_string(),
        status_of(h[1].success, "Registry write failed".to_string()),
        Some(entry),
    )
}

pub fn ultimate_step(h: &[PsResult]) -> (r: PsStep)
    ensures
        r@ == ultimate_change(h@),
{
    if h.len() == 0 {
        return PsStep::Run(scripts::power_list_command());
    }
    let guid = scripts::ultimate_guid_string();
    let listed = str_contains(h[0].stdout.as_str(), guid.as_str());
    let at: usize = if listed {
        1
    } else {
        2
    };
    if !listed && h.len() == 1 {
        return PsStep::Run(scripts::power_duplicate_command());
    }
    if h.len() == at {
        return PsStep::Run(scripts::power_active_command());
    }
    if h.len() == at + 1 {
        return PsStep::Run(scripts::power_set_command(guid.as_str()));
    }
    if !h[at + 1].success {
        return finish(
            "Activate Ultimate Performance plan".to_string(),
            ChangeStatus::Failed(h[at + 1].stderr.clone()),
            None,
        );
    }
    let current = trim_str(h[at].stdout.as_str());
    let entry = make_entry(
        "power_plan",
        "active_scheme".to_string(),
        JsonValue::Str(current),
        JsonValue::Str(guid),
        true,
    );
    finish("Activate Ultimate Performance plan".to_string(), ChangeStatus::Applied, Some(entry))
}

/// The registry path of one network interface (see [`interface_path`]).
pub fn interface_path_of(iface: &str) -> (r: String)
    ensures
        r@ == interface_path(iface@),
{
    joined3("SYSTEM\\CurrentControlSet\\Services\\Tcpip\\Parameters\\Interfaces", "\\", iface)
}

pub fn nagle_step(h: &[PsResult]) -> (r: PsStep)
    ensures
        r@ == nagle_change(h@),
{
    if h.len() == 0 {
        return PsStep::Run(
            scripts::list_subkeys_command("SYSTEM\\CurrentControlSet\\Services\\Tcpip\\Parameters\\Interfaces"),
        );
    }
    let lines = nonblank_lines_of(h[0].stdout.as_str());
    let ghost ifaces = nonblank_lines(h@[0].stdout@);
    let m = lines.len();
    let n = h.len();
    let k = (n - 1) / 4;
    let phase = (n - 1) % 4;
    if k < m {
        let iface = lines[k].clone();
        let path = interface_path_of(iface.as_str());
        if phase == 0 {
            return PsStep::Run(read_registry_command("HKLM", path.as_str(), "TcpAckFrequency"));
        } else if phase == 1 {
            return PsStep::Run(read_registry_command("HKLM", path.as_str(), "TCPNoDelay"));
        } else if phase == 2 {
            return PsStep::Run(write_registry_dword("HKLM", path.as_str(), "TcpAckFrequency", 1));
        } else {
            return PsStep::Run(write_registry_dword("HKLM", path.as_str(), "TCPNoDelay", 1));
        }
    }
    let mut originals: Vec<JsonValue> = Vec::new();
    let mut count: usize = 0;
    let mut j: usize = 0;
    while j < m
        invariant
            j <= m,
            m == lines@.len(),
            m == ifaces.len(),
            n == h@.len(),
            k == (n - 1) / 4,
            m <= k,
            forall|i: int| 0 <= i < m ==> #[trigger] lines@[i]@ == ifaces[i],
            ifaces == nonblank_lines(h@[0].stdout@),
            originals@.len() == j,
            forall|i: int|
                0 <= i < j ==> #[trigger] originals@[i]@ == nagle_original(
                    ifaces[i],
                    h@[1 + 4 * i],
                    h@[2 + 4 * i],
                ),
            count == nagle_applied(h@, j as nat),
            count <= j,
        decreases m - j,
    {
        let iface = lines[j].clone();
        let o = json_object3(
            "iface",
            JsonValue::Str(iface),
            "TcpAckFrequency",
            json_of_opt_u32(read_registry_dword(h[1 + 4 * j].stdout.as_str())),
            "TCPNoDelay",
            json_of_opt_u32(read_registry_dword(h[2 + 4 * j].stdout.as_str())),
        );
        originals.push(o);
        if h[3 + 4 * j].success && h[4 + 4 * j].success {
            count = count + 1;
        }
        j += 1;
    }
    let ghost olds = originals@;
    let array = json_array(originals);
    assert(array@ == JsonSpec::Array(
        Seq::new(m as nat, |i: int| nagle_original(ifaces[i], h@[1 + 4 * i], h@[2 + 4 * i])),
    )) by {
        assert(Seq::new(olds.len(), |i: int| olds[i]@) =~= Seq::new(
            m as nat,
            |i: int| nagle_original(ifaces[i], h@[1 + 4 * i], h@[2 + 4 * i]),
        ));
    }
    let status = if count > 0 {
        ChangeStatus::Applied
    } else if m == 0 {
        ChangeStatus::Skipped("No network interfaces found".to_string())
    } else {
        ChangeStatus::Failed("Registry writes failed".to_string())
    };
    let entry = make_entry(
        "registry",
        "nagle_algorithm".to_string(),
        array,
        json_object2("TcpAckFrequency", json_unsigned(1), "TCPNoDelay", json_unsigned(1)),
        count > 0,
    );
    finish("Disable Nagle's Algorithm".to_string(), status, Some(entry))
}

/// The value an adapter property held (see [`nic_original`]).
pub fn nic_original_of(out: &str) -> (r: String)
    ensures
        r@ == nic_original(out@),
{
    let t = trim_str(out);
    if crate::text::is_blank_text(t.as_str()) {
        "Enabled".to_string()
    } else {
        t
    }
}

pub fn interrupt_step(adapter: &str, h: &[PsResult]) -> (r: PsStep)
    ensures
        r@ == interrupt_change(adapter@, h@),
{
    if h.len() == 0 {
        return PsStep::Run(scripts::nic_read_command(adapter, "Interrupt Moderation"));
    }
    if h.len() == 1 {
        return PsStep::Run(scripts::nic_set_command(adapter, "Interrupt Moderation", "Disabled"));
    }
    let entry = make_entry(
        "nic",
        joined(adapter, "\\InterruptModeration"),
        JsonValue::Str(nic_original_of(h[0].stdout.as_str())),
        json_str("Disabled"),
        h[1].success,
    );
    finish(
        joined("Disable Interrupt Moderation on ", adapter),
        status_of(h[1].success, h[1].stderr.clone()),
        Some(entry),
    )
}

pub fn wol_step(adapter: &str, h: &[PsResult]) -> (r: PsStep)
    ensures
        r@ == wol_change(adapter@, h@),
{
    if h.len() == 0 {
        return PsStep::Run(scripts::nic_read_command(adapter, "Wake on Magic Packet"));
    }
    if h.len() == 1 {
        return PsStep::Run(scripts::nic_read_command(adapter, "Wake on Pattern Match"));
    }
    if h.len() == 2 {
        return PsStep::Run(scripts::wol_disable_command(adapter));
    }
    let entry = make_entry(
        "nic",
        joined(adapter, "\\WakeOnLAN"),
        json_object2(
            "Wake on Magic Packet",
            JsonValue::Str(nic_original_of(h[0].stdout.as_str())),
            "Wake on Pattern Match",
            JsonValue::Str(nic_original_of(h[1].stdout.as_str())),
        ),
        json_str("Disabled"),
        h[2].success,
    );
    let status = if h[2].success {
        ChangeStatus::Applied
    } else {
        ChangeStatus::Skipped("WoL settings not found".to_string())
    };
    finish("Disable Wake-on-LAN".to_string(), status, Some(entry))
}

pub fn mouse_step(h: &[PsResult]) -> (r: PsStep)
    ensures
        r@ == mouse_change(h@),
{
    if h.len() == 0 {
        return PsStep::Run(read_registry_command("HKCU", "Control Panel\\Mouse", "MouseSpeed"));
    }
    if h.len() == 1 {
        return PsStep::Run(read_registry_command("HKCU", "Control Panel\\Mouse", "MouseThreshold1"));
    }
    if h.len() == 2 {
        return PsStep::Run(read_registry_command("HKCU", "Control Panel\\Mouse", "MouseThreshold2"));
    }
    if h.len() == 3 {
        return PsStep::Run(write_registry_string("HKCU", "Control Panel\\Mouse", "MouseSpeed", "0"));
    }
    if h.len() == 4 {
        return PsStep::Run(
            write_registry_string("HKCU", "Control Panel\\Mouse", "MouseThreshold1", "0"),
        );
    }
    if h.len() == 5 {
        return PsStep::Run(
            write_registry_string("HKCU", "Control Panel\\Mouse", "MouseThreshold2", "0"),
        );
    }
    let ok = h[3].success && h[4].success && h[5].success;
    if h.len() == 6 && ok {
        return PsStep::Run(scripts::mouse_curve_command());
    }
    let entry = make_entry(
        "registry",
        "mouse_acceleration".to_string(),
        json_object3(
            "MouseSpeed",
            json_of_opt_string(read_registry_string(h[0].stdout.as_str())),
            "MouseThreshold1",
            json_of_opt_string(read_registry_string(h[1].stdout.as_str())),
            "MouseThreshold2",
            json_of_opt_string(read_registry_string(h[2].stdout.as_str())),
        ),
        json_object3(
            "MouseSpeed",
            json_str("0"),
            "MouseThreshold1",
            json_str("0"),
            "MouseThreshold2",
            json_str("0"),
        ),
        ok,
    );
    finish(
        "Disable Mouse Acceleration".to_string(),
        status_of(ok, "Registry write failed".to_string()),
        Some(entry),
    )
}

pub fn service_step(service: &str, h: &[PsResult]) -> (r: PsStep)
    ensures
        r@ == service_change(service@, h@),
{
    if h.len() == 0 {
        return PsStep::Run(scripts::service_query_command(service));
    }
    let current = trim_str(h[0].stdout.as_str());
    let title = joined("Disable ", service);
    if crate::text::is_blank_text(current.as_str()) || !h[0].success {
        return finish(
            title,
            ChangeStatus::Skipped(joined3("Service ", service, " not found")),
            None,
        );
    }
    if crate::text::text_eq(current.as_str(), "Disabled") {
        return finish(title, ChangeStatus::Skipped("Already disabled".to_string()), None);
    }
    if h.len() == 1 {
        return PsStep::Run(scripts::service_disable_command(service));
    }
    let entry = make_entry(
        "service",
        service.to_string(),
        JsonValue::Str(current),
        json_str("Disabled"),
        h[1].success,
    );
    finish(title, status_of(h[1].success, h[1].stderr.clone()), Some(entry))
}

pub fn priority_step(exe: &str, h: &[PsResult]) -> (r: PsStep)
    ensures
        r@ == priority_change(exe@, h@),
{
    if h.len() == 0 {
        let path = scripts::ifeo_path_of(exe);
        return PsStep::Run(scripts::priority_command(path.as_str()));
    }
    let entry = make_entry(
        "registry",
        joined("IFEO\\", exe),
        JsonValue::Null,
        json_unsigned(3),
        h[0].success,
    );
    finish(
        joined3("Set ", exe, " priority to High"),
        status_of(h[0].success, h[0].stderr.clone()),
        Some(entry),
    )
}

/// The next step of carrying out `change`, given the outcomes `history` of the
/// commands it has run so far (see [`change_step`]).
pub fn apply_step(change: &Change, history: &[PsResult]) -> (r: PsStep)
    ensures
        r@ == change_step(*change, history@),
{
    match change {
        Change::UltimatePerformance => ultimate_step(history),
        Change::UsbSuspendDisable => dword_change_step(
            "Disable USB Selective Suspend",
            "SYSTEM\\CurrentControlSet\\Services\\USB",
            "DisableSelectiveSuspend",
            1,
            history,
        ),
        Change::NagleDisable => nagle_step(history),
        Change::InterruptModDisable(a) => interrupt_step(a.as_str(), history),
        Change::WakeOnLanDisable(a) => wol_step(a.as_str(), history),
        Change::MouseAccelDisable => mouse_step(history),
        Change::DisableService(s) => service_step(s.as_str(), history),
        Change::ProcessPriority(e) => priority_step(e.as_str(), history),
        Change::BackgroundAppsDisable => dword_change_step(
            "Disable background apps",
            "SOFTWARE\\Policies\\Microsoft\\Windows\\AppPrivacy",
            "LetAppsRunInBackground",
            2,
            history,
        ),
    }
}

} // verus!
