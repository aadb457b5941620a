//! What undoing a change does with what the change recorded, and how the
//! exclusion list shapes the changes a profile makes.
use vstd::prelude::*;
use crate::json::{JsonSpec, json_opt_u32, lemma_pairs_get_at};
use crate::optimizer::{Change, change_if, done, entry_view, StatusView, applied_or_failed, excludes, game_changes, profile_changes, service_changes, service_key, PsResult, StepView, app_privacy_path, change_step, interface_path, mouse_path, nagle_original, nic_original, usb_path, value_key};
use crate::registry::{dword_output, read_registry_cmd, string_output, write_dword_cmd, write_string_cmd};
use crate::revert::{all_succeeded, nagle_item_cmds, nagle_restore_cmds, revert_entry_step};
use crate::scripts;
use crate::types::{EntryView, HardwareProfile, Profile};
use crate::detector::{WmiMemory, capacity_sum, edition_of};
use crate::text::{contains, all_digits, decimal, digit_char, digits_value, is_digit, is_ws, parse_u32, trim_end, trim_start, index_of, last_index_of, lemma_index_of, lemma_last_index_of, nonblank_lines, starts_with, trim};

verus! {

broadcast use vstd::string::group_string_axioms;

/// A character absent from `a` first occurs in `a + [c] + b` right after `a`.
pub proof fn lemma_index_of_split(a: Seq<char>, b: Seq<char>, c: char)
    requires
        forall|k: int| 0 <= k < a.len() ==> a[k] != c,
    ensures
        index_of(a + seq![c] + b, c) == Some(a.len() as int),
{
    let s = a + seq![c] + b;
    lemma_index_of(s, c);
    assert(s[a.len() as int] == c);
    match index_of(s, c) {
        Some(i) => {
            if i < a.len() {
                assert(s[i] == a[i]);
            }
        },
        None => {},
    }
}

/// A character absent from `b` last occurs in `a + [c] + b` right after `a`.
pub proof fn lemma_last_index_of_split(a: Seq<char>, b: Seq<char>, c: char)
    requires
        forall|k: int| 0 <= k < b.len() ==> b[k] != c,
    ensures
        last_index_of(a + seq![c] + b, c) == Some(a.len() as int),
{
    let s = a + seq![c] + b;
    lemma_last_index_of(s, c);
    assert(s[a.len() as int] == c);
    match last_index_of(s, c) {
        Some(i) => {
            if i > a.len() {
                assert(s[i] == b[i - a.len() - 1]);
            }
        },
        None => {},
    }
}

/// Splitting `hive\path\name` at its first and its last backslash gives back
/// the three parts, when neither hive nor name holds a backslash.
pub proof fn lemma_value_key_split(hive: Seq<char>, path: Seq<char>, name: Seq<char>)
    requires
        forall|k: int| 0 <= k < hive.len() ==> hive[k] != '\\',
        forall|k: int| 0 <= k < name.len() ==> name[k] != '\\',
    ensures
        index_of(value_key(hive, path, name), '\\') == Some(hive.len() as int),
        value_key(hive, path, name).take(hive.len() as int) == hive,
        last_index_of(value_key(hive, path, name).skip(hive.len() as int + 1), '\\') == Some(path.len() as int),
        value_key(hive, path, name).skip(hive.len() as int + 1).take(path.len() as int) == path,
        value_key(hive, path, name).skip(hive.len() as int + 1).skip(path.len() as int + 1) == name,
{
    reveal_strlit("\\");
    let key = value_key(hive, path, name);
    let rest = path + seq!['\\'] + name;
    assert(key =~= hive + seq!['\\'] + rest);
    lemma_index_of_split(hive, rest, '\\');
    assert(key.take(hive.len() as int) =~= hive);
    assert(key.skip(hive.len() as int + 1) =~= rest);
    lemma_last_index_of_split(path, name, '\\');
    assert(rest.take(path.len() as int) =~= path);
    assert(rest.skip(path.len() as int + 1) =~= name);
}

/// Where a DWORD change writes: its registry path, value name, and new value.
pub open spec fn dword_target(c: Change) -> (Seq<char>, Seq<char>, u32) {
    if c is UsbSuspendDisable {
        (usb_path(), "DisableSelectiveSuspend"@, 1)
    } else {
        (app_privacy_path(), "LetAppsRunInBackground"@, 2)
    }
}

/// A DWORD change reads the value under `HKLM` before it writes it; undoing
/// what it recorded writes the value read back to the same place, or removes
/// the value when the read found none.
pub proof fn law_dword_rollback(c: Change, h: Seq<PsResult>)
    requires
        c is UsbSuspendDisable || c is BackgroundAppsDisable,
        h.len() >= 2,
    ensures
        ({
            let (path, name, value) = dword_target(c);
            &&& change_step(c, seq![]) == StepView::Run(read_registry_cmd("HKLM"@, path, name))
            &&& change_step(c, h.take(1)) == StepView::Run(
                write_dword_cmd("HKLM"@, path, name, value),
            )
            &&& change_step(c, h) is Done
            &&& change_step(c, h)->Done_0.entry is Some
            &&& revert_entry_step(change_step(c, h)->Done_0.entry->0, seq![]) == StepView::Run(
                match dword_output(h[0].stdout@) {
                    Some(v) => write_dword_cmd("HKLM"@, path, name, v),
                    None => scripts::remove_value_cmd("HKLM"@, path, name),
                },
            )
        }),
{
    reveal_strlit("HKLM");
    reveal_strlit("DisableSelectiveSuspend");
    reveal_strlit("LetAppsRunInBackground");
    reveal_strlit("registry");
    reveal_strlit("power_plan");
    reveal_strlit("nagle_algorithm");
    reveal_strlit("mouse_acceleration");
    reveal_strlit("IFEO\\");
    reveal_strlit("\\");
    let (path, name, value) = dword_target(c);
    assert(h.take(1).len() == 1);
    let e = change_step(c, h)->Done_0.entry->0;
    let key = value_key("HKLM"@, path, name);
    assert(e.key == key);
    assert(e.category == "registry"@);
    assert(e.category != "power_plan"@);
    assert(key[0] == 'H');
    assert(key != "nagle_algorithm"@);
    assert(key != "mouse_acceleration"@);
    assert(!starts_with(key, "IFEO\\"@)) by {
        if starts_with(key, "IFEO\\"@) {
            assert(key.subrange(0, 5)[0] == 'I');
        }
    }
    lemma_value_key_split("HKLM"@, path, name);
    assert(e.original == json_opt_u32(dword_output(h[0].stdout@)));
}

/// The literals that the revert dispatch compares against are distinct.
proof fn reveal_dispatch_literals()
    ensures
        "registry"@ != "power_plan"@,
        "service"@ != "power_plan"@,
        "service"@ != "registry"@,
        "nic"@ != "power_plan"@,
        "nic"@ != "registry"@,
        "nic"@ != "service"@,
        "IFEO\\"@ == seq!['I', 'F', 'E', 'O', '\\'],
        "nagle_algorithm"@.len() > 0 && "nagle_algorithm"@[0] == 'n',
        "mouse_acceleration"@.len() > 0 && "mouse_acceleration"@[0] == 'm',
        "\\"@ == seq!['\\'],
{
    reveal_strlit("registry");
    reveal_strlit("power_plan");
    reveal_strlit("service");
    reveal_strlit("nic");
    reveal_strlit("nagle_algorithm");
    reveal_strlit("mouse_acceleration");
    reveal_strlit("IFEO\\");
    reveal_strlit("\\");
    assert("registry"@.len() == 8);
    assert("power_plan"@.len() == 10);
    assert("service"@.len() == 7);
    assert("nic"@.len() == 3);
    assert("nagle_algorithm"@[0] == 'n');
    assert("mouse_acceleration"@[0] == 'm');
    assert("IFEO\\"@ =~= seq!['I', 'F', 'E', 'O', '\\']);
    assert("\\"@ =~= seq!['\\']);
}

/// Disabling a service records the startup type it had; undoing that sets the
/// startup type back and, since it was not `Disabled`, starts the service.
pub proof fn law_service_rollback(svc: String, h: Seq<PsResult>, x: PsResult)
    requires
        change_step(Change::DisableService(svc), h) is Done,
        change_step(Change::DisableService(svc), h)->Done_0.entry is Some,
    ensures
        ({
            let e = change_step(Change::DisableService(svc), h)->Done_0.entry->0;
            let startup = trim(h[0].stdout@);
            &&& change_step(Change::DisableService(svc), seq![]) == StepView::Run(
                scripts::service_query_cmd(svc@),
            )
            &&& startup != "Disabled"@
            &&& e.original == JsonSpec::Str(startup)
            &&& revert_entry_step(e, seq![]) == StepView::Run(scripts::service_set_cmd(svc@, startup))
            &&& revert_entry_step(e, seq![x]) == StepView::Run(scripts::service_start_cmd(svc@))
        }),
{
    reveal_dispatch_literals();
}

/// Disabling interrupt moderation reads the property before it sets it, and
/// records the value read; undoing that sets the same property of the same
/// adapter back to it. (An adapter whose name
/// holds a backslash breaks the key apart elsewhere.)
pub proof fn law_interrupt_rollback(adapter: String, h: Seq<PsResult>)
    requires
        h.len() >= 2,
        forall|k: int| 0 <= k < adapter@.len() ==> adapter@[k] != '\\',
    ensures
        ({
            let c = Change::InterruptModDisable(adapter);
            &&& change_step(c, seq![]) == StepView::Run(
                scripts::nic_read_cmd(adapter@, "Interrupt Moderation"@),
            )
            &&& change_step(c, h.take(1)) == StepView::Run(
                scripts::nic_set_cmd(adapter@, "Interrupt Moderation"@, "Disabled"@),
            )
            &&& change_step(c, h)->Done_0.entry is Some
            &&& revert_entry_step(change_step(c, h)->Done_0.entry->0, seq![]) == StepView::Run(
                scripts::nic_set_cmd(adapter@, "Interrupt Moderation"@, nic_original(h[0].stdout@)),
            )
        }),
{
    reveal_dispatch_literals();
    reveal_strlit("\\InterruptModeration");
    reveal_strlit("InterruptModeration");
    reveal_strlit("WakeOnLAN");
    reveal_strlit("\\");
    assert("InterruptModeration"@[0] != "WakeOnLAN"@[0]);
    assert(h.take(1).len() == 1);
    let key = adapter@ + "\\InterruptModeration"@;
    assert(key =~= adapter@ + seq!['\\'] + "InterruptModeration"@);
    lemma_index_of_split(adapter@, "InterruptModeration"@, '\\');
    assert(key.take(adapter@.len() as int) =~= adapter@);
    assert(key.skip(adapter@.len() as int + 1) =~= "InterruptModeration"@);
}

/// Disabling wake-on-LAN reads both wake properties before it turns them off,
/// and records both values; undoing that sets each property of the same adapter
/// back to the value recorded for it.
pub proof fn law_wol_rollback(adapter: String, h: Seq<PsResult>, x: PsResult)
    requires
        h.len() >= 3,
        forall|k: int| 0 <= k < adapter@.len() ==> adapter@[k] != '\\',
    ensures
        ({
            let c = Change::WakeOnLanDisable(adapter);
            &&& change_step(c, seq![]) == StepView::Run(
                scripts::nic_read_cmd(adapter@, "Wake on Magic Packet"@),
            )
            &&& change_step(c, h.take(1)) == StepView::Run(
                scripts::nic_read_cmd(adapter@, "Wake on Pattern Match"@),
            )
            &&& change_step(c, h.take(2)) == StepView::Run(scripts::wol_disable_cmd(adapter@))
            &&& change_step(c, h)->Done_0.entry is Some
            &&& revert_entry_step(change_step(c, h)->Done_0.entry->0, seq![]) == StepView::Run(
                scripts::nic_set_cmd(adapter@, "Wake on Magic Packet"@, nic_original(h[0].stdout@)),
            )
            &&& revert_entry_step(change_step(c, h)->Done_0.entry->0, seq![x]) == StepView::Run(
                scripts::nic_set_cmd(adapter@, "Wake on Pattern Match"@, nic_original(h[1].stdout@)),
            )
        }),
{
    reveal_dispatch_literals();
    reveal_strlit("\\WakeOnLAN");
    reveal_strlit("WakeOnLAN");
    reveal_strlit("\\");
    reveal_strlit("Wake on Magic Packet");
    reveal_strlit("Wake on Pattern Match");
    assert(h.take(1).len() == 1);
    assert(h.take(2).len() == 2);
    let key = adapter@ + "\\WakeOnLAN"@;
    assert(key =~= adapter@ + seq!['\\'] + "WakeOnLAN"@);
    lemma_index_of_split(adapter@, "WakeOnLAN"@, '\\');
    assert(key.take(adapter@.len() as int) =~= adapter@);
    assert(key.skip(adapter@.len() as int + 1) =~= "WakeOnLAN"@);
    let e = change_step(Change::WakeOnLanDisable(adapter), h)->Done_0.entry->0;
    let ps = e.original->Object_0;
    assert("Wake on Magic Packet"@[8] != "Wake on Pattern Match"@[8]);
    lemma_pairs_get_at(ps, 0);
    lemma_pairs_get_at(ps, 1);
}

/// Activating Ultimate Performance records the scheme that was active; undoing
/// that activates the recorded scheme again.
pub proof fn law_power_rollback(h: Seq<PsResult>)
    requires
        change_step(Change::UltimatePerformance, h) is Done,
        change_step(Change::UltimatePerformance, h)->Done_0.entry is Some,
    ensures
        exists|k: int|
            0 <= k < h.len() && #[trigger] change_step(Change::UltimatePerformance, h.take(k))
                == StepView::Run(scripts::power_active_cmd()) && revert_entry_step(
                change_step(Change::UltimatePerformance, h)->Done_0.entry->0,
                seq![],
            ) == StepView::Run(scripts::power_set_cmd(trim(h[k].stdout@))),
{
    reveal_dispatch_literals();
    let listed = crate::text::contains(h[0].stdout@, scripts::ultimate_guid());
    let at: int = if listed {
        1
    } else {
        2
    };
    assert(h.take(at).len() == at);
    assert(h.take(at)[0] == h[0]);
    assert(change_step(Change::UltimatePerformance, h.take(at)) == StepView::Run(
        scripts::power_active_cmd(),
    ));
}

/// Raising a game's priority creates its Image File Execution Options key;
/// undoing that removes the same key, and fails when the removal fails.
pub proof fn law_priority_rollback(exe: String, h: Seq<PsResult>, x: PsResult)
    requires
        h.len() >= 1,
    ensures
        ({
            let c = Change::ProcessPriority(exe);
            &&& change_step(c, seq![]) == StepView::Run(scripts::priority_cmd(scripts::ifeo_path(exe@)))
            &&& change_step(c, h)->Done_0.entry is Some
            &&& revert_entry_step(change_step(c, h)->Done_0.entry->0, seq![]) == StepView::Run(
                scripts::remove_key_cmd(scripts::ifeo_path(exe@)),
            )
            &&& revert_entry_step(change_step(c, h)->Done_0.entry->0, seq![x]) == done(
                "Remove "@ + exe@ + " priority override"@,
                applied_or_failed(x.success, x.stderr@),
                None,
            )
        }),
{
    reveal_dispatch_literals();
    let key = "IFEO\\"@ + exe@;
    assert(key[0] == 'I');
    assert(key != "nagle_algorithm"@);
    assert(key != "mouse_acceleration"@);
    assert(key.subrange(0, 5) =~= "IFEO\\"@);
    assert(key.skip(5) =~= exe@);
}

/// Writing back a mouse setting: the text the read found, or `default` when
/// it found none.
pub open spec fn restore_text(name: Seq<char>, read: PsResult, default: Seq<char>) -> Seq<char> {
    write_string_cmd(
        "HKCU"@,
        mouse_path(),
        name,
        match string_output(read.stdout@) {
            Some(s) => s,
            None => default,
        },
    )
}

/// What putting back a recorded registry DWORD gives: the number written
/// back, or the value removed when the read found none.
pub open spec fn restore_dword(hive: Seq<char>, path: Seq<char>, name: Seq<char>, read: PsResult) -> Seq<char> {
    match dword_output(read.stdout@) {
        Some(v) => write_dword_cmd(hive, path, name, v),
        None => scripts::remove_value_cmd(hive, path, name),
    }
}

proof fn reveal_mouse_names()
    ensures
        "MouseSpeed"@ != "MouseThreshold1"@,
        "MouseSpeed"@ != "MouseThreshold2"@,
        "MouseThreshold1"@ != "MouseThreshold2"@,
{
    reveal_strlit("MouseSpeed");
    reveal_strlit("MouseThreshold1");
    reveal_strlit("MouseThreshold2");
    assert("MouseSpeed"@.len() != "MouseThreshold1"@.len());
    assert("MouseSpeed"@.len() != "MouseThreshold2"@.len());
    assert("MouseThreshold1"@[14] != "MouseThreshold2"@[14]);
}

/// Disabling mouse acceleration reads `MouseSpeed` and both thresholds before
/// it writes them, and records the three; undoing that writes each back as
/// recorded (`"1"`, `"6"` and `"10"` for one that was absent), and is `Applied`
/// exactly when all three writes succeed.
pub proof fn law_mouse_rollback(h: Seq<PsResult>, x: PsResult, y: PsResult, z: PsResult)
    requires
        change_step(Change::MouseAccelDisable, h) is Done,
    ensures
        ({
            let e = change_step(Change::MouseAccelDisable, h)->Done_0.entry->0;
            &&& h.len() >= 6
            &&& change_step(Change::MouseAccelDisable, seq![]) == StepView::Run(
                read_registry_cmd("HKCU"@, mouse_path(), "MouseSpeed"@),
            )
            &&& change_step(Change::MouseAccelDisable, h.take(1)) == StepView::Run(
                read_registry_cmd("HKCU"@, mouse_path(), "MouseThreshold1"@),
            )
            &&& change_step(Change::MouseAccelDisable, h.take(2)) == StepView::Run(
                read_registry_cmd("HKCU"@, mouse_path(), "MouseThreshold2"@),
            )
            &&& change_step(Change::MouseAccelDisable, h)->Done_0.entry is Some
            &&& revert_entry_step(e, seq![]) == StepView::Run(
                restore_text("MouseSpeed"@, h[0], "1"@),
            )
            &&& revert_entry_step(e, seq![x]) == StepView::Run(
                restore_text("MouseThreshold1"@, h[1], "6"@),
            )
            &&& revert_entry_step(e, seq![x, y]) == StepView::Run(
                restore_text("MouseThreshold2"@, h[2], "10"@),
            )
            &&& revert_entry_step(e, seq![x, y, z]) == done(
                "Restore Mouse Acceleration"@,
                applied_or_failed(x.success && y.success && z.success, "Registry write failed"@),
                None,
            )
        }),
{
    reveal_dispatch_literals();
    reveal_mouse_names();
    assert(h.take(1).len() == 1);
    assert(h.take(2).len() == 2);
    let e = change_step(Change::MouseAccelDisable, h)->Done_0.entry->0;
    let ps = e.original->Object_0;
    lemma_pairs_get_at(ps, 0);
    lemma_pairs_get_at(ps, 1);
    lemma_pairs_get_at(ps, 2);
}

/// The command that puts back the `i`-th Nagle value of the recorded
/// interfaces: `TcpAckFrequency` and then `TCPNoDelay` of each, in order.
pub open spec fn nagle_restore_at(ifaces: Seq<Seq<char>>, h: Seq<PsResult>, i: int) -> Seq<char> {
    let j = i / 2;
    if i % 2 == 0 {
        restore_dword("HKLM"@, interface_path(ifaces[j]), "TcpAckFrequency"@, h[1 + 4 * j])
    } else {
        restore_dword("HKLM"@, interface_path(ifaces[j]), "TCPNoDelay"@, h[2 + 4 * j])
    }
}

proof fn lemma_nagle_item(iface: Seq<char>, a: PsResult, d: PsResult)
    ensures
        nagle_item_cmds(nagle_original(iface, a, d)) == seq![
            restore_dword("HKLM"@, interface_path(iface), "TcpAckFrequency"@, a),
            restore_dword("HKLM"@, interface_path(iface), "TCPNoDelay"@, d),
        ],
{
    reveal_strlit("iface");
    reveal_strlit("TcpAckFrequency");
    reveal_strlit("TCPNoDelay");
    assert("iface"@.len() != "TcpAckFrequency"@.len());
    assert("iface"@.len() != "TCPNoDelay"@.len());
    assert("TcpAckFrequency"@.len() != "TCPNoDelay"@.len());
    let o = nagle_original(iface, a, d);
    let ps = o->Object_0;
    lemma_pairs_get_at(ps, 0);
    lemma_pairs_get_at(ps, 1);
    lemma_pairs_get_at(ps, 2);
    assert(nagle_item_cmds(o) =~= seq![
        restore_dword("HKLM"@, interface_path(iface), "TcpAckFrequency"@, a),
        restore_dword("HKLM"@, interface_path(iface), "TCPNoDelay"@, d),
    ]);
}

proof fn lemma_nagle_restore(ifaces: Seq<Seq<char>>, h: Seq<PsResult>, items: Seq<JsonSpec>, k: int)
    requires
        0 <= k <= items.len(),
        items.len() <= ifaces.len(),
        forall|j: int|
            0 <= j < items.len() ==> #[trigger] items[j] == nagle_original(ifaces[j], h[1 + 4 * j], h[2 + 4 * j]),
    ensures
        nagle_restore_cmds(items.take(k)).len() == 2 * k,
        forall|i: int| 0 <= i < 2 * k ==> #[trigger] nagle_restore_cmds(items.take(k))[i] == nagle_restore_at(ifaces, h, i),
    decreases k,
{
    if k > 0 {
        lemma_nagle_restore(ifaces, h, items, k - 1);
        assert(items.take(k).drop_last() =~= items.take(k - 1));
        let j = k - 1;
        lemma_nagle_item(ifaces[j], h[1 + 4 * j], h[2 + 4 * j]);
        let prev = nagle_restore_cmds(items.take(k - 1));
        let all = nagle_restore_cmds(items.take(k));
        assert(items.take(k).last() == items[j]);
        assert forall|i: int| 0 <= i < 2 * k implies #[trigger] all[i] == nagle_restore_at(ifaces, h, i) by {
            if i < 2 * j {
                assert(all[i] == prev[i]);
            } else if i == 2 * j {
                assert(i / 2 == j && i % 2 == 0);
            } else {
                assert(i / 2 == j && i % 2 == 1);
            }
        }
    }
}

/// Disabling Nagle records, for each interface listed, the two values read
/// before writing; undoing it puts back, interface by interface and in order,
/// each recorded value (or removes it when the read found none), and is
/// `Applied` exactly when every one of those commands succeeds.
pub proof fn law_nagle_rollback(h: Seq<PsResult>, g: Seq<PsResult>)
    requires
        change_step(Change::NagleDisable, h) is Done,
        g.len() <= 2 * nonblank_lines(h[0].stdout@).len(),
    ensures
        ({
            let e = change_step(Change::NagleDisable, h)->Done_0.entry->0;
            let ifaces = nonblank_lines(h[0].stdout@);
            &&& change_step(Change::NagleDisable, h)->Done_0.entry is Some
            &&& g.len() < 2 * ifaces.len() ==> revert_entry_step(e, g) == StepView::Run(
                nagle_restore_at(ifaces, h, g.len() as int),
            )
            &&& g.len() == 2 * ifaces.len() ==> revert_entry_step(e, g) == done(
                "Restore Nagle's Algorithm"@,
                applied_or_failed(all_succeeded(g, g.len() as int), "Failed to restore Nagle registry values"@),
                None,
            )
        }),
{
    reveal_dispatch_literals();
    let ifaces = nonblank_lines(h[0].stdout@);
    let m = ifaces.len();
    let e = change_step(Change::NagleDisable, h)->Done_0.entry->0;
    let items = e.original->Array_0;
    assert(items.len() == m);
    lemma_nagle_restore(ifaces, h, items, m as int);
    assert(items.take(m as int) =~= items);
}

/// The key under which a change can be excluded.
pub open spec fn change_key(c: Change) -> Seq<char> {
    match c {
        Change::UltimatePerformance => "power_ultimate"@,
        Change::UsbSuspendDisable => "usb_suspend_disable"@,
        Change::NagleDisable => "nagle_disable"@,
        Change::InterruptModDisable(_) => "interrupt_mod_disable"@,
        Change::WakeOnLanDisable(_) => "wake_on_lan_disable"@,
        Change::MouseAccelDisable => "mouse_accel_disable"@,
        Change::DisableService(s) => service_key(s@),
        Change::ProcessPriority(_) => "process_priority_high"@,
        Change::BackgroundAppsDisable => "background_apps_disable"@,
    }
}

/// The change is not excluded by `excluded`.
pub open spec fn kept_by(excluded: Seq<String>) -> spec_fn(Change) -> bool {
    |c: Change| !excludes(excluded, change_key(c))
}

proof fn lemma_filter_single(b: bool, c: Change, pred: spec_fn(Change) -> bool)
    ensures
        change_if(b, c).filter(pred) == change_if(b && pred(c), c),
{
    reveal_with_fuel(Seq::filter, 2);
    if b {
        assert(change_if(b, c).drop_last() =~= seq![]);
    }
    assert(change_if(b, c).filter(pred) =~= change_if(b && pred(c), c));
}

proof fn lemma_filter_all(s: Seq<Change>, pred: spec_fn(Change) -> bool)
    requires
        forall|i: int| 0 <= i < s.len() ==> pred(#[trigger] s[i]),
    ensures
        s.filter(pred) == s,
    decreases s.len(),
{
    reveal(Seq::filter);
    if s.len() > 0 {
        lemma_filter_all(s.drop_last(), pred);
        assert(s.drop_last().push(s.last()) =~= s);
    }
}

proof fn lemma_filter_none(s: Seq<Change>, pred: spec_fn(Change) -> bool)
    requires
        forall|i: int| 0 <= i < s.len() ==> !pred(#[trigger] s[i]),
    ensures
        s.filter(pred) == Seq::<Change>::empty(),
    decreases s.len(),
{
    reveal(Seq::filter);
    if s.len() > 0 {
        lemma_filter_none(s.drop_last(), pred);
    }
}

proof fn lemma_service_filter(services: Seq<String>, excluded: Seq<String>)
    ensures
        service_changes(services, seq![]).filter(kept_by(excluded)) == service_changes(
            services,
            excluded,
        ),
    decreases services.len(),
{
    reveal(Seq::filter);
    if services.len() > 0 {
        lemma_service_filter(services.drop_last(), excluded);
        let last = Change::DisableService(services.last());
        assert(!excludes(seq![], service_key(services.last()@)));
        Seq::filter_distributes_over_add(
            service_changes(services.drop_last(), seq![]),
            change_if(true, last),
            kept_by(excluded),
        );
        lemma_filter_single(true, last, kept_by(excluded));
    }
}

/// An empty exclusion list excludes nothing.
proof fn lemma_no_exclusions(k: Seq<char>)
    ensures
        !excludes(seq![], k),
{
}

/// The nine parts of the changes a profile makes.
pub open spec fn profile_parts(p: Profile, hw: HardwareProfile, excluded: Seq<String>) -> Seq<Seq<Change>> {
    seq![
        change_if(p.power_ultimate && !excludes(excluded, "power_ultimate"@), Change::UltimatePerformance),
        change_if(p.usb_suspend_disable && !excludes(excluded, "usb_suspend_disable"@), Change::UsbSuspendDisable),
        change_if(p.nagle_disable && !excludes(excluded, "nagle_disable"@), Change::NagleDisable),
        change_if(
            p.interrupt_mod_disable && hw.network.supports_interrupt_mod && !excludes(excluded, "interrupt_mod_disable"@),
            Change::InterruptModDisable(hw.network.adapter_name),
        ),
        change_if(
            p.wake_on_lan_disable && !excludes(excluded, "wake_on_lan_disable"@),
            Change::WakeOnLanDisable(hw.network.adapter_name),
        ),
        change_if(p.mouse_accel_disable && !excludes(excluded, "mouse_accel_disable"@), Change::MouseAccelDisable),
        service_changes(p.disable_services@, excluded),
        if p.process_priority_high && !excludes(excluded, "process_priority_high"@) {
            game_changes(hw.games@)
        } else {
            seq![]
        },
        change_if(
            p.background_apps_disable && !excludes(excluded, "background_apps_disable"@),
            Change::BackgroundAppsDisable,
        ),
    ]
}

pub open spec fn join9(q: Seq<Seq<Change>>) -> Seq<Change> {
    q[0] + q[1] + q[2] + q[3] + q[4] + q[5] + q[6] + q[7] + q[8]
}

proof fn lemma_part_filter(p: Profile, hw: HardwareProfile, excluded: Seq<String>, i: int)
    requires
        0 <= i < 9,
    ensures
        profile_parts(p, hw, seq![])[i].filter(kept_by(excluded)) == profile_parts(p, hw, excluded)[i],
{
    let pred = kept_by(excluded);
    let none: Seq<String> = seq![];
    if i == 0 {
        lemma_no_exclusions("power_ultimate"@);
        lemma_filter_single(p.power_ultimate, Change::UltimatePerformance, pred);
    } else if i == 1 {
        lemma_no_exclusions("usb_suspend_disable"@);
        lemma_filter_single(p.usb_suspend_disable, Change::UsbSuspendDisable, pred);
    } else if i == 2 {
        lemma_no_exclusions("nagle_disable"@);
        lemma_filter_single(p.nagle_disable, Change::NagleDisable, pred);
    } else if i == 3 {
        lemma_no_exclusions("interrupt_mod_disable"@);
        lemma_filter_single(
            p.interrupt_mod_disable && hw.network.supports_interrupt_mod,
            Change::InterruptModDisable(hw.network.adapter_name),
            pred,
        );
    } else if i == 4 {
        lemma_no_exclusions("wake_on_lan_disable"@);
        lemma_filter_single(p.wake_on_lan_disable, Change::WakeOnLanDisable(hw.network.adapter_name), pred);
    } else if i == 5 {
        lemma_no_exclusions("mouse_accel_disable"@);
        lemma_filter_single(p.mouse_accel_disable, Change::MouseAccelDisable, pred);
    } else if i == 6 {
        lemma_service_filter(p.disable_services@, excluded);
    } else if i == 7 {
        lemma_no_exclusions("process_priority_high"@);
        let g = game_changes(hw.games@);
        if !p.process_priority_high {
            lemma_filter_none(Seq::<Change>::empty(), pred);
        } else if excludes(excluded, "process_priority_high"@) {
            assert forall|j: int| 0 <= j < g.len() implies !pred(#[trigger] g[j]) by {}
            lemma_filter_none(g, pred);
        } else {
            assert forall|j: int| 0 <= j < g.len() implies pred(#[trigger] g[j]) by {}
            lemma_filter_all(g, pred);
        }
    } else {
        lemma_no_exclusions("background_apps_disable"@);
        lemma_filter_single(p.background_apps_disable, Change::BackgroundAppsDisable, pred);
    }
}

proof fn lemma_join9_filter(q: Seq<Seq<Change>>, pred: spec_fn(Change) -> bool)
    requires
        q.len() == 9,
    ensures
        join9(q).filter(pred) == q[0].filter(pred) + q[1].filter(pred) + q[2].filter(pred) + q[3].filter(
            pred,
        ) + q[4].filter(pred) + q[5].filter(pred) + q[6].filter(pred) + q[7].filter(pred)
            + q[8].filter(pred),
{
    Seq::filter_distributes_over_add(q[0] + q[1] + q[2] + q[3] + q[4] + q[5] + q[6] + q[7], q[8], pred);
    Seq::filter_distributes_over_add(q[0] + q[1] + q[2] + q[3] + q[4] + q[5] + q[6], q[7], pred);
    Seq::filter_distributes_over_add(q[0] + q[1] + q[2] + q[3] + q[4] + q[5], q[6], pred);
    Seq::filter_distributes_over_add(q[0] + q[1] + q[2] + q[3] + q[4], q[5], pred);
    Seq::filter_distributes_over_add(q[0] + q[1] + q[2] + q[3], q[4], pred);
    Seq::filter_distributes_over_add(q[0] + q[1] + q[2], q[3], pred);
    Seq::filter_distributes_over_add(q[0] + q[1], q[2], pred);
    Seq::filter_distributes_over_add(q[0], q[1], pred);
}

/// Excluding keys only removes changes: the changes made with an exclusion
/// list are those made with none, less the ones whose key it holds, in the
/// same order.
pub proof fn law_exclusion(p: Profile, hw: HardwareProfile, excluded: Seq<String>)
    ensures
        profile_changes(p, hw, excluded) == profile_changes(p, hw, seq![]).filter(kept_by(excluded)),
{
    let pred = kept_by(excluded);
    let q0 = profile_parts(p, hw, seq![]);
    let q = profile_parts(p, hw, excluded);
    assert(profile_changes(p, hw, seq![]) == join9(q0));
    assert(profile_changes(p, hw, excluded) == join9(q));
    lemma_join9_filter(q0, pred);
    lemma_part_filter(p, hw, excluded, 0);
    lemma_part_filter(p, hw, excluded, 1);
    lemma_part_filter(p, hw, excluded, 2);
    lemma_part_filter(p, hw, excluded, 3);
    lemma_part_filter(p, hw, excluded, 4);
    lemma_part_filter(p, hw, excluded, 5);
    lemma_part_filter(p, hw, excluded, 6);
    lemma_part_filter(p, hw, excluded, 7);
    lemma_part_filter(p, hw, excluded, 8);
}

/// An adapter that does not support interrupt moderation is treated as if the
/// profile did not ask to disable it.
pub proof fn law_interrupt_mod_needs_support(p: Profile, hw: HardwareProfile, excluded: Seq<String>)
    requires
        !hw.network.supports_interrupt_mod,
    ensures
        profile_changes(p, hw, excluded) == profile_changes(
            Profile { interrupt_mod_disable: false, ..p },
            hw,
            excluded,
        ),
{
}

proof fn lemma_digit_char(d: int)
    requires
        0 <= d < 10,
    ensures
        is_digit(digit_char(d)),
        digit_char(d) as u32 - 48 == d,
        !is_ws(digit_char(d)),
        digit_char(d) != '+',
{
}

/// The decimal notation of a number is a non-empty run of digits that denotes
/// the number.
pub proof fn lemma_decimal_digits(n: nat)
    ensures
        decimal(n).len() > 0,
        all_digits(decimal(n)),
        digits_value(decimal(n)) == n,
    decreases n,
{
    if n < 10 {
        lemma_digit_char(n as int);
        assert(decimal(n).drop_last() =~= seq![]);
        assert(digits_value(decimal(n).drop_last()) == 0);
    } else {
        lemma_decimal_digits(n / 10);
        lemma_digit_char((n % 10) as int);
        let s = decimal(n);
        assert(s.drop_last() =~= decimal(n / 10));
        assert(s.last() == digit_char((n % 10) as int));
        assert((n / 10) * 10 + n % 10 == n) by (nonlinear_arith);
        assert(digits_value(s) == digits_value(decimal(n / 10)) * 10 + (n % 10));
        assert forall|i: int| 0 <= i < s.len() implies is_digit(#[trigger] s[i]) by {
            if i < s.len() - 1 {
                assert(s[i] == decimal(n / 10)[i]);
            }
        }
    }
}

/// What a DWORD write puts down, a DWORD read gives back: when the registry
/// prints the value in the decimal notation that the write used, the read
/// recovers exactly the value written.
pub proof fn law_dword_write_then_read(v: u32)
    ensures
        dword_output(decimal(v as nat)) == Some(v),
{
    let d = decimal(v as nat);
    lemma_decimal_digits(v as nat);
    assert(!is_ws(d[0]) && d[0] != '+');
    assert(!is_ws(d.last()));
    assert(trim_start(d) == d);
    assert(trim_end(d) == d);
    assert(parse_u32(d) == Some(v));
}

/// What a string write puts down, a string read gives back, for a value that
/// is not empty and neither begins nor ends with whitespace.
pub proof fn law_string_write_then_read(v: Seq<char>)
    requires
        v.len() > 0,
        !is_ws(v[0]),
        !is_ws(v.last()),
    ensures
        crate::registry::string_output(v) == Some(v),
{
    assert(trim_start(v) == v);
    assert(trim_end(v) == v);
}

// ─── What single operations promise ─────────────────────────────────────────

proof fn lemma_services_only(services: Seq<String>, excluded: Seq<String>)
    ensures
        forall|i: int|
            0 <= i < service_changes(services, excluded).len() ==> #[trigger] service_changes(
                services,
                excluded,
            )[i] is DisableService,
    decreases services.len(),
{
    if services.len() > 0 {
        lemma_services_only(services.drop_last(), excluded);
        let prev = service_changes(services.drop_last(), excluded);
        let last = change_if(
            !excludes(excluded, service_key(services.last()@)),
            Change::DisableService(services.last()),
        );
        assert forall|i: int| 0 <= i < (prev + last).len() implies #[trigger] (prev + last)[i] is DisableService by {
            if i >= prev.len() {
                assert((prev + last)[i] == last[i - prev.len()]);
            }
        }
    }
}

/// Game priorities go to the games' executables: the priority changes of a
/// plan are, in order, one per detected game naming that game's executable
/// file (`exe_name`, never its display name) when the profile raises game
/// priority and that key is not excluded, and none otherwise.
pub proof fn law_game_priorities(p: Profile, hw: HardwareProfile, excluded: Seq<String>)
    ensures
        profile_changes(p, hw, excluded).filter(|c: Change| c is ProcessPriority) == if p.process_priority_high
            && !excludes(excluded, "process_priority_high"@) {
            Seq::new(hw.games@.len(), |k: int| Change::ProcessPriority(hw.games@[k].exe_name))
        } else {
            Seq::<Change>::empty()
        },
{
    let pred = |c: Change| c is ProcessPriority;
    let q = profile_parts(p, hw, excluded);
    assert(profile_changes(p, hw, excluded) == join9(q));
    lemma_join9_filter(q, pred);
    lemma_other_parts_no_priority(p, hw, excluded, pred);
    let g = q[7];
    let expected = if p.process_priority_high && !excludes(excluded, "process_priority_high"@) {
        Seq::new(hw.games@.len(), |k: int| Change::ProcessPriority(hw.games@[k].exe_name))
    } else {
        Seq::<Change>::empty()
    };
    if p.process_priority_high && !excludes(excluded, "process_priority_high"@) {
        assert forall|j: int| 0 <= j < g.len() implies pred(#[trigger] g[j]) by {}
        lemma_filter_all(g, pred);
    } else {
        lemma_filter_none(g, pred);
    }
    assert(g.filter(pred) =~= expected);
    assert(profile_changes(p, hw, excluded).filter(pred) =~= expected);
}

#[verifier::spinoff_prover]
proof fn lemma_other_parts_no_priority(
    p: Profile,
    hw: HardwareProfile,
    excluded: Seq<String>,
    pred: spec_fn(Change) -> bool,
)
    requires
        pred == (|c: Change| c is ProcessPriority),
    ensures
        ({
            let q = profile_parts(p, hw, excluded);
            &&& q[0].filter(pred) == Seq::<Change>::empty()
            &&& q[1].filter(pred) == Seq::<Change>::empty()
            &&& q[2].filter(pred) == Seq::<Change>::empty()
            &&& q[3].filter(pred) == Seq::<Change>::empty()
            &&& q[4].filter(pred) == Seq::<Change>::empty()
            &&& q[5].filter(pred) == Seq::<Change>::empty()
            &&& q[6].filter(pred) == Seq::<Change>::empty()
            &&& q[8].filter(pred) == Seq::<Change>::empty()
        }),
{
    lemma_filter_single(
        p.power_ultimate && !excludes(excluded, "power_ultimate"@),
        Change::UltimatePerformance,
        pred,
    );
    lemma_filter_single(
        p.usb_suspend_disable && !excludes(excluded, "usb_suspend_disable"@),
        Change::UsbSuspendDisable,
        pred,
    );
    lemma_filter_single(p.nagle_disable && !excludes(excluded, "nagle_disable"@), Change::NagleDisable, pred);
    lemma_filter_single(
        p.interrupt_mod_disable && hw.network.supports_interrupt_mod && !excludes(excluded, "interrupt_mod_disable"@),
        Change::InterruptModDisable(hw.network.adapter_name),
        pred,
    );
    lemma_filter_single(
        p.wake_on_lan_disable && !excludes(excluded, "wake_on_lan_disable"@),
        Change::WakeOnLanDisable(hw.network.adapter_name),
        pred,
    );
    lemma_filter_single(
        p.mouse_accel_disable && !excludes(excluded, "mouse_accel_disable"@),
        Change::MouseAccelDisable,
        pred,
    );
    lemma_filter_single(
        p.background_apps_disable && !excludes(excluded, "background_apps_disable"@),
        Change::BackgroundAppsDisable,
        pred,
    );
    lemma_services_only(p.disable_services@, excluded);
    let sv = service_changes(p.disable_services@, excluded);
    assert forall|j: int| 0 <= j < sv.len() implies !pred(#[trigger] sv[j]) by {}
    lemma_filter_none(sv, pred);
}

/// A service is disabled unless its startup type is already `Disabled`: after
/// a query that succeeded and printed a startup type other than `Disabled`
/// (such as `Manual` or `Automatic`), the next command stops and disables the
/// service, and the result records the type it had; `Already disabled` is
/// reported only for the type `Disabled`.
pub proof fn law_service_disabled_unless_already(svc: String, h: Seq<PsResult>)
    requires
        h.len() >= 1,
    ensures
        ({
            let c = Change::DisableService(svc);
            let current = trim(h[0].stdout@);
            &&& (h[0].success && current.len() > 0 && current != "Disabled"@) ==> change_step(c, h.take(1))
                == StepView::Run(scripts::service_disable_cmd(svc@))
            &&& (h[0].success && current.len() > 0 && current != "Disabled"@ && h.len() >= 2) ==> change_step(c, h)
                == done(
                "Disable "@ + svc@,
                if h[1].success {
                    StatusView::Applied
                } else {
                    StatusView::Failed(h[1].stderr@)
                },
                Some(entry_view("service"@, svc@, JsonSpec::Str(current), JsonSpec::Str("Disabled"@), h[1].success)),
            )
            &&& (change_step(c, h) is Done && change_step(c, h)->Done_0.status == StatusView::Skipped(
                "Already disabled"@,
            )) ==> current == "Disabled"@
        }),
{
    reveal_strlit("Already disabled");
    reveal_strlit("Service ");
    reveal_strlit(" not found");
    assert(h.take(1).len() == 1);
    assert(h.take(1)[0] == h[0]);
    let long = "Service "@ + svc@ + " not found"@;
    assert(long.len() > "Already disabled"@.len());
}

/// Restoring the power plan reports what `powercfg /setactive` did: `Applied`
/// exactly when it succeeded, else `Failed` with what it printed to stderr.
pub proof fn law_power_restore_status(e: EntryView, x: PsResult)
    requires
        e.category == "power_plan"@,
        e.original is Str,
    ensures
        revert_entry_step(e, seq![]) == StepView::Run(scripts::power_set_cmd(e.original->Str_0)),
        revert_entry_step(e, seq![x]) == done(
            "Restore original power plan"@,
            if x.success {
                StatusView::Applied
            } else {
                StatusView::Failed(x.stderr@)
            },
            None,
        ),
{
}

/// The memory total counts every module once, with its own capacity: no
/// modules total 0, one more module adds its capacity, and the total of two
/// lists of modules together is the sum of their totals.
pub proof fn law_memory_total(rows: Seq<WmiMemory>, more: Seq<WmiMemory>, m: WmiMemory)
    ensures
        capacity_sum(Seq::<WmiMemory>::empty()) == 0,
        capacity_sum(rows.push(m)) == capacity_sum(rows) + m.capacity,
        capacity_sum(rows + more) == capacity_sum(rows) + capacity_sum(more),
    decreases more.len(),
{
    assert(rows.push(m).drop_last() =~= rows);
    if more.len() > 0 {
        law_memory_total(rows, more.drop_last(), m);
        assert((rows + more).drop_last() =~= rows + more.drop_last());
    } else {
        assert(rows + more =~= rows);
    }
}

proof fn lemma_contains_middle(a: Seq<char>, w: Seq<char>, b: Seq<char>)
    ensures
        contains(a + w + b, w),
{
    let s = a + w + b;
    assert(s.subrange(a.len() as int, (a.len() + w.len()) as int) =~= w);
}

/// The edition goes by what the caption contains anywhere in it: a caption
/// with `Pro` in it is Pro; one without `Pro` but with `Enterprise` is
/// Enterprise; one with neither but with `Home` is Home (so "Windows 11 Home
/// Single Language" is Home); one with none of them is Unknown.
pub proof fn law_edition(a: Seq<char>, b: Seq<char>, caption: Seq<char>)
    ensures
        edition_of(a + "Pro"@ + b) == "Pro"@,
        !contains(a + "Enterprise"@ + b, "Pro"@) ==> edition_of(a + "Enterprise"@ + b) == "Enterprise"@,
        !contains(a + "Home"@ + b, "Pro"@) && !contains(a + "Home"@ + b, "Enterprise"@) ==> edition_of(
            a + "Home"@ + b,
        ) == "Home"@,
        !contains(caption, "Pro"@) && !contains(caption, "Enterprise"@) && !contains(caption, "Home"@)
            ==> edition_of(caption) == "Unknown"@,
{
    lemma_contains_middle(a, "Pro"@, b);
    lemma_contains_middle(a, "Enterprise"@, b);
    lemma_contains_middle(a, "Home"@, b);
}

// ─── The plan as a whole ─────────────────────────────────────────────────────

/// A key is excluded exactly when one of the listed keys is that text: no key
/// is excluded by an empty list, and listing one more key excludes exactly
/// that key in addition.
pub proof fn law_exclusion_list(excluded: Seq<String>, extra: String, k: Seq<char>)
    ensures
        !excludes(seq![], k),
        excludes(excluded.push(extra), k) == (excludes(excluded, k) || extra@ == k),
{
    let ex2 = excluded.push(extra);
    if excludes(excluded, k) {
        let i = choose|i: int| 0 <= i < excluded.len() && (#[trigger] excluded[i])@ == k;
        assert(ex2[i] == excluded[i]);
    }
    if extra@ == k {
        assert(ex2[excluded.len() as int] == extra);
    }
    if excludes(ex2, k) {
        let i = choose|i: int| 0 <= i < ex2.len() && (#[trigger] ex2[i])@ == k;
        if i < excluded.len() {
            assert(excluded[i] == ex2[i]);
        }
    }
}

/// The order of the kinds of change in a plan.
pub open spec fn kind_rank(c: Change) -> int {
    match c {
        Change::UltimatePerformance => 0,
        Change::UsbSuspendDisable => 1,
        Change::NagleDisable => 2,
        Change::InterruptModDisable(_) => 3,
        Change::WakeOnLanDisable(_) => 4,
        Change::MouseAccelDisable => 5,
        Change::DisableService(_) => 6,
        Change::ProcessPriority(_) => 7,
        Change::BackgroundAppsDisable => 8,
    }
}

/// The kinds in `s` never go back in the plan's order.
#[verifier::opaque]
pub open spec fn ranks_sorted(s: Seq<Change>) -> bool {
    forall|i: int, j: int| 0 <= i < j < s.len() ==> kind_rank(#[trigger] s[i]) <= kind_rank(#[trigger] s[j])
}

#[verifier::opaque]
pub open spec fn ranks_at_most(s: Seq<Change>, r: int) -> bool {
    forall|i: int| 0 <= i < s.len() ==> kind_rank(#[trigger] s[i]) <= r
}

#[verifier::opaque]
pub open spec fn ranks_all(s: Seq<Change>, r: int) -> bool {
    forall|i: int| 0 <= i < s.len() ==> kind_rank(#[trigger] s[i]) == r
}

proof fn lemma_part_ranks(p: Profile, hw: HardwareProfile, excluded: Seq<String>, k: int)
    requires
        0 <= k < 9,
    ensures
        ranks_all(profile_parts(p, hw, excluded)[k], k),
{
    reveal(ranks_all);
    lemma_services_only(p.disable_services@, excluded);
}

proof fn lemma_sorted_append(a: Seq<Change>, b: Seq<Change>, r: int)
    requires
        ranks_sorted(a),
        ranks_at_most(a, r - 1),
        ranks_all(b, r),
    ensures
        ranks_sorted(a + b),
        ranks_at_most(a + b, r),
{
    reveal(ranks_sorted);
    reveal(ranks_at_most);
    reveal(ranks_all);
    assert forall|i: int, j: int| 0 <= i < j < (a + b).len() implies kind_rank(#[trigger] (a + b)[i]) <= kind_rank(
        #[trigger] (a + b)[j],
    ) by {
        if j < a.len() {
            assert((a + b)[i] == a[i] && (a + b)[j] == a[j]);
        } else if i < a.len() {
            assert((a + b)[i] == a[i] && (a + b)[j] == b[j - a.len()]);
        } else {
            assert((a + b)[i] == b[i - a.len()] && (a + b)[j] == b[j - a.len()]);
        }
    }
    assert forall|i: int| 0 <= i < (a + b).len() implies kind_rank(#[trigger] (a + b)[i]) <= r by {
        if i < a.len() {
            assert((a + b)[i] == a[i]);
        } else {
            assert((a + b)[i] == b[i - a.len()]);
        }
    }
}

/// A plan makes its changes kind by kind, in this order: power plan, USB
/// suspend, Nagle, interrupt moderation, wake-on-LAN, mouse, services, game
/// priorities, background apps.
pub proof fn law_plan_order(p: Profile, hw: HardwareProfile, excluded: Seq<String>)
    ensures
        forall|i: int, j: int|
            0 <= i < j < profile_changes(p, hw, excluded).len() ==> kind_rank(
                #[trigger] profile_changes(p, hw, excluded)[i],
            ) <= kind_rank(#[trigger] profile_changes(p, hw, excluded)[j]),
{
    let q = profile_parts(p, hw, excluded);
    assert(profile_changes(p, hw, excluded) == join9(q));
    let e = Seq::<Change>::empty();
    assert(e + q[0] =~= q[0]);
    assert(ranks_sorted(e) && ranks_at_most(e, -1)) by {
        reveal(ranks_sorted);
        reveal(ranks_at_most);
    }
    lemma_part_ranks(p, hw, excluded, 0);
    lemma_part_ranks(p, hw, excluded, 1);
    lemma_part_ranks(p, hw, excluded, 2);
    lemma_part_ranks(p, hw, excluded, 3);
    lemma_part_ranks(p, hw, excluded, 4);
    lemma_part_ranks(p, hw, excluded, 5);
    lemma_part_ranks(p, hw, excluded, 6);
    lemma_part_ranks(p, hw, excluded, 7);
    lemma_part_ranks(p, hw, excluded, 8);
    let s0 = q[0];
    let s1 = s0 + q[1];
    let s2 = s1 + q[2];
    let s3 = s2 + q[3];
    let s4 = s3 + q[4];
    let s5 = s4 + q[5];
    let s6 = s5 + q[6];
    let s7 = s6 + q[7];
    let s8 = s7 + q[8];
    lemma_sorted_append(e, q[0], 0);
    lemma_sorted_append(s0, q[1], 1);
    lemma_sorted_append(s1, q[2], 2);
    lemma_sorted_append(s2, q[3], 3);
    lemma_sorted_append(s3, q[4], 4);
    lemma_sorted_append(s4, q[5], 5);
    lemma_sorted_append(s5, q[6], 6);
    lemma_sorted_append(s6, q[7], 7);
    lemma_sorted_append(s7, q[8], 8);
    assert(s8 == profile_changes(p, hw, excluded));
    reveal(ranks_sorted);
}

} // verus!
