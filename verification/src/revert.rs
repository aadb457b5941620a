//! Reverting a snapshot: each entry that was applied is undone by a
//! conversation with PowerShell, chosen by the entry's category and key.
use vstd::prelude::*;
use crate::json::{JsonSpec, JsonValue, json_as_str, json_as_u64, json_get};
use crate::optimizer::{PsResult, PsStep, StatusView, StepView, applied_or_failed, done, finish, interface_path, interface_path_of, joined, joined3, mouse_path, status_of, ChangeStatus};
use crate::registry::{write_dword_cmd, write_registry_dword, write_registry_string, write_string_cmd};
use crate::scripts;
use crate::text::{chars_of, index_of, index_of_char, last_index_of, last_index_of_char, slice_of, starts_with, starts_with_chars, substring, text_eq};
use crate::types::{EntryView, Snapshot, SnapshotEntry};

verus! {

broadcast use vstd::string::group_string_axioms;

/// The positions of the entries that were applied, in order.
pub open spec fn applied_indices(es: Seq<SnapshotEntry>) -> Seq<usize>
    decreases es.len(),
{
    if es.len() == 0 {
        seq![]
    } else {
        applied_indices(es.drop_last()) + if es.last().applied {
            seq![(es.len() - 1) as usize]
        } else {
            seq![]
        }
    }
}

/// The entries of `snap` that a revert undoes, by position, in order: those
/// that were applied. Each is undone with [`revert_step`].
pub fn revert_snapshot(snap: &Snapshot) -> (r: Vec<usize>)
    ensures
        r@ == applied_indices(snap.changes@),
{
    let es = &snap.changes;
    let mut r: Vec<usize> = Vec::new();
    let mut i: usize = 0;
    assert(es@.take(0) =~= seq![]);
    while i < es.len()
        invariant
            i <= es.len(),
            r@ == applied_indices(es@.take(i as int)),
        decreases es.len() - i,
    {
        assert(es@.take(i + 1).drop_last() =~= es@.take(i as int));
        if es[i].applied {
            r.push(i);
            assert(r@ =~= applied_indices(es@.take(i + 1)));
        } else {
            assert(r@ =~= applied_indices(es@.take(i + 1)));
        }
        i += 1;
    }
    assert(es@.take(i as int) =~= es@);
    r
}

/// Restoring the power scheme whose GUID the entry recorded.
pub open spec fn power_revert(e: EntryView, h: Seq<PsResult>) -> StepView {
    match json_as_str(e.original) {
        Some(guid) => if h.len() == 0 {
            StepView::Run(scripts::power_set_cmd(guid))
        } else {
            done("Restore original power plan"@, applied_or_failed(h[0].success, h[0].stderr@), None)
        },
        None => done("Restore power plan"@, StatusView::Skipped("No original GUID saved"@), None),
    }
}

/// The texts of a list of commands.
pub open spec fn texts(v: Seq<String>) -> Seq<Seq<char>> {
    Seq::new(v.len(), |i: int| v[i]@)
}

/// The first `n` outcomes all succeeded.
pub open spec fn all_succeeded(h: Seq<PsResult>, n: int) -> bool {
    forall|i: int| 0 <= i < n ==> #[trigger] h[i].success
}

/// Running `cmds` in order, then `Applied` exactly when every one succeeded.
pub open spec fn run_all(cmds: Seq<Seq<char>>, h: Seq<PsResult>, title: Seq<char>, failure: Seq<char>) -> StepView {
    if h.len() < cmds.len() {
        StepView::Run(cmds[h.len() as int])
    } else {
        done(title, applied_or_failed(all_succeeded(h, cmds.len() as int), failure), None)
    }
}

/// The command that puts back the value `name` as `record` recorded it under
/// that name (see [`restore_value_cmd`]); none when it records nothing usable.
pub open spec fn recorded_value_cmds(hive: Seq<char>, path: Seq<char>, name: Seq<char>, record: JsonSpec) -> Seq<
    Seq<char>,
> {
    match json_get(record, name) {
        Some(v) => match restore_value_cmd(hive, path, name, v) {
            Some(c) => seq![c],
            None => seq![],
        },
        None => seq![],
    }
}

/// Putting back the two Nagle values one interface record holds.
pub open spec fn nagle_item_cmds(item: JsonSpec) -> Seq<Seq<char>> {
    match json_get(item, "iface"@) {
        Some(v) => match json_as_str(v) {
            Some(iface) => recorded_value_cmds("HKLM"@, interface_path(iface), "TcpAckFrequency"@, item)
                + recorded_value_cmds("HKLM"@, interface_path(iface), "TCPNoDelay"@, item),
            None => seq![],
        },
        None => seq![],
    }
}

/// Putting back the Nagle values of every recorded interface, in order.
pub open spec fn nagle_restore_cmds(items: Seq<JsonSpec>) -> Seq<Seq<char>>
    decreases items.len(),
{
    if items.len() == 0 {
        seq![]
    } else {
        nagle_restore_cmds(items.drop_last()) + nagle_item_cmds(items.last())
    }
}

/// Restoring the recorded Nagle values of each interface: writing back a
/// recorded value, removing one recorded as absent.
pub open spec fn nagle_revert(original: JsonSpec, h: Seq<PsResult>) -> StepView {
    match original {
        JsonSpec::Array(items) => run_all(
            nagle_restore_cmds(items),
            h,
            "Restore Nagle's Algorithm"@,
            "Failed to restore Nagle registry values"@,
        ),
        _ => done(
            "Restore Nagle's Algorithm"@,
            StatusView::Failed("Failed to restore Nagle registry values"@),
            None,
        ),
    }
}

/// The text a mouse entry recorded under `name`, or `default` when it records
/// no text for it.
pub open spec fn recorded_text(original: JsonSpec, name: Seq<char>, default: Seq<char>) -> Seq<char> {
    match json_get(original, name) {
        Some(v) => match json_as_str(v) {
            Some(s) => s,
            None => default,
        },
        None => default,
    }
}

/// Restoring mouse acceleration: write back `MouseSpeed` and both thresholds as
/// recorded (else `"1"`, `"6"` and `"10"`); `Applied` exactly when all three
/// writes succeed.
pub open spec fn mouse_revert(original: JsonSpec, h: Seq<PsResult>) -> StepView {
    if original is Object {
        if h.len() == 0 {
            StepView::Run(
                write_string_cmd("HKCU"@, mouse_path(), "MouseSpeed"@, recorded_text(original, "MouseSpeed"@, "1"@)),
            )
        } else if h.len() == 1 {
            StepView::Run(
                write_string_cmd(
                    "HKCU"@,
                    mouse_path(),
                    "MouseThreshold1"@,
                    recorded_text(original, "MouseThreshold1"@, "6"@),
                ),
            )
        } else if h.len() == 2 {
            StepView::Run(
                write_string_cmd(
                    "HKCU"@,
                    mouse_path(),
                    "MouseThreshold2"@,
                    recorded_text(original, "MouseThreshold2"@, "10"@),
                ),
            )
        } else {
            done(
                "Restore Mouse Acceleration"@,
                applied_or_failed(h[0].success && h[1].success && h[2].success, "Registry write failed"@),
                None,
            )
        }
    } else {
        done("Restore Mouse Acceleration"@, StatusView::Failed("Registry write failed"@), None)
    }
}

/// Removing the Image File Execution Options key of an executable.
pub open spec fn ifeo_revert(exe: Seq<char>, h: Seq<PsResult>) -> StepView {
    if h.len() == 0 {
        StepView::Run(scripts::remove_key_cmd(scripts::ifeo_path(exe)))
    } else {
        done("Remove "@ + exe + " priority override"@, applied_or_failed(h[0].success, h[0].stderr@), None)
    }
}

/// The command that puts back a registry value: remove it when it did not
/// exist, else write the recorded number or string; none for anything else.
pub open spec fn restore_value_cmd(
    hive: Seq<char>,
    path: Seq<char>,
    name: Seq<char>,
    original: JsonSpec,
) -> Option<Seq<char>> {
    if original is Null {
        Some(scripts::remove_value_cmd(hive, path, name))
    } else if json_as_u64(original) is Some {
        Some(write_dword_cmd(hive, path, name, json_as_u64(original)->0 as u32))
    } else if json_as_str(original) is Some {
        Some(write_string_cmd(hive, path, name, json_as_str(original)->0))
    } else {
        None
    }
}

/// Reverting a registry value whose key reads `hive\path\name`: split at the
/// first and at the last backslash.
pub open spec fn value_revert(key: Seq<char>, original: JsonSpec, h: Seq<PsResult>) -> StepView {
    let unmatched = done("Revert: "@ + key, StatusView::Skipped("No revert action matched"@), None);
    match index_of(key, '\\') {
        Some(i) => {
            let hive = key.take(i);
            let rest = key.skip(i + 1);
            match last_index_of(rest, '\\') {
                Some(j) => match restore_value_cmd(hive, rest.take(j), rest.skip(j + 1), original) {
                    Some(c) => if h.len() == 0 {
                        StepView::Run(c)
                    } else {
                        done(
                            "Revert: "@ + key,
                            applied_or_failed(h[0].success, "Registry revert failed"@),
                            None,
                        )
                    },
                    None => done(
                        "Revert: "@ + key,
                        StatusView::Failed("Registry revert failed"@),
                        None,
                    ),
                },
                None => unmatched,
            }
        },
        None => unmatched,
    }
}

pub open spec fn ifeo_prefix() -> Seq<char> {
    "IFEO\\"@
}

/// Reverting a registry entry: Nagle, mouse, game priority, or a single value.
pub open spec fn registry_revert(e: EntryView, h: Seq<PsResult>) -> StepView {
    if e.key == "nagle_algorithm"@ {
        nagle_revert(e.original, h)
    } else if e.key == "mouse_acceleration"@ {
        mouse_revert(e.original, h)
    } else if starts_with(e.key, ifeo_prefix()) {
        ifeo_revert(e.key.skip(ifeo_prefix().len() as int), h)
    } else {
        value_revert(e.key, e.original, h)
    }
}

/// The startup type a service entry recorded, `"Manual"` when it holds none.
pub open spec fn recorded_startup(original: JsonSpec) -> Seq<char> {
    match json_as_str(original) {
        Some(s) => s,
        None => "Manual"@,
    }
}

/// Restoring a service's startup type, and starting it unless that type is
/// `Disabled`.
pub open spec fn service_revert(e: EntryView, h: Seq<PsResult>) -> StepView {
    let startup = recorded_startup(e.original);
    if h.len() == 0 {
        StepView::Run(scripts::service_set_cmd(e.key, startup))
    } else if startup != "Disabled"@ && h.len() == 1 {
        StepView::Run(scripts::service_start_cmd(e.key))
    } else {
        done(
            "Restore "@ + e.key + " ("@ + startup + ")"@,
            applied_or_failed(h[0].success, h[0].stderr@),
            None,
        )
    }
}

/// The display name of an adapter property that a snapshot key names.
pub open spec fn nic_display_name(prop: Seq<char>) -> Seq<char> {
    if prop == "InterruptModeration"@ {
        "Interrupt Moderation"@
    } else {
        prop
    }
}

/// The value a wake-on-LAN entry recorded for the property `display`,
/// `"Enabled"` when it records none.
pub open spec fn recorded_property(original: JsonSpec, display: Seq<char>) -> Seq<char> {
    match json_get(original, display) {
        Some(v) => match json_as_str(v) {
            Some(s) => s,
            None => "Enabled"@,
        },
        None => "Enabled"@,
    }
}

/// The magic-packet value a wake-on-LAN entry recorded: the entry's text when
/// it is a single text, else its `Wake on Magic Packet` field.
pub open spec fn recorded_magic_packet(original: JsonSpec) -> Seq<char> {
    match json_as_str(original) {
        Some(s) => s,
        None => recorded_property(original, "Wake on Magic Packet"@),
    }
}

/// Restoring both wake properties of an adapter to their recorded values.
pub open spec fn wol_revert(adapter: Seq<char>, original: JsonSpec, h: Seq<PsResult>) -> StepView {
    if h.len() == 0 {
        StepView::Run(scripts::nic_set_cmd(adapter, "Wake on Magic Packet"@, recorded_magic_packet(original)))
    } else if h.len() == 1 {
        StepView::Run(
            scripts::nic_set_cmd(
                adapter,
                "Wake on Pattern Match"@,
                recorded_property(original, "Wake on Pattern Match"@),
            ),
        )
    } else {
        done(
            "Restore Wake on Magic Packet on "@ + adapter,
            applied_or_failed(
                h[0].success && h[1].success,
                if h[0].success {
                    h[1].stderr@
                } else {
                    h[0].stderr@
                },
            ),
            None,
        )
    }
}

/// Restoring an adapter property, the key reading `adapter\property`.
pub open spec fn nic_revert(e: EntryView, h: Seq<PsResult>) -> StepView {
    match index_of(e.key, '\\') {
        None => done("Revert NIC: "@ + e.key, StatusView::Skipped("Invalid key format"@), None),
        Some(i) => if e.key.skip(i + 1) == "WakeOnLAN"@ {
            wol_revert(e.key.take(i), e.original, h)
        } else {
            let adapter = e.key.take(i);
            let display = nic_display_name(e.key.skip(i + 1));
            let value = match json_as_str(e.original) {
                Some(s) => s,
                None => "Enabled"@,
            };
            if h.len() == 0 {
                StepView::Run(scripts::nic_set_cmd(adapter, display, value))
            } else {
                done(
                    "Restore "@ + display + " on "@ + adapter,
                    applied_or_failed(h[0].success, h[0].stderr@),
                    None,
                )
            }
        },
    }
}

/// The next step of undoing entry `e`, after the commands whose outcomes are `h`.
pub open spec fn revert_entry_step(e: EntryView, h: Seq<PsResult>) -> StepView {
    if e.category == "power_plan"@ {
        power_revert(e, h)
    } else if e.category == "registry"@ {
        registry_revert(e, h)
    } else if e.category == "service"@ {
        service_revert(e, h)
    } else if e.category == "nic"@ {
        nic_revert(e, h)
    } else {
        done("Revert: "@ + e.key, StatusView::Skipped("Unknown category"@), None)
    }
}

pub fn power_revert_step(e: &SnapshotEntry, h: &[PsResult]) -> (r: PsStep)
    ensures
        r@ == power_revert(e@, h@),
{
    match e.original_value.as_str() {
        Some(guid) => {
            if h.len() == 0 {
                PsStep::Run(scripts::power_set_command(guid.as_str()))
            } else {
                finish(
                    "Restore original power plan".to_string(),
                    status_of(h[0].success, h[0].stderr.clone()),
                    None,
                )
            }
        },
        None => finish(
            "Restore power plan".to_string(),
            ChangeStatus::Skipped("No original GUID saved".to_string()),
            None,
        ),
    }
}

/// Appends the command that puts back the value `name` as `record` recorded it
/// (see [`recorded_value_cmds`]).
pub fn recorded_value_commands(hive: &str, path: &str, name: &str, record: &JsonValue, cmds: &mut Vec<String>)
    ensures
        texts(final(cmds)@) == texts(old(cmds)@) + recorded_value_cmds(hive@, path@, name@, record@),
{
    let ghost before = texts(cmds@);
    match record.get(name) {
        Some(v) => match restore_value_command(hive, path, name, v) {
            Some(c) => {
                cmds.push(c);
            },
            None => {},
        },
        None => {},
    }
    assert(texts(cmds@) =~= before + recorded_value_cmds(hive@, path@, name@, record@));
}

/// Runs `cmds` in order, then reports whether all succeeded (see [`run_all`]).
pub fn run_all_step(cmds: &Vec<String>, h: &[PsResult], title: String, failure: String) -> (r: PsStep)
    ensures
        r@ == run_all(texts(cmds@), h@, title@, failure@),
{
    if h.len() < cmds.len() {
        return PsStep::Run(cmds[h.len()].clone());
    }
    let mut ok = true;
    let mut i: usize = 0;
    while i < cmds.len()
        invariant
            i <= cmds.len() <= h.len(),
            ok == all_succeeded(h@, i as int),
        decreases cmds.len() - i,
    {
        ok = ok && h[i].success;
        i += 1;
    }
    finish(title, status_of(ok, failure), None)
}

/// Appends the commands that put back one recorded interface's Nagle values.
pub fn nagle_item_commands(item: &JsonValue, cmds: &mut Vec<String>)
    ensures
        texts(final(cmds)@) == texts(old(cmds)@) + nagle_item_cmds(item@),
{
    let ghost before = texts(cmds@);
    match item.get("iface") {
        Some(v) => match v.as_str() {
            Some(iface) => {
                let path = interface_path_of(iface.as_str());
                recorded_value_commands("HKLM", path.as_str(), "TcpAckFrequency", item, cmds);
                recorded_value_commands("HKLM", path.as_str(), "TCPNoDelay", item, cmds);
            },
            None => {},
        },
        None => {},
    }
    assert(texts(cmds@) =~= before + nagle_item_cmds(item@));
}

pub fn nagle_revert_step(original: &JsonValue, h: &[PsResult]) -> (r: PsStep)
    ensures
        r@ == nagle_revert(original@, h@),
{
    match original {
        JsonValue::Array(items) => {
            let ghost model = original@->Array_0;
            let mut cmds: Vec<String> = Vec::new();
            let mut i: usize = 0;
            assert(model.take(0) =~= seq![]);
            assert(texts(cmds@) =~= seq![]);
            while i < items.len()
                invariant
                    i <= items@.len(),
                    model.len() == items@.len(),
                    forall|k: int| 0 <= k < items@.len() ==> #[trigger] model[k] == items@[k]@,
                    texts(cmds@) == nagle_restore_cmds(model.take(i as int)),
                decreases items.len() - i,
            {
                assert(model.take(i + 1).drop_last() =~= model.take(i as int));
                assert(model.take(i + 1).last() == items@[i as int]@);
                nagle_item_commands(&items[i], &mut cmds);
                i += 1;
            }
            assert(model.take(i as int) =~= model);
            run_all_step(
                &cmds,
                h,
                "Restore Nagle's Algorithm".to_string(),
                "Failed to restore Nagle registry values".to_string(),
            )
        },
        _ => finish(
            "Restore Nagle's Algorithm".to_string(),
            ChangeStatus::Failed("Failed to restore Nagle registry values".to_string()),
            None,
        ),
    }
}

/// The text a mouse entry recorded under `name` (see [`recorded_text`]).
pub fn recorded_text_of(original: &JsonValue, name: &str, default: &str) -> (r: String)
    ensures
        r@ == recorded_text(original@, name@, default@),
{
    match original.get(name) {
        Some(v) => match v.as_str() {
            Some(s) => s.clone(),
            None => default.to_string(),
        },
        None => default.to_string(),
    }
}

pub fn mouse_revert_step(original: &JsonValue, h: &[PsResult]) -> (r: PsStep)
    ensures
        r@ == mouse_revert(original@, h@),
{
    if !original.is_object() {
        return finish(
            "Restore Mouse Acceleration".to_string(),
            ChangeStatus::Failed("Registry write failed".to_string()),
            None,
        );
    }
    if h.len() == 0 {
        let v = recorded_text_of(original, "MouseSpeed", "1");
        return PsStep::Run(write_registry_string("HKCU", "Control Panel\\Mouse", "MouseSpeed", v.as_str()));
    }
    if h.len() == 1 {
        let v = recorded_text_of(original, "MouseThreshold1", "6");
        return PsStep::Run(write_registry_string("HKCU", "Control Panel\\Mouse", "MouseThreshold1", v.as_str()));
    }
    if h.len() == 2 {
        let v = recorded_text_of(original, "MouseThreshold2", "10");
        return PsStep::Run(write_registry_string("HKCU", "Control Panel\\Mouse", "MouseThreshold2", v.as_str()));
    }
    finish(
        "Restore Mouse Acceleration".to_string(),
        status_of(h[0].success && h[1].success && h[2].success, "Registry write failed".to_string()),
        None,
    )
}

pub fn ifeo_revert_step(exe: &str, h: &[PsResult]) -> (r: PsStep)
    ensures
        r@ == ifeo_revert(exe@, h@),
{
    if h.len() == 0 {
        let path = scripts::ifeo_path_of(exe);
        return PsStep::Run(scripts::remove_key_command(path.as_str()));
    }
    finish(joined3("Remove ", exe, " priority override"), status_of(h[0].success, h[0].stderr.clone()), None)
}

/// The command that puts back a registry value (see [`restore_value_cmd`]).
pub fn restore_value_command(hive: &str, path: &str, name: &str, original: &JsonValue) -> (r: Option<String>)
    ensures
        match r {
            Some(c) => restore_value_cmd(hive@, path@, name@, original@) == Some(c@),
            None => restore_value_cmd(hive@, path@, name@, original@) is None,
        },
{
    if original.is_null() {
        Some(scripts::remove_value_command(hive, path, name))
    } else {
        match original.as_u64() {
            Some(v) => Some(write_registry_dword(hive, path, name, v as u32)),
            None => match original.as_str() {
                Some(s) => Some(write_registry_string(hive, path, name, s.as_str())),
                None => None,
            },
        }
    }
}

pub fn value_revert_step(key: &str, original: &JsonValue, h: &[PsResult]) -> (r: PsStep)
    ensures
        r@ == value_revert(key@, original@, h@),
{
    let k = chars_of(key);
    match index_of_char(&k, '\\') {
        Some(i) => {
            let rest = slice_of(&k, i + 1, k.len());
            assert(rest@ == key@.skip(i + 1));
            match last_index_of_char(&rest, '\\') {
                Some(j) => {
                    let hive_s = substring(key, 0, i);
                    let path_s = substring(key, i + 1, i + 1 + j);
                    let name_s = substring(key, i + 2 + j, k.len());
                    assert(hive_s@ =~= key@.take(i as int));
                    assert(path_s@ =~= rest@.take(j as int));
                    assert(name_s@ =~= rest@.skip(j + 1));
                    match restore_value_command(hive_s.as_str(), path_s.as_str(), name_s.as_str(), original) {
                        Some(c) => {
                            if h.len() == 0 {
                                PsStep::Run(c)
                            } else {
                                finish(
                                    joined("Revert: ", key),
                                    status_of(h[0].success, "Registry revert failed".to_string()),
                                    None,
                                )
                            }
                        },
                        None => finish(
                            joined("Revert: ", key),
                            ChangeStatus::Failed("Registry revert failed".to_string()),
                            None,
                        ),
                    }
                },
                None => finish(
                    joined("Revert: ", key),
                    ChangeStatus::Skipped("No revert action matched".to_string()),
                    None,
                ),
            }
        },
        None => finish(
            joined("Revert: ", key),
            ChangeStatus::Skipped("No revert action matched".to_string()),
            None,
        ),
    }
}

pub fn registry_revert_step(e: &SnapshotEntry, h: &[PsResult]) -> (r: PsStep)
    ensures
        r@ == registry_revert(e@, h@),
{
    if text_eq(e.key.as_str(), "nagle_algorithm") {
        return nagle_revert_step(&e.original_value, h);
    }
    if text_eq(e.key.as_str(), "mouse_acceleration") {
        return mouse_revert_step(&e.original_value, h);
    }
    let k = chars_of(e.key.as_str());
    let p = chars_of("IFEO\\");
    if starts_with_chars(&k, &p) {
        let exe_s = substring(e.key.as_str(), p.len(), k.len());
        return ifeo_revert_step(exe_s.as_str(), h);
    }
    value_revert_step(e.key.as_str(), &e.original_value, h)
}

/// The startup type a service entry recorded (see [`recorded_startup`]).
pub fn recorded_startup_of(original: &JsonValue) -> (r: String)
    ensures
        r@ == recorded_startup(original@),
{
    match original.as_str() {
        Some(s) => s.clone(),
        None => "Manual".to_string(),
    }
}

pub fn service_revert_step(e: &SnapshotEntry, h: &[PsResult]) -> (r: PsStep)
    ensures
        r@ == service_revert(e@, h@),
{
    let startup = recorded_startup_of(&e.original_value);
    if h.len() == 0 {
        return PsStep::Run(scripts::service_set_command(e.key.as_str(), startup.as_str()));
    }
    if !text_eq(startup.as_str(), "Disabled") && h.len() == 1 {
        return PsStep::Run(scripts::service_start_command(e.key.as_str()));
    }
    let mut title = joined3("Restore ", e.key.as_str(), " (");
    title.append(startup.as_str());
    title.append(")");
    finish(title, status_of(h[0].success, h[0].stderr.clone()), None)
}

/// The display name of an adapter property (see [`nic_display_name`]).
pub fn nic_display_name_of(prop: &str) -> (r: String)
    ensures
        r@ == nic_display_name(prop@),
{
    if text_eq(prop, "InterruptModeration") {
        "Interrupt Moderation".to_string()
    } else {
        prop.to_string()
    }
}

/// The value a wake-on-LAN entry recorded for a property (see
/// [`recorded_property`]).
pub fn recorded_property_of(original: &JsonValue, display: &str) -> (r: String)
    ensures
        r@ == recorded_property(original@, display@),
{
    match original.get(display) {
        Some(v) => match v.as_str() {
            Some(s) => s.clone(),
            None => "Enabled".to_string(),
        },
        None => "Enabled".to_string(),
    }
}

pub fn wol_revert_step(adapter: &str, original: &JsonValue, h: &[PsResult]) -> (r: PsStep)
    ensures
        r@ == wol_revert(adapter@, original@, h@),
{
    if h.len() == 0 {
        let magic = match original.as_str() {
            Some(s) => s.clone(),
            None => recorded_property_of(original, "Wake on Magic Packet"),
        };
        return PsStep::Run(scripts::nic_set_command(adapter, "Wake on Magic Packet", magic.as_str()));
    }
    if h.len() == 1 {
        let pattern = recorded_property_of(original, "Wake on Pattern Match");
        return PsStep::Run(scripts::nic_set_command(adapter, "Wake on Pattern Match", pattern.as_str()));
    }
    let failure = if h[0].success {
        h[1].stderr.clone()
    } else {
        h[0].stderr.clone()
    };
    finish(
        joined("Restore Wake on Magic Packet on ", adapter),
        status_of(h[0].success && h[1].success, failure),
        None,
    )
}

pub fn nic_revert_step(e: &SnapshotEntry, h: &[PsResult]) -> (r: PsStep)
    ensures
        r@ == nic_revert(e@, h@),
{
    let k = chars_of(e.key.as_str());
    match index_of_char(&k, '\\') {
        None => finish(
            joined("Revert NIC: ", e.key.as_str()),
            ChangeStatus::Skipped("Invalid key format".to_string()),
            None,
        ),
        Some(i) => {
            let n = k.len();
            let adapter = substring(e.key.as_str(), 0, i);
            let prop = substring(e.key.as_str(), i + 1, n);
            if text_eq(prop.as_str(), "WakeOnLAN") {
                return wol_revert_step(adapter.as_str(), &e.original_value, h);
            }
            let display = nic_display_name_of(prop.as_str());
            let value = match e.original_value.as_str() {
                Some(s) => s.clone(),
                None => "Enabled".to_string(),
            };
            if h.len() == 0 {
                PsStep::Run(scripts::nic_set_command(adapter.as_str(), display.as_str(), value.as_str()))
            } else {
                let mut title = joined3("Restore ", display.as_str(), " on ");
                title.append(adapter.as_str());
                finish(title, status_of(h[0].success, h[0].stderr.clone()), None)
            }
        },
    }
}

/// The next step of undoing `entry`, given the outcomes `history` of the
/// commands run for it so far (see [`revert_entry_step`]).
pub fn revert_step(entry: &SnapshotEntry, history: &[PsResult]) -> (r: PsStep)
    ensures
        r@ == revert_entry_step(entry@, history@),
{
    let c = entry.category.as_str();
    if text_eq(c, "power_plan") {
        power_revert_step(entry, history)
    } else if text_eq(c, "registry") {
        registry_revert_step(entry, history)
    } else if text_eq(c, "service") {
        service_revert_step(entry, history)
    } else if text_eq(c, "nic") {
        nic_revert_step(entry, history)
    } else {
        finish(
            joined("Revert: ", entry.key.as_str()),
            ChangeStatus::Skipped("Unknown category".to_string()),
            None,
        )
    }
}

} // verus!
