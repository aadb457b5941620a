//! What each change and each revert reports, in terms of the outcomes of the
//! commands it ran: a change is `Applied` only when its writes succeeded, and
//! its snapshot entry records what was read before them.
use vstd::prelude::*;
use crate::json::JsonSpec;
use crate::optimizer::{Change, PsResult, ResultView, StatusView, StepView, change_step, nagle_applied, nagle_writes_ok};
use crate::registry::{dword_output, string_output};
use crate::revert::revert_entry_step;
use crate::scripts;
use crate::text::{nonblank_lines, trim};
use crate::types::EntryView;

verus! {

broadcast use vstd::string::group_string_axioms;

/// `Applied` when `ok`, else `Failed(msg)`, written out.
pub open spec fn applied_else(ok: bool, msg: Seq<char>) -> StatusView {
    if ok {
        StatusView::Applied
    } else {
        StatusView::Failed(msg)
    }
}

/// The value a DWORD read recorded: the number read, or null when it found none.
pub open spec fn dword_record(read: PsResult) -> JsonSpec {
    match dword_output(read.stdout@) {
        Some(x) => JsonSpec::Unsigned(x as u64),
        None => JsonSpec::Null,
    }
}

/// Disabling USB selective suspend reads `DisableSelectiveSuspend` and writes
/// 1; disabling background apps reads `LetAppsRunInBackground` and writes 2.
/// Each is `Applied` exactly when the write succeeded, else
/// `Failed("Registry write failed")`, and its entry records, under the value's
/// full key, the number read (null when none), the number written, and whether
/// the write succeeded.
pub proof fn law_dword_change_outcome(c: Change, h: Seq<PsResult>)
    requires
        c is UsbSuspendDisable || c is BackgroundAppsDisable,
        h.len() >= 2,
    ensures
        change_step(c, h) == StepView::Done(
            ResultView {
                title: if c is UsbSuspendDisable {
                    "Disable USB Selective Suspend"@
                } else {
                    "Disable background apps"@
                },
                status: applied_else(h[1].success, "Registry write failed"@),
                entry: Some(
                    EntryView {
                        category: "registry"@,
                        key: if c is UsbSuspendDisable {
                            "HKLM\\SYSTEM\\CurrentControlSet\\Services\\USB\\DisableSelectiveSuspend"@
                        } else {
                            "HKLM\\SOFTWARE\\Policies\\Microsoft\\Windows\\AppPrivacy\\LetAppsRunInBackground"@
                        },
                        original: dword_record(h[0]),
                        new_value: JsonSpec::Unsigned(if c is UsbSuspendDisable {
                            1
                        } else {
                            2
                        }),
                        applied: h[1].success,
                    },
                ),
            },
        ),
{
    reveal_strlit("HKLM");
    reveal_strlit("\\");
    reveal_strlit("SYSTEM\\CurrentControlSet\\Services\\USB");
    reveal_strlit("DisableSelectiveSuspend");
    reveal_strlit("HKLM\\SYSTEM\\CurrentControlSet\\Services\\USB\\DisableSelectiveSuspend");
    reveal_strlit("SOFTWARE\\Policies\\Microsoft\\Windows\\AppPrivacy");
    reveal_strlit("LetAppsRunInBackground");
    reveal_strlit("HKLM\\SOFTWARE\\Policies\\Microsoft\\Windows\\AppPrivacy\\LetAppsRunInBackground");
    assert("HKLM"@ + "\\"@ + "SYSTEM\\CurrentControlSet\\Services\\USB"@ + "\\"@ + "DisableSelectiveSuspend"@
        =~= "HKLM\\SYSTEM\\CurrentControlSet\\Services\\USB\\DisableSelectiveSuspend"@);
    assert("HKLM"@ + "\\"@ + "SOFTWARE\\Policies\\Microsoft\\Windows\\AppPrivacy"@ + "\\"@
        + "LetAppsRunInBackground"@
        =~= "HKLM\\SOFTWARE\\Policies\\Microsoft\\Windows\\AppPrivacy\\LetAppsRunInBackground"@);
}

/// Activating Ultimate Performance is `Applied` exactly when its last command,
/// `powercfg /setactive` of the Ultimate Performance GUID, succeeded; it then
/// records the scheme that was active before. Otherwise it is
/// `Failed` with that command's stderr and records nothing. The scheme is
/// created first only when the listing lacks it.
pub proof fn law_ultimate_outcome(h: Seq<PsResult>)
    requires
        h.len() >= 1,
    ensures
        ({
            let listed = crate::text::contains(h[0].stdout@, scripts::ultimate_guid());
            let at: int = if listed {
                1
            } else {
                2
            };
            &&& !listed ==> change_step(Change::UltimatePerformance, h.take(1)) == StepView::Run(
                scripts::power_duplicate_cmd(),
            )
            &&& h.len() > at + 1 ==> change_step(Change::UltimatePerformance, h) == StepView::Done(
                ResultView {
                    title: "Activate Ultimate Performance plan"@,
                    status: applied_else(h[at + 1].success, h[at + 1].stderr@),
                    entry: if h[at + 1].success {
                        Some(
                            EntryView {
                                category: "power_plan"@,
                                key: "active_scheme"@,
                                original: JsonSpec::Str(trim(h[at].stdout@)),
                                new_value: JsonSpec::Str(scripts::ultimate_guid()),
                                applied: true,
                            },
                        )
                    } else {
                        None
                    },
                },
            )
        }),
{
    assert(h.take(1).len() == 1);
    assert(h.take(1)[0] == h[0]);
}

/// Disabling interrupt moderation is `Applied` exactly when setting the
/// property succeeded, else `Failed` with its stderr; the entry records, under
/// `adapter\InterruptModeration`, the value read (`Enabled` when the read
/// printed nothing).
pub proof fn law_interrupt_outcome(adapter: String, h: Seq<PsResult>)
    requires
        h.len() >= 2,
    ensures
        change_step(Change::InterruptModDisable(adapter), h) == StepView::Done(
            ResultView {
                title: "Disable Interrupt Moderation on "@ + adapter@,
                status: applied_else(h[1].success, h[1].stderr@),
                entry: Some(
                    EntryView {
                        category: "nic"@,
                        key: adapter@ + "\\InterruptModeration"@,
                        original: JsonSpec::Str(
                            if trim(h[0].stdout@).len() == 0 {
                                "Enabled"@
                            } else {
                                trim(h[0].stdout@)
                            },
                        ),
                        new_value: JsonSpec::Str("Disabled"@),
                        applied: h[1].success,
                    },
                ),
            },
        ),
{
}

/// Disabling wake-on-LAN is `Applied` exactly when turning both properties off
/// succeeded, else `Skipped("WoL settings not found")`; the entry records the
/// value read of each property (`Enabled` when a read printed nothing).
pub proof fn law_wol_outcome(adapter: String, h: Seq<PsResult>)
    requires
        h.len() >= 3,
    ensures
        ({
            let read = |o: PsResult|
                if trim(o.stdout@).len() == 0 {
                    "Enabled"@
                } else {
                    trim(o.stdout@)
                };
            change_step(Change::WakeOnLanDisable(adapter), h) == StepView::Done(
                ResultView {
                    title: "Disable Wake-on-LAN"@,
                    status: if h[2].success {
                        StatusView::Applied
                    } else {
                        StatusView::Skipped("WoL settings not found"@)
                    },
                    entry: Some(
                        EntryView {
                            category: "nic"@,
                            key: adapter@ + "\\WakeOnLAN"@,
                            original: JsonSpec::Object(
                                seq![
                                    ("Wake on Magic Packet"@, JsonSpec::Str(read(h[0]))),
                                    ("Wake on Pattern Match"@, JsonSpec::Str(read(h[1]))),
                                ],
                            ),
                            new_value: JsonSpec::Str("Disabled"@),
                            applied: h[2].success,
                        },
                    ),
                },
            )
        }),
{
}

/// Disabling mouse acceleration is `Applied` exactly when all three writes
/// (the fourth to sixth commands) succeeded, else
/// `Failed("Registry write failed")`; the curve is flattened only after three
/// successful writes; the entry records the three texts read (null where
/// none).
pub proof fn law_mouse_outcome(h: Seq<PsResult>)
    requires
        change_step(Change::MouseAccelDisable, h) is Done,
    ensures
        ({
            let ok = h[3].success && h[4].success && h[5].success;
            let text = |o: PsResult|
                match string_output(o.stdout@) {
                    Some(s) => JsonSpec::Str(s),
                    None => JsonSpec::Null,
                };
            &&& h.len() >= 6
            &&& (h.len() == 6 ==> !ok)
            &&& ok ==> change_step(Change::MouseAccelDisable, h.take(6)) == StepView::Run(
                scripts::mouse_curve_cmd(),
            )
            &&& change_step(Change::MouseAccelDisable, h)->Done_0.status == applied_else(
                ok,
                "Registry write failed"@,
            )
            &&& change_step(Change::MouseAccelDisable, h)->Done_0.entry == Some(
                EntryView {
                    category: "registry"@,
                    key: "mouse_acceleration"@,
                    original: JsonSpec::Object(
                        seq![
                            ("MouseSpeed"@, text(h[0])),
                            ("MouseThreshold1"@, text(h[1])),
                            ("MouseThreshold2"@, text(h[2])),
                        ],
                    ),
                    new_value: JsonSpec::Object(
                        seq![
                            ("MouseSpeed"@, JsonSpec::Str("0"@)),
                            ("MouseThreshold1"@, JsonSpec::Str("0"@)),
                            ("MouseThreshold2"@, JsonSpec::Str("0"@)),
                        ],
                    ),
                    applied: ok,
                },
            )
        }),
{
    assert(h.take(6).len() == 6);
    assert forall|i: int| 0 <= i < 6 implies h.take(6)[i] == h[i] by {}
}

/// Raising a game's priority is `Applied` exactly when creating its Image File
/// Execution Options key succeeded, else `Failed` with the stderr; the entry
/// records under `IFEO\exe` that nothing was there (null) and the priority 3.
pub proof fn law_priority_outcome(exe: String, h: Seq<PsResult>)
    requires
        h.len() >= 1,
    ensures
        change_step(Change::ProcessPriority(exe), h) == StepView::Done(
            ResultView {
                title: "Set "@ + exe@ + " priority to High"@,
                status: applied_else(h[0].success, h[0].stderr@),
                entry: Some(
                    EntryView {
                        category: "registry"@,
                        key: "IFEO\\"@ + exe@,
                        original: JsonSpec::Null,
                        new_value: JsonSpec::Unsigned(3),
                        applied: h[0].success,
                    },
                ),
            },
        ),
{
}

/// Both Nagle writes on the `j`-th listed interface succeeded.
pub open spec fn interface_written(h: Seq<PsResult>, j: int) -> bool {
    h[3 + 4 * j].success && h[4 + 4 * j].success
}

proof fn lemma_nagle_count(h: Seq<PsResult>, k: nat)
    ensures
        (nagle_applied(h, k) > 0) == (exists|j: int| 0 <= j < k && #[trigger] nagle_writes_ok(h, j)),
    decreases k,
{
    if k > 0 {
        lemma_nagle_count(h, (k - 1) as nat);
        if nagle_writes_ok(h, k - 1) {
            assert(exists|j: int| 0 <= j < k && #[trigger] nagle_writes_ok(h, j));
        } else {
            assert forall|j: int| 0 <= j < k && #[trigger] nagle_writes_ok(h, j) implies 0 <= j < k - 1 by {}
        }
    }
}

/// Disabling Nagle is `Applied` when both writes succeeded on at least one
/// interface, `Skipped("No network interfaces found")` when none was listed,
/// and `Failed("Registry writes failed")` otherwise; its entry counts as
/// applied exactly when it is `Applied`.
pub proof fn law_nagle_outcome(h: Seq<PsResult>)
    requires
        change_step(Change::NagleDisable, h) is Done,
    ensures
        ({
            let m = nonblank_lines(h[0].stdout@).len();
            let some = exists|j: int| 0 <= j < m && #[trigger] interface_written(h, j);
            let r = change_step(Change::NagleDisable, h)->Done_0;
            &&& r.status == if some {
                StatusView::Applied
            } else if m == 0 {
                StatusView::Skipped("No network interfaces found"@)
            } else {
                StatusView::Failed("Registry writes failed"@)
            }
            &&& r.entry is Some
            &&& r.entry->0.applied == some
            &&& r.entry->0.key == "nagle_algorithm"@
        }),
{
    let m = nonblank_lines(h[0].stdout@).len();
    lemma_nagle_count(h, m);
    let some = exists|j: int| 0 <= j < m && #[trigger] interface_written(h, j);
    assert(some == (exists|j: int| 0 <= j < m && #[trigger] nagle_writes_ok(h, j))) by {
        if some {
            let j = choose|j: int| 0 <= j < m && #[trigger] interface_written(h, j);
            assert(nagle_writes_ok(h, j));
        }
        if exists|j: int| 0 <= j < m && #[trigger] nagle_writes_ok(h, j) {
            let j = choose|j: int| 0 <= j < m && #[trigger] nagle_writes_ok(h, j);
            assert(interface_written(h, j));
        }
    }
}

// ─── Reverts ────────────────────────────────────────────────────────────────

/// Restoring a service's startup type is `Applied` exactly when setting it
/// succeeded, else `Failed` with its stderr; the service is started only when
/// the recorded type is not `Disabled`, and starting it does not change the
/// status.
pub proof fn law_service_revert_outcome(e: EntryView, h: Seq<PsResult>)
    requires
        e.category == "service"@,
        e.original is Str,
        h.len() >= 2 || (h.len() == 1 && e.original->Str_0 == "Disabled"@),
    ensures
        revert_entry_step(e, h) == StepView::Done(
            ResultView {
                title: "Restore "@ + e.key + " ("@ + e.original->Str_0 + ")"@,
                status: applied_else(h[0].success, h[0].stderr@),
                entry: None,
            },
        ),
{
    reveal_strlit("service");
    reveal_strlit("power_plan");
    reveal_strlit("registry");
    assert("service"@.len() != "power_plan"@.len());
    assert("service"@.len() != "registry"@.len());
}

/// Putting back a single registry value (key `hive\path\name`) is `Applied`
/// exactly when the command succeeded, else `Failed("Registry revert failed")`.
pub proof fn law_value_revert_outcome(e: EntryView, x: PsResult)
    requires
        e.category == "registry"@,
        e.key.len() > 0 && e.key[0] == 'H',
        revert_entry_step(e, seq![]) is Run,
    ensures
        revert_entry_step(e, seq![x]) == StepView::Done(
            ResultView {
                title: "Revert: "@ + e.key,
                status: applied_else(x.success, "Registry revert failed"@),
                entry: None,
            },
        ),
{
    reveal_strlit("registry");
    reveal_strlit("power_plan");
    reveal_strlit("nagle_algorithm");
    reveal_strlit("mouse_acceleration");
    reveal_strlit("IFEO\\");
    assert("registry"@.len() != "power_plan"@.len());
    assert(e.key != "nagle_algorithm"@);
    assert(e.key != "mouse_acceleration"@);
    assert(!crate::text::starts_with(e.key, "IFEO\\"@)) by {
        if crate::text::starts_with(e.key, "IFEO\\"@) {
            assert(e.key.subrange(0, 5)[0] == 'I');
        }
    }
}

/// Restoring an adapter property other than wake-on-LAN is `Applied` exactly
/// when setting it succeeded, else `Failed` with its stderr; restoring
/// wake-on-LAN is `Applied` exactly when both of its writes succeeded.
pub proof fn law_nic_revert_outcome(e: EntryView, h: Seq<PsResult>)
    requires
        e.category == "nic"@,
        h.len() >= 2,
        crate::text::index_of(e.key, '\\') is Some,
    ensures
        ({
            let i = crate::text::index_of(e.key, '\\')->0;
            let r = revert_entry_step(e, h);
            &&& e.key.skip(i + 1) == "WakeOnLAN"@ ==> r is Done && r->Done_0.status
                is Applied == (h[0].success && h[1].success)
            &&& e.key.skip(i + 1) != "WakeOnLAN"@ ==> r is Done && r->Done_0.status == applied_else(
                h[0].success,
                h[0].stderr@,
            )
        }),
{
    reveal_strlit("nic");
    reveal_strlit("power_plan");
    reveal_strlit("registry");
    reveal_strlit("service");
    assert("nic"@.len() != "power_plan"@.len());
    assert("nic"@.len() != "registry"@.len());
    assert("nic"@.len() != "service"@.len());
}

/// An entry of a category the revert does not know is skipped, with no command.
pub proof fn law_unknown_category(e: EntryView, h: Seq<PsResult>)
    requires
        e.category != "power_plan"@,
        e.category != "registry"@,
        e.category != "service"@,
        e.category != "nic"@,
    ensures
        revert_entry_step(e, h) == StepView::Done(
            ResultView {
                title: "Revert: "@ + e.key,
                status: StatusView::Skipped("Unknown category"@),
                entry: None,
            },
        ),
{
}

} // verus!
