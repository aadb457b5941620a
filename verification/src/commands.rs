//! What the application's commands compute around the optimizer: finding a
//! profile, summarizing a snapshot, and turning results into messages.
use vstd::prelude::*;
use crate::optimizer::{ApplyResult, ChangeStatus, ResultView, StatusView};
use crate::profiles::{all_profiles, is_casual_gaming, is_competitive_fps, is_productivity, is_streaming, is_video_editing};
use crate::snapshot::{capture_snapshot, fingerprint};
use crate::text::text_eq;
use crate::types::{EntryView, HardwareProfile, Profile, Snapshot, SnapshotEntry};

verus! {

broadcast use vstd::string::group_string_axioms;

/// What the interface learns of a saved snapshot.
#[derive(Debug, Clone)]
pub struct SnapshotInfo {
    pub exists: bool,
    pub timestamp: String,
    pub profile: String,
    pub change_count: usize,
}

/// One result as the interface shows it: a title, `"applied"`, `"skipped"` or
/// `"failed"`, and the reason for the latter two.
#[derive(Debug, Clone)]
pub struct ApplyResultIpc {
    pub title: String,
    pub status: String,
    pub message: Option<String>,
}

pub struct IpcView {
    pub title: Seq<char>,
    pub status: Seq<char>,
    pub message: Option<Seq<char>>,
}

impl View for ApplyResultIpc {
    type V = IpcView;

    open spec fn view(&self) -> IpcView {
        IpcView {
            title: self.title@,
            status: self.status@,
            message: match self.message {
                Some(m) => Some(m@),
                None => None,
            },
        }
    }
}

/// All available optimization profiles, in display order, with distinct ids.
pub fn get_profiles() -> (r: Vec<Profile>)
    ensures
        r@.len() == 5,
        is_competitive_fps(r@[0]),
        is_casual_gaming(r@[1]),
        is_video_editing(r@[2]),
        is_streaming(r@[3]),
        is_productivity(r@[4]),
        forall|i: int, j: int| 0 <= i < j < 5 ==> (#[trigger] r@[i]).id@ != (#[trigger] r@[j]).id@,
{
    all_profiles()
}

/// The summary of a saved snapshot, if there is one.
pub fn check_snapshot(snap: Option<Snapshot>) -> (r: Option<SnapshotInfo>)
    ensures
        match snap {
            Some(s) => r matches Some(i) && i.exists && i.timestamp == s.timestamp && i.profile
                == s.profile_applied && i.change_count == s.changes@.len(),
            None => r is None,
        },
{
    match snap {
        Some(s) => {
            let n = s.changes.len();
            Some(SnapshotInfo { exists: true, timestamp: s.timestamp, profile: s.profile_applied, change_count: n })
        },
        None => None,
    }
}

/// The position of the first profile with id `id`.
pub open spec fn first_with_id(profiles: Seq<Profile>, id: Seq<char>) -> Option<int>
    decreases profiles.len(),
{
    if profiles.len() == 0 {
        None
    } else {
        let before = first_with_id(profiles.drop_last(), id);
        if before is Some {
            before
        } else if profiles.last().id@ == id {
            Some(profiles.len() - 1)
        } else {
            None
        }
    }
}

proof fn lemma_first_with_id_extend(profiles: Seq<Profile>, k: int, id: Seq<char>)
    requires
        0 <= k <= profiles.len(),
        first_with_id(profiles.take(k), id) is Some,
    ensures
        first_with_id(profiles, id) == first_with_id(profiles.take(k), id),
    decreases profiles.len() - k,
{
    if k < profiles.len() {
        assert(profiles.take(k + 1).drop_last() =~= profiles.take(k));
        lemma_first_with_id_extend(profiles, k + 1, id);
    } else {
        assert(profiles.take(k) =~= profiles);
    }
}

/// The first profile with id `profile_id`, or the error naming the id.
pub fn find_profile<'a>(profiles: &'a Vec<Profile>, profile_id: &str) -> (r: Result<&'a Profile, String>)
    ensures
        match r {
            Ok(p) => first_with_id(profiles@, profile_id@) is Some && *p == profiles@[first_with_id(
                profiles@,
                profile_id@,
            )->0],
            Err(e) => first_with_id(profiles@, profile_id@) is None && e@ == "Profile '"@
                + profile_id@ + "' not found"@,
        },
{
    let mut i: usize = 0;
    assert(profiles@.take(0) =~= seq![]);
    while i < profiles.len()
        invariant
            i <= profiles@.len(),
            first_with_id(profiles@.take(i as int), profile_id@) is None,
        decreases profiles@.len() - i,
    {
        assert(profiles@.take(i + 1).drop_last() =~= profiles@.take(i as int));
        assert(profiles@.take(i + 1).last() == profiles@[i as int]);
        if text_eq(profiles[i].id.as_str(), profile_id) {
            proof {
                lemma_first_with_id_extend(profiles@, i as int + 1, profile_id@);
            }
            return Ok(&profiles[i]);
        }
        i += 1;
    }
    assert(profiles@.take(i as int) =~= profiles@);
    let mut e = "Profile '".to_string();
    e.append(profile_id);
    e.append("' not found");
    Err(e)
}

/// How the interface shows a result.
pub open spec fn ipc_view(r: ResultView) -> IpcView {
    IpcView {
        title: r.title,
        status: match r.status {
            StatusView::Applied => "applied"@,
            StatusView::Skipped(_) => "skipped"@,
            StatusView::Failed(_) => "failed"@,
        },
        message: match r.status {
            StatusView::Applied => None,
            StatusView::Skipped(m) => Some(m),
            StatusView::Failed(m) => Some(m),
        },
    }
}

/// A result as the interface shows it (see [`ipc_view`]).
pub fn to_ipc(r: ApplyResult) -> (i: ApplyResultIpc)
    ensures
        i@ == ipc_view(r@),
{
    let (status, message) = match r.status {
        ChangeStatus::Applied => ("applied".to_string(), None),
        ChangeStatus::Skipped(reason) => ("skipped".to_string(), Some(reason)),
        ChangeStatus::Failed(err) => ("failed".to_string(), Some(err)),
    };
    ApplyResultIpc { title: r.title, status, message }
}

pub open spec fn result_views(rs: Seq<ApplyResult>) -> Seq<ResultView> {
    Seq::new(rs.len(), |i: int| rs[i]@)
}

pub open spec fn entry_views(es: Seq<SnapshotEntry>) -> Seq<EntryView> {
    Seq::new(es.len(), |i: int| es[i]@)
}

pub open spec fn ipc_views(is: Seq<ApplyResultIpc>) -> Seq<IpcView> {
    Seq::new(is.len(), |i: int| is[i]@)
}

/// The snapshot entries the results carry, in order.
pub open spec fn carried_entries(rs: Seq<ResultView>) -> Seq<EntryView>
    decreases rs.len(),
{
    if rs.len() == 0 {
        seq![]
    } else {
        carried_entries(rs.drop_last()) + match rs.last().entry {
            Some(e) => seq![e],
            None => seq![],
        }
    }
}

/// Parts the results of applying a profile into the snapshot entries they
/// carry, in order, and the results as the interface shows them, in order.
pub fn split_results(results: Vec<ApplyResult>) -> (r: (Vec<SnapshotEntry>, Vec<ApplyResultIpc>))
    ensures
        entry_views(r.0@) == carried_entries(result_views(results@)),
        ipc_views(r.1@) == result_views(results@).map_values(|v: ResultView| ipc_view(v)),
{
    let ghost all = result_views(results@);
    let mut rest = results;
    let mut entries: Vec<SnapshotEntry> = Vec::new();
    let mut shown: Vec<ApplyResultIpc> = Vec::new();
    let mut i: usize = 0;
    let n = rest.len();
    assert(all.take(0) =~= seq![]);
    assert(entry_views(entries@) =~= seq![]);
    while rest.len() > 0
        invariant
            i + rest@.len() == all.len(),
            all.len() == n,
            forall|k: int| 0 <= k < rest@.len() ==> #[trigger] rest@[k]@ == all[i + k],
            entry_views(entries@) == carried_entries(all.take(i as int)),
            shown@.len() == i,
            forall|k: int| 0 <= k < i ==> #[trigger] shown@[k]@ == ipc_view(all[k]),
        decreases rest@.len(),
    {
        let ghost before = rest@;
        let r = rest.remove(0);
        assert(r@ == all[i as int]);
        assert forall|k: int| 0 <= k < rest@.len() implies #[trigger] rest@[k]@ == all[i + 1 + k] by {
            assert(rest@[k] == before[k + 1]);
        }
        assert(all.take(i + 1).drop_last() =~= all.take(i as int));
        assert(all.take(i + 1).last() == all[i as int]);
        let ghost old_entries = entries@;
        let ApplyResult { title, status, snapshot_entry } = r;
        match snapshot_entry {
            Some(e) => {
                entries.push(e);
                assert(entry_views(entries@) =~= entry_views(old_entries) + seq![e@]);
            },
            None => {
                assert(entry_views(entries@) =~= entry_views(old_entries) + seq![]);
            },
        }
        let shown_one = to_ipc(ApplyResult { title, status, snapshot_entry: None });
        shown.push(shown_one);
        i += 1;
    }
    assert(all.take(i as int) =~= all);
    assert(ipc_views(shown@) =~= all.map_values(|v: ResultView| ipc_view(v)));
    (entries, shown)
}

/// The results as the interface shows them, in order.
pub fn to_ipc_results(results: Vec<ApplyResult>) -> (r: Vec<ApplyResultIpc>)
    ensures
        ipc_views(r@) == result_views(results@).map_values(|v: ResultView| ipc_view(v)),
{
    split_results(results).1
}

/// The snapshot to save after applying a profile: none when no change carried
/// an entry, else one of all the entries, taken at `timestamp` on `hardware`.
pub fn snapshot_for(profile_id: &str, entries: Vec<SnapshotEntry>, hardware: &HardwareProfile, timestamp: String) -> (r: Option<
    Snapshot,
>)
    ensures
        entries@.len() == 0 ==> r is None,
        entries@.len() > 0 ==> (r matches Some(s) && s.changes == entries && s.profile_applied@
            == profile_id@ && s.version == crate::snapshot::SNAPSHOT_VERSION && s.timestamp == timestamp
            && s.hardware_fingerprint@ == fingerprint(*hardware)),
{
    if entries.len() == 0 {
        None
    } else {
        Some(capture_snapshot(profile_id, entries, hardware, timestamp))
    }
}

/// No entry failed to revert.
pub open spec fn revert_complete(results: Seq<ResultView>) -> bool {
    forall|i: int| 0 <= i < results.len() ==> !(#[trigger] results[i].status is Failed)
}

/// Whether the saved snapshot may be deleted after a revert with these results:
/// only when no entry failed to revert, so that a failed revert can be retried.
pub fn snapshot_can_be_deleted(results: &Vec<ApplyResult>) -> (r: bool)
    ensures
        r == revert_complete(result_views(results@)),
{
    let mut i: usize = 0;
    while i < results.len()
        invariant
            i <= results@.len(),
            forall|k: int| 0 <= k < i ==> !(#[trigger] results@[k]@.status is Failed),
        decreases results.len() - i,
    {
        match &results[i].status {
            ChangeStatus::Failed(_) => {
                assert(result_views(results@)[i as int].status is Failed);
                return false;
            },
            _ => {},
        }
        i += 1;
    }
    proof {
        assert forall|k: int| 0 <= k < result_views(results@).len() implies !(
        #[trigger] result_views(results@)[k].status is Failed) by {
            assert(result_views(results@)[k] == results@[k]@);
        }
    }
    true
}

/// The saved snapshot to revert, or the error that there is none.
pub fn snapshot_to_revert(snap: Option<Snapshot>) -> (r: Result<Snapshot, String>)
    ensures
        match snap {
            Some(s) => r == Ok::<Snapshot, String>(s),
            None => r matches Err(e) && e@ == "No snapshot found to revert"@,
        },
{
    match snap {
        Some(s) => Ok(s),
        None => Err("No snapshot found to revert".to_string()),
    }
}

} // verus!
