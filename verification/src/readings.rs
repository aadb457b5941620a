//! What the readings of hardware reports, manifests and results promise, in
//! terms of their inputs: which row or line is chosen, and what is made of it.
use vstd::prelude::*;
use crate::commands::{first_with_id, ipc_view, revert_complete};
use crate::detector::{WmiNetwork, has_exe, known_exe_in, known_games, known_scan, acf_line_value, acf_value_in, desktop, first_connected, first_exe, exe_file_name, game_exe, lowered_storage_kind, memory_type_name, speed_text};
use crate::optimizer::{ResultView, StatusView};
use crate::revert::applied_indices;
use crate::text::{contains, decimal, trim};
use crate::types::{GameSource, GameView, Profile, SnapshotEntry, StorageType};

verus! {

broadcast use vstd::string::group_string_axioms;

/// Memory type 26 is DDR4 and 34 is DDR5; any other code `t` reads `Type t`,
/// and no code reads `Unknown`.
pub proof fn law_memory_type(t: u32)
    ensures
        memory_type_name(Some(26)) == "DDR4"@,
        memory_type_name(Some(34)) == "DDR5"@,
        memory_type_name(None) == "Unknown"@,
        t != 26 && t != 34 ==> memory_type_name(Some(t)) == "Type "@ + decimal(t as nat),
{
}

/// A link speed of at least a gigabit per second is shown in whole Gbps,
/// any other in whole Mbps; an unknown speed is `Unknown`.
pub proof fn law_link_speed(b: u64)
    ensures
        speed_text(None) == "Unknown"@,
        b >= 1_000_000_000 ==> speed_text(Some(b)) == decimal((b / 1_000_000_000) as nat) + " Gbps"@,
        b < 1_000_000_000 ==> speed_text(Some(b)) == decimal((b / 1_000_000) as nat) + " Mbps"@,
{
}

/// The active adapter is the first row with a connection id: that row has
/// one and no row before it does; there is none only when no row has one.
pub proof fn law_active_adapter(rows: Seq<WmiNetwork>)
    ensures
        match first_connected(rows) {
            Some(i) => 0 <= i < rows.len() && rows[i].net_connection_id is Some && forall|j: int|
                0 <= j < i ==> (#[trigger] rows[j]).net_connection_id is None,
            None => forall|j: int| 0 <= j < rows.len() ==> (#[trigger] rows[j]).net_connection_id is None,
        },
    decreases rows.len(),
{
    if rows.len() > 0 {
        let init = rows.drop_last();
        law_active_adapter(init);
        assert forall|j: int| 0 <= j < init.len() implies init[j] == rows[j] by {}
    }
}

/// A machine is a desktop when it has no battery library, when the battery
/// check could not run, or when the check printed `True`; otherwise it is not.
pub proof fn law_desktop(dll_exists: bool, check: Option<Seq<char>>)
    ensures
        desktop(dll_exists, check) == (!dll_exists || check is None || trim(check->0) == "True"@),
{
}

/// The disk kind: a model whose lower-case text contains `nvme` is NVMe
/// whatever the media says; otherwise a media type naming SSD or Solid is
/// SSD, one naming Fixed or HDD is HDD; otherwise a model containing `ssd` is
/// SSD, and anything else is Unknown.
pub proof fn law_storage_kind(lower: Seq<char>, media: Option<Seq<char>>)
    ensures
        contains(lower, "nvme"@) ==> lowered_storage_kind(lower, media) == StorageType::NVMe,
        !contains(lower, "nvme"@) && media is Some && (contains(media->0, "SSD"@) || contains(
            media->0,
            "Solid"@,
        )) ==> lowered_storage_kind(lower, media) == StorageType::SSD,
        !contains(lower, "nvme"@) && media is Some && !(contains(media->0, "SSD"@) || contains(
            media->0,
            "Solid"@,
        )) && (contains(media->0, "Fixed"@) || contains(media->0, "HDD"@)) ==> lowered_storage_kind(lower, media)
            == StorageType::HDD,
        !contains(lower, "nvme"@) && (media is None || !(contains(media->0, "SSD"@) || contains(media->0, "Solid"@)
            || contains(media->0, "Fixed"@) || contains(media->0, "HDD"@))) ==> lowered_storage_kind(lower, media)
            == if contains(lower, "ssd"@) {
            StorageType::SSD
        } else {
            StorageType::Unknown
        },
{
}

/// The main executable of a game directory is the first listed name that is
/// an executable; there is none only when no listed name is one.
pub proof fn law_main_exe(names: Seq<String>)
    ensures
        match first_exe(names) {
            Some(e) => exists|i: int|
                0 <= i < names.len() && (#[trigger] names[i])@ == e && exe_file_name(e) && forall|j: int|
                    0 <= j < i ==> !exe_file_name((#[trigger] names[j])@),
            None => forall|j: int| 0 <= j < names.len() ==> !exe_file_name((#[trigger] names[j])@),
        },
    decreases names.len(),
{
    if names.len() > 0 {
        let init = names.drop_last();
        law_main_exe(init);
        assert forall|j: int| 0 <= j < init.len() implies init[j] == names[j] by {}
        match first_exe(init) {
            Some(e) => {
                let i = choose|i: int|
                    0 <= i < init.len() && (#[trigger] init[i])@ == e && exe_file_name(e) && forall|j: int|
                        0 <= j < i ==> !exe_file_name((#[trigger] init[j])@);
                assert(names[i] == init[i]);
            },
            None => {
                if exe_file_name(names.last()@) {
                    assert(names[names.len() - 1] == names.last());
                }
            },
        }
    }
}

/// A file name is an executable when it ends in `.exe` after a non-empty stem.
pub proof fn law_exe_name(stem: Seq<char>)
    ensures
        stem.len() > 0 && !stem.contains('.') ==> exe_file_name(stem + ".exe"@),
        !exe_file_name(".exe"@),
        !exe_file_name(stem + ".txt"@),
{
    reveal_strlit(".exe");
    reveal_strlit(".txt");
    reveal_strlit("exe");
    reveal_strlit("txt");
    let s = stem + ".exe"@;
    crate::text::lemma_last_index_of(s, '.');
    crate::text::lemma_last_index_of(".exe"@, '.');
    let t = stem + ".txt"@;
    crate::text::lemma_last_index_of(t, '.');
    if stem.len() > 0 && !stem.contains('.') {
        assert(s[stem.len() as int] == '.');
        assert forall|k: int| stem.len() < k < s.len() implies s[k] != '.' by {}
        assert(s.skip((stem.len() + 1) as int) =~= "exe"@);
    }
    assert(t[t.len() - 4] == '.');
    assert forall|k: int| t.len() - 4 < k < t.len() implies t[k] != '.' by {}
    assert(t.skip(t.len() - 3) =~= "txt"@);
    assert("txt"@[0] != "exe"@[0]);
}

/// A Steam game's executable: the known one when its name is known, else the
/// one found in its directory, else the install directory's name with `.exe`.
pub proof fn law_game_exe(known: Seq<char>, found: Seq<char>, dir: Seq<char>, any: Option<Seq<char>>)
    ensures
        game_exe(Some(known), any, dir) == known,
        game_exe(None, Some(found), dir) == found,
        game_exe(None, None, dir) == dir + ".exe"@,
{
}

/// A manifest value comes from the first line that gives one for the key;
/// that line, trimmed, begins with the quoted key, and the value holds no
/// quote. There is none only when no line gives one.
pub proof fn law_acf_value(ls: Seq<Seq<char>>, key: Seq<char>)
    ensures
        match acf_value_in(ls, key) {
            Some(v) => exists|i: int|
                0 <= i < ls.len() && acf_line_value(#[trigger] ls[i], key) == Some(v) && forall|j: int|
                    0 <= j < i ==> acf_line_value(#[trigger] ls[j], key) is None,
            None => forall|j: int| 0 <= j < ls.len() ==> acf_line_value(#[trigger] ls[j], key) is None,
        },
    decreases ls.len(),
{
    if ls.len() > 0 {
        let init = ls.drop_last();
        law_acf_value(init, key);
        assert forall|j: int| 0 <= j < init.len() implies init[j] == ls[j] by {}
        match acf_value_in(init, key) {
            Some(v) => {
                let i = choose|i: int|
                    0 <= i < init.len() && acf_line_value(#[trigger] init[i], key) == Some(v) && forall|j: int|
                        0 <= j < i ==> acf_line_value(#[trigger] init[j], key) is None;
                assert(ls[i] == init[i]);
            },
            None => {
                assert(ls[ls.len() - 1] == ls.last());
            },
        }
    }
}

/// The value a manifest line gives holds no quote, and the trimmed line begins
/// with the quoted key.
pub proof fn law_acf_line(line: Seq<char>, key: Seq<char>)
    ensures
        acf_line_value(line, key) is Some ==> crate::text::starts_with(trim(line), "\""@ + key + "\""@) && !acf_line_value(
            line,
            key,
        )->0.contains('"'),
{
    if acf_line_value(line, key) is Some {
        let t = trim(line);
        let p = "\""@ + key + "\""@;
        let after = t.skip(p.len() as int);
        let a = crate::text::index_of(after, '"')->0;
        let rest = after.skip(a + 1);
        crate::text::lemma_index_of(rest, '"');
        let b = crate::text::index_of(rest, '"')->0;
        let v = rest.take(b);
        assert forall|k: int| 0 <= k < v.len() implies v[k] != '"' by {
            assert(v[k] == rest[k]);
        }
    }
}

/// A profile looked up by id is the first with that id; there is none only
/// when no profile has it.
pub proof fn law_profile_lookup(profiles: Seq<Profile>, id: Seq<char>)
    ensures
        match first_with_id(profiles, id) {
            Some(i) => 0 <= i < profiles.len() && profiles[i].id@ == id && forall|j: int|
                0 <= j < i ==> (#[trigger] profiles[j]).id@ != id,
            None => forall|j: int| 0 <= j < profiles.len() ==> (#[trigger] profiles[j]).id@ != id,
        },
    decreases profiles.len(),
{
    if profiles.len() > 0 {
        let init = profiles.drop_last();
        law_profile_lookup(init, id);
        assert forall|j: int| 0 <= j < init.len() implies init[j] == profiles[j] by {}
    }
}

/// As the interface shows a result: `applied` with no message, or `skipped`
/// or `failed` with the reason; the title is kept.
pub proof fn law_ipc(r: ResultView)
    ensures
        ipc_view(r).title == r.title,
        (ipc_view(r).status == "applied"@) == (r.status is Applied),
        ipc_view(r).message is None == (r.status is Applied),
        r.status is Skipped ==> ipc_view(r).status == "skipped"@ && ipc_view(r).message == Some(r.status->Skipped_0),
        r.status is Failed ==> ipc_view(r).status == "failed"@ && ipc_view(r).message == Some(r.status->Failed_0),
{
    reveal_strlit("applied");
    reveal_strlit("skipped");
    reveal_strlit("failed");
    assert("applied"@[0] != "skipped"@[0]);
    assert("applied"@[0] != "failed"@[0]);
}

/// A revert undoes exactly the entries that were applied, each once, in the
/// snapshot's order.
pub proof fn law_reverted_entries(es: Seq<SnapshotEntry>)
    requires
        es.len() <= usize::MAX,
    ensures
        ({
            let r = applied_indices(es);
            &&& forall|k: int| 0 <= k < r.len() ==> (#[trigger] r[k]) < es.len() && es[r[k] as int].applied
            &&& forall|k: int, l: int| 0 <= k < l < r.len() ==> #[trigger] r[k] < #[trigger] r[l]
            &&& forall|i: int| 0 <= i < es.len() && (#[trigger] es[i]).applied ==> exists|k: int|
                0 <= k < r.len() && r[k] == i
        }),
    decreases es.len(),
{
    if es.len() > 0 {
        let init = es.drop_last();
        law_reverted_entries(init);
        let prev = applied_indices(init);
        let r = applied_indices(es);
        let n = es.len() - 1;
        assert forall|j: int| 0 <= j < init.len() implies init[j] == es[j] by {}
        assert forall|k: int| 0 <= k < prev.len() implies prev[k] < n by {}
        if es.last().applied {
            assert(r == prev + seq![n as usize]);
        } else {
            assert(r == prev + Seq::<usize>::empty());
            assert(r =~= prev);
        }
        assert forall|k: int| 0 <= k < r.len() implies (#[trigger] r[k]) < es.len() && es[r[k] as int].applied by {
            if k < prev.len() {
                assert(r[k] == prev[k]);
            }
        }
        assert forall|k: int, l: int| 0 <= k < l < r.len() implies #[trigger] r[k] < #[trigger] r[l] by {
            if l < prev.len() {
                assert(r[k] == prev[k] && r[l] == prev[l]);
            } else {
                assert(r[k] == prev[k]);
            }
        }
        assert forall|i: int| 0 <= i < es.len() && (#[trigger] es[i]).applied implies exists|k: int|
            0 <= k < r.len() && r[k] == i by {
            if i < n {
                assert(init[i] == es[i]);
                let k = choose|k: int| 0 <= k < prev.len() && prev[k] == i;
                assert(r[k] == prev[k]);
            } else {
                assert(r[prev.len() as int] == n);
            }
        }
    }
}

/// The known game a Steam name stands for is the first in the list whose name
/// contains it or is contained in it, and its executable is that game's; there
/// is none only when no listed name matches that way.
pub proof fn law_known_exe(name: Seq<char>, n: nat)
    requires
        n <= 16,
    ensures
        match known_exe_in(name, n) {
            Some(e) => exists|k: int|
                0 <= k < n && (contains(name, #[trigger] known_games()[k].0) || contains(known_games()[k].0, name))
                    && e == known_games()[k].1 && forall|j: int|
                    0 <= j < k ==> !contains(name, #[trigger] known_games()[j].0) && !contains(known_games()[j].0, name),
            None => forall|j: int|
                0 <= j < n ==> !contains(name, #[trigger] known_games()[j].0) && !contains(known_games()[j].0, name),
        },
    decreases n,
{
    if n > 0 {
        law_known_exe(name, (n - 1) as nat);
    }
}

/// The game scan keeps the Steam games first and in order; it adds only
/// registered known games, each as found by the known list with no install
/// path; and every registered known game ends up present.
pub proof fn law_known_scan(found: Seq<GameView>, registered: Seq<bool>, i: nat)
    requires
        i <= 16,
        registered.len() >= i,
    ensures
        ({
            let g = known_scan(found, registered, i);
            &&& g.len() >= found.len()
            &&& g.take(found.len() as int) == found
            &&& forall|j: int|
                found.len() <= j < g.len() ==> (#[trigger] g[j]).source == GameSource::KnownList
                    && g[j].install_path == Seq::<char>::empty() && exists|k: int|
                    0 <= k < i && registered[k] && g[j].name == (#[trigger] known_games()[k]).0 && g[j].exe_name
                        == known_games()[k].1
            &&& forall|k: int|
                0 <= k < i && registered[k] ==> exists|j: int|
                    0 <= j < g.len() && (#[trigger] g[j]).exe_name == (#[trigger] known_games()[k]).1
        }),
    decreases i,
{
    if i > 0 {
        law_known_scan(found, registered, (i - 1) as nat);
        let prev = known_scan(found, registered, (i - 1) as nat);
        let g = known_scan(found, registered, i);
        let kg = known_games()[i - 1];
        if !has_exe(prev, kg.1) && registered[i - 1] {
            let added = GameView { name: kg.0, exe_name: kg.1, install_path: seq![], source: GameSource::KnownList };
            assert(g == prev.push(added));
            assert(g.take(found.len() as int) =~= prev.take(found.len() as int));
            assert forall|j: int|
                found.len() <= j < g.len() implies (#[trigger] g[j]).source == GameSource::KnownList
                    && g[j].install_path == Seq::<char>::empty() && exists|k: int|
                    0 <= k < i && registered[k] && g[j].name == (#[trigger] known_games()[k]).0 && g[j].exe_name
                        == known_games()[k].1 by {
                if j < prev.len() {
                    assert(g[j] == prev[j]);
                } else {
                    assert(g[j] == added);
                    assert(known_games()[i - 1] == kg);
                }
            }
            assert forall|k: int| 0 <= k < i && registered[k] implies exists|j: int|
                0 <= j < g.len() && (#[trigger] g[j]).exe_name == (#[trigger] known_games()[k]).1 by {
                if k < i - 1 {
                    let j = choose|j: int| 0 <= j < prev.len() && (#[trigger] prev[j]).exe_name == known_games()[k].1;
                    assert(g[j] == prev[j]);
                } else {
                    assert(g[prev.len() as int] == added);
                }
            }
        } else {
            assert(g == prev);
            assert forall|k: int| 0 <= k < i && registered[k] implies exists|j: int|
                0 <= j < g.len() && (#[trigger] g[j]).exe_name == (#[trigger] known_games()[k]).1 by {
                if k == i - 1 {
                    let j = choose|j: int| 0 <= j < prev.len() && (#[trigger] prev[j]).exe_name == kg.1;
                    assert(g[j] == prev[j]);
                }
            }
        }
    }
}

/// A revert counts as complete, so that its snapshot may be deleted, exactly
/// when no entry failed: no results are complete, and one more result keeps
/// it complete exactly when that result did not fail.
pub proof fn law_revert_complete(rs: Seq<ResultView>, r: ResultView)
    ensures
        revert_complete(Seq::<ResultView>::empty()),
        revert_complete(rs.push(r)) == (revert_complete(rs) && !(r.status is Failed)),
{
    let all = rs.push(r);
    if revert_complete(all) {
        assert(all[rs.len() as int] == r);
        assert forall|i: int| 0 <= i < rs.len() implies !(#[trigger] rs[i].status is Failed) by {
            assert(all[i] == rs[i]);
        }
    }
    if revert_complete(rs) && !(r.status is Failed) {
        assert forall|i: int| 0 <= i < all.len() implies !(#[trigger] all[i].status is Failed) by {
            if i < rs.len() {
                assert(all[i] == rs[i]);
            }
        }
    }
}

} // verus!
