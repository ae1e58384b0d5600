//! Change detection: which containers were emptied between two consecutive
//! snapshots. A container yields an event exactly when it is present in both
//! snapshots and its last-emptied instant differs; with no previous snapshot
//! there is no baseline and nothing is reported.

use vstd::prelude::*;

use crate::snapshot::{entries_wf, has_mat, mat_at, Entry, Snapshot};

verus! {

/// One container whose last-emptied instant changed between two snapshots.
#[derive(Clone, Debug)]
pub struct ChangeEvent {
    pub material: String,
}

/// Whether this entry of the current snapshot yields an event against the
/// previous snapshot: its material is also in the previous snapshot and the
/// last-emptied instants differ.
pub open spec fn event_for(e: Entry, prev: Option<Seq<Entry>>) -> bool {
    match prev {
        None => false,
        Some(p) => has_mat(p, e.material@) && mat_at(p, e.material@).emptied.epoch
            != e.emptied.epoch,
    }
}

/// The material names of the changed containers, in the order the current
/// snapshot lists them.
pub open spec fn spec_changes(cur: Seq<Entry>, prev: Option<Seq<Entry>>) -> Seq<Seq<char>>
    decreases cur.len(),
{
    if cur.len() == 0 {
        Seq::empty()
    } else {
        spec_changes(cur.drop_last(), prev) + if event_for(cur.last(), prev) {
            seq![cur.last().material@]
        } else {
            Seq::empty()
        }
    }
}

/// The previous snapshot's entries, if there is a previous snapshot.
pub open spec fn prev_view(previous: Option<&Snapshot>) -> Option<Seq<Entry>> {
    match previous {
        None => None,
        Some(p) => Some(p@),
    }
}

/// Compares two consecutive snapshots and reports one event for every
/// container present in both whose last-emptied instant differs. Containers
/// present in only one snapshot never yield events, and without a previous
/// snapshot nothing is reported.
pub fn detect_changes(current: &Snapshot, previous: Option<&Snapshot>) -> (events: Vec<
    ChangeEvent,
>)
    requires
        current.wf(),
        previous matches Some(p) ==> p.wf(),
    ensures
        events@.map_values(|e: ChangeEvent| e.material@) == spec_changes(
            current@,
            prev_view(previous),
        ),
{
    let ghost pv = prev_view(previous);
    let mut events: Vec<ChangeEvent> = Vec::new();
    let n = current.entries.len();
    let mut i: usize = 0;
    while i < n
        invariant
            n == current@.len(),
            i <= n,
            current.wf(),
            previous matches Some(p) ==> p.wf(),
            pv == prev_view(previous),
            events@.map_values(|e: ChangeEvent| e.material@) == spec_changes(
                current@.take(i as int),
                pv,
            ),
        decreases n - i,
    {
        let entry = &current.entries[i];
        let changed: bool = match previous {
            None => false,
            Some(prev) => match prev.get(&entry.material) {
                Some((old_emptied, _)) => old_emptied.epoch != entry.emptied.epoch,
                None => false,
            },
        };
        proof {
            assert(changed == event_for(current@[i as int], pv));
        }
        let ghost pre_names = events@.map_values(|e: ChangeEvent| e.material@);
        if changed {
            events.push(ChangeEvent { material: entry.material.clone() });
        }
        proof {
            let post = current@.take(i + 1 as int);
            assert(post.drop_last() =~= current@.take(i as int));
            assert(post.last() == current@[i as int]);
            if changed {
                assert(events@.map_values(|e: ChangeEvent| e.material@) =~= pre_names + seq![
                    current@[i as int].material@,
                ]);
            }
            assert(events@.map_values(|e: ChangeEvent| e.material@) =~= spec_changes(post, pv));
        }
        i += 1;
    }
    proof {
        assert(current@.take(n as int) =~= current@);
    }
    events
}

/// With no previous snapshot there is no baseline, so no events are
/// reported, however large the current snapshot is.
pub proof fn lemma_no_baseline_no_events(cur: Seq<Entry>)
    ensures
        spec_changes(cur, None) == Seq::<Seq<char>>::empty(),
    decreases cur.len(),
{
    if cur.len() > 0 {
        lemma_no_baseline_no_events(cur.drop_last());
        assert(spec_changes(cur, None) =~= Seq::<Seq<char>>::empty());
    }
}

/// If no entry of the current snapshot counts as changed against the
/// previous one, no events are reported.
pub proof fn lemma_unchanged_entries_no_events(cur: Seq<Entry>, prev: Seq<Entry>)
    requires
        forall|i: int| 0 <= i < cur.len() ==> !event_for(cur[i], Some(prev)),
    ensures
        spec_changes(cur, Some(prev)) == Seq::<Seq<char>>::empty(),
    decreases cur.len(),
{
    if cur.len() > 0 {
        assert(forall|i: int|
            0 <= i < cur.drop_last().len() ==> cur.drop_last()[i] == cur[i]);
        lemma_unchanged_entries_no_events(cur.drop_last(), prev);
        assert(!event_for(cur[cur.len() - 1], Some(prev)));
        assert(spec_changes(cur, Some(prev)) =~= Seq::<Seq<char>>::empty());
    }
}

/// Diffing a snapshot against itself reports no events: every container's
/// last-emptied instant is its own.
pub proof fn lemma_no_change_no_events(s: Seq<Entry>)
    requires
        entries_wf(s),
    ensures
        spec_changes(s, Some(s)) == Seq::<Seq<char>>::empty(),
{
    assert forall|i: int| 0 <= i < s.len() implies !event_for(s[i], Some(s)) by {
        crate::snapshot::lemma_mat_at_index(s, i);
    }
    lemma_unchanged_entries_no_events(s, s);
}

/// A material name is among the reported events exactly when some entry of
/// the current snapshot carries it and counts as changed.
pub proof fn lemma_changes_contains(cur: Seq<Entry>, prev: Seq<Entry>, m: Seq<char>)
    ensures
        spec_changes(cur, Some(prev)).contains(m) <==> exists|i: int|
            0 <= i < cur.len() && cur[i].material@ == m && event_for(cur[i], Some(prev)),
    decreases cur.len(),
{
    if cur.len() > 0 {
        lemma_changes_contains(cur.drop_last(), prev, m);
        let last = cur.len() - 1;
        let ch = spec_changes(cur, Some(prev));
        let chd = spec_changes(cur.drop_last(), Some(prev));
        if chd.contains(m) {
            let k = choose|k: int| 0 <= k < chd.len() && chd[k] == m;
            assert(ch[k] == m);
            assert(ch.contains(m));
        }
        if cur[last].material@ == m && event_for(cur[last], Some(prev)) {
            assert(ch[ch.len() - 1] == m);
            assert(ch.contains(m));
        }
        if exists|i: int|
            0 <= i < cur.len() && cur[i].material@ == m && event_for(cur[i], Some(prev)) {
            let i = choose|i: int|
                0 <= i < cur.len() && cur[i].material@ == m && event_for(cur[i], Some(prev));
            if i < last {
                assert(cur.drop_last()[i] == cur[i]);
                assert(chd.contains(m));
            }
        }
        if ch.contains(m) {
            let k = choose|k: int| 0 <= k < ch.len() && ch[k] == m;
            if k < chd.len() {
                assert(chd[k] == m);
                let i = choose|i: int|
                    0 <= i < cur.drop_last().len() && cur.drop_last()[i].material@ == m
                        && event_for(cur.drop_last()[i], Some(prev));
                assert(cur[i].material@ == m && event_for(cur[i], Some(prev)));
            } else {
                assert(cur[last].material@ == m && event_for(cur[last], Some(prev)));
            }
        }
    }
}

/// In a well-formed snapshot the reported events carry no duplicate names.
pub proof fn lemma_changes_no_duplicates(cur: Seq<Entry>, prev: Seq<Entry>)
    requires
        entries_wf(cur),
    ensures
        spec_changes(cur, Some(prev)).no_duplicates(),
    decreases cur.len(),
{
    if cur.len() > 0 {
        let last = cur.len() - 1;
        let dropped = cur.drop_last();
        assert(entries_wf(dropped)) by {
            assert(forall|i: int| 0 <= i < dropped.len() ==> dropped[i] == cur[i]);
        }
        lemma_changes_no_duplicates(dropped, prev);
        let ch = spec_changes(cur, Some(prev));
        let chd = spec_changes(dropped, Some(prev));
        if event_for(cur.last(), Some(prev)) {
            assert(!chd.contains(cur[last].material@)) by {
                lemma_changes_contains(dropped, prev, cur[last].material@);
                if exists|i: int|
                    0 <= i < dropped.len() && dropped[i].material@ == cur[last].material@
                        && event_for(dropped[i], Some(prev)) {
                    let i = choose|i: int|
                        0 <= i < dropped.len() && dropped[i].material@ == cur[last].material@
                            && event_for(dropped[i], Some(prev));
                    assert(cur[i].material@ != cur[last].material@);
                }
            }
            assert(ch =~= chd.push(cur[last].material@));
            assert(ch.no_duplicates()) by {
                assert forall|a: int, b: int| 0 <= a < ch.len() && 0 <= b < ch.len() && a != b
                    implies ch[a] != ch[b] by {
                    if a < chd.len() && b < chd.len() {
                    } else if a < chd.len() {
                        assert(chd.contains(chd[a])) by {
                            assert(chd[a] == chd[a]);
                        }
                    } else if b < chd.len() {
                        assert(chd.contains(chd[b])) by {
                            assert(chd[b] == chd[b]);
                        }
                    }
                }
            }
        } else {
            assert(ch =~= chd);
        }
    }
}

/// If the two snapshots agree on the last-emptied instant of every shared
/// container but one, exactly that one container is reported, once.
pub proof fn lemma_one_changed_container(cur: Seq<Entry>, prev: Seq<Entry>, m: Seq<char>)
    requires
        entries_wf(cur),
        has_mat(cur, m),
        has_mat(prev, m),
        mat_at(cur, m).emptied.epoch != mat_at(prev, m).emptied.epoch,
        forall|i: int|
            0 <= i < cur.len() && cur[i].material@ != m ==> !event_for(cur[i], Some(prev)),
    ensures
        spec_changes(cur, Some(prev)) == seq![m],
{
    let ch = spec_changes(cur, Some(prev));
    lemma_changes_no_duplicates(cur, prev);
    lemma_changes_contains(cur, prev, m);
    let w = choose|i: int| 0 <= i < cur.len() && cur[i].material@ == m;
    crate::snapshot::lemma_mat_at_index(cur, w);
    assert(event_for(cur[w], Some(prev)));
    assert(ch.contains(m));
    assert forall|k: int| 0 <= k < ch.len() implies ch[k] == m by {
        assert(ch.contains(ch[k])) by {
            assert(ch[k] == ch[k]);
        }
        lemma_changes_contains(cur, prev, ch[k]);
    }
    if ch.len() >= 2 {
        assert(ch[0] == m && ch[1] == m);
        assert(false);
    }
    assert(ch =~= seq![m]);
}

/// If exactly two shared containers' last-emptied instants changed, exactly
/// two events are reported, one per changed container and none for the
/// unchanged ones.
pub proof fn lemma_two_changed_containers(cur: Seq<Entry>, prev: Seq<Entry>, m1: Seq<char>, m2: Seq<char>)
    requires
        entries_wf(cur),
        m1 != m2,
        has_mat(cur, m1),
        has_mat(prev, m1),
        mat_at(cur, m1).emptied.epoch != mat_at(prev, m1).emptied.epoch,
        has_mat(cur, m2),
        has_mat(prev, m2),
        mat_at(cur, m2).emptied.epoch != mat_at(prev, m2).emptied.epoch,
        forall|i: int|
            0 <= i < cur.len() && cur[i].material@ != m1 && cur[i].material@ != m2
                ==> !event_for(cur[i], Some(prev)),
    ensures
        spec_changes(cur, Some(prev)).len() == 2,
        spec_changes(cur, Some(prev)).contains(m1),
        spec_changes(cur, Some(prev)).contains(m2),
        forall|k: int|
            0 <= k < spec_changes(cur, Some(prev)).len() ==> spec_changes(cur, Some(prev))[k]
                == m1 || spec_changes(cur, Some(prev))[k] == m2,
{
    let ch = spec_changes(cur, Some(prev));
    lemma_changes_no_duplicates(cur, prev);
    lemma_changes_contains(cur, prev, m1);
    lemma_changes_contains(cur, prev, m2);
    let w1 = choose|i: int| 0 <= i < cur.len() && cur[i].material@ == m1;
    crate::snapshot::lemma_mat_at_index(cur, w1);
    let w2 = choose|i: int| 0 <= i < cur.len() && cur[i].material@ == m2;
    crate::snapshot::lemma_mat_at_index(cur, w2);
    assert(ch.contains(m1));
    assert(ch.contains(m2));
    assert forall|k: int| 0 <= k < ch.len() implies ch[k] == m1 || ch[k] == m2 by {
        assert(ch.contains(ch[k])) by {
            assert(ch[k] == ch[k]);
        }
        lemma_changes_contains(cur, prev, ch[k]);
    }
    let k1 = choose|k: int| 0 <= k < ch.len() && ch[k] == m1;
    let k2 = choose|k: int| 0 <= k < ch.len() && ch[k] == m2;
    assert(k1 != k2);
    if ch.len() >= 3 {
        assert(ch[0] != ch[1] && ch[0] != ch[2] && ch[1] != ch[2]);
        assert(false);
    }
}

} // verus!
