//! The result of one poll of the status source: for every container at the
//! site, when it was last emptied and when the next emptying is scheduled.

use vstd::prelude::*;

verus! {

/// A point in time as the library sees it: the instant, in whole seconds
/// since the Unix epoch, together with the local calendar day that instant
/// falls on, counted in days from the start of the Common Era.
#[derive(Clone, Copy, PartialEq, Eq, Structural, Debug)]
pub struct Stamp {
    /// Seconds since the Unix epoch.
    pub epoch: i64,
    /// The local calendar day the instant falls on, in days from the
    /// start of the Common Era.
    pub day: i64,
}

/// One container's status: its material name, when it was last emptied and
/// when it is next scheduled to be emptied.
#[derive(Clone, Debug)]
pub struct Entry {
    pub material: String,
    pub emptied: Stamp,
    pub scheduled: Stamp,
}

/// An unordered association from container material names to their status.
/// Produced fresh by each poll; entry order carries no meaning.
#[derive(Clone, Debug)]
pub struct Snapshot {
    pub entries: Vec<Entry>,
}

/// Well-formedness of a snapshot's entry list: material names are unique.
pub open spec fn entries_wf(s: Seq<Entry>) -> bool {
    forall|i: int, j: int|
        0 <= i < j < s.len() ==> s[i].material@ != s[j].material@
}

/// Whether some entry carries the given material name.
pub open spec fn has_mat(s: Seq<Entry>, m: Seq<char>) -> bool {
    exists|i: int| 0 <= i < s.len() && s[i].material@ == m
}

/// The entry carrying the given material name (meaningful when `has_mat`
/// holds; unique when `entries_wf` holds).
pub open spec fn mat_at(s: Seq<Entry>, m: Seq<char>) -> Entry {
    s[choose|i: int| 0 <= i < s.len() && s[i].material@ == m]
}

/// In a well-formed entry list, the entry at any index is the one `mat_at`
/// picks for that index's material name.
pub proof fn lemma_mat_at_index(s: Seq<Entry>, i: int)
    requires
        entries_wf(s),
        0 <= i < s.len(),
    ensures
        has_mat(s, s[i].material@),
        mat_at(s, s[i].material@) == s[i],
{
    assert(has_mat(s, s[i].material@));
    let j = choose|j: int| 0 <= j < s.len() && s[j].material@ == s[i].material@;
    if i < j {
        assert(s[i].material@ != s[j].material@);
    } else if j < i {
        assert(s[j].material@ != s[i].material@);
    }
}

impl View for Snapshot {
    type V = Seq<Entry>;

    open spec fn view(&self) -> Seq<Entry> {
        self.entries@
    }
}

impl Snapshot {
    pub open spec fn wf(&self) -> bool {
        entries_wf(self@)
    }

    /// A snapshot with no containers.
    pub fn new() -> (s: Snapshot)
        ensures
            s@.len() == 0,
            s.wf(),
    {
        Snapshot { entries: Vec::new() }
    }

    /// Looks a material name up; `None` exactly when no entry carries it.
    pub fn get(&self, material: &String) -> (r: Option<(Stamp, Stamp)>)
        requires
            self.wf(),
        ensures
            match r {
                Some(p) => has_mat(self@, material@) && p == (
                    mat_at(self@, material@).emptied,
                    mat_at(self@, material@).scheduled,
                ),
                None => !has_mat(self@, material@),
            },
    {
        let n = self.entries.len();
        let mut i: usize = 0;
        while i < n
            invariant
                n == self@.len(),
                i <= n,
                self.wf(),
                forall|j: int| 0 <= j < i ==> self@[j].material@ != material@,
            decreases n - i,
        {
            if self.entries[i].material.eq(material) {
                proof {
                    lemma_mat_at_index(self@, i as int);
                }
                return Some((self.entries[i].emptied, self.entries[i].scheduled));
            }
            i += 1;
        }
        None
    }

    /// Records a container's status, replacing any entry that already
    /// carries the same material name.
    pub fn insert(&mut self, material: String, emptied: Stamp, scheduled: Stamp)
        requires
            old(self).wf(),
        ensures
            final(self).wf(),
            has_mat(final(self)@, material@),
            mat_at(final(self)@, material@).material@ == material@,
            mat_at(final(self)@, material@).emptied == emptied,
            mat_at(final(self)@, material@).scheduled == scheduled,
            forall|m: Seq<char>|
                m != material@ ==> has_mat(final(self)@, m) == has_mat(old(self)@, m),
            forall|m: Seq<char>|
                m != material@ && has_mat(old(self)@, m) ==> mat_at(final(self)@, m) == mat_at(
                    old(self)@,
                    m,
                ),
    {
        let n = self.entries.len();
        let mut i: usize = 0;
        while i < n
            invariant
                n == self@.len(),
                i <= n,
                self.wf(),
                self == old(self),
                forall|j: int| 0 <= j < i ==> self@[j].material@ != material@,
            decreases n - i,
        {
            if self.entries[i].material.eq(&material) {
                let entry = Entry { material, emptied, scheduled };
                proof {
                    lemma_mat_at_index(self@, i as int);
                }
                self.entries[i] = entry;
                proof {
                    lemma_update_keeps_others(old(self)@, self@, i as int);
                }
                return ;
            }
            i += 1;
        }
        let entry = Entry { material, emptied, scheduled };
        self.entries.push(entry);
        proof {
            lemma_push_keeps_others(old(self)@, self@);
        }
    }
}

/// Whether a record of the status source describes a real container with a
/// believable schedule, and so belongs in the snapshot: site cleaning is
/// listed as a material but is an activity, not a container, and a next
/// emptying scheduled outside the current millennium is the source's way of
/// saying none is scheduled at all.
pub fn keep_source_record(material: &String, scheduled_year: i32) -> (r: bool)
    ensures
        r == (material@ != "Städning"@ && scheduled_year > 2000),
{
    let cleaning: String = "Städning".to_owned();
    !material.eq(&cleaning) && scheduled_year > 2000
}

/// Replacing one entry by another of the same material name leaves every
/// other name's presence and entry unchanged.
proof fn lemma_update_keeps_others(pre: Seq<Entry>, post: Seq<Entry>, i: int)
    requires
        entries_wf(pre),
        0 <= i < pre.len(),
        post.len() == pre.len(),
        post[i].material@ == pre[i].material@,
        forall|j: int| 0 <= j < pre.len() && j != i ==> post[j] == pre[j],
    ensures
        entries_wf(post),
        has_mat(post, post[i].material@),
        mat_at(post, post[i].material@) == post[i],
        forall|m: Seq<char>| m != pre[i].material@ ==> has_mat(post, m) == has_mat(pre, m),
        forall|m: Seq<char>|
            m != pre[i].material@ && has_mat(pre, m) ==> mat_at(post, m) == mat_at(pre, m),
{
    assert(entries_wf(post)) by {
        assert forall|a: int, b: int| 0 <= a < b < post.len() implies post[a].material@
            != post[b].material@ by {
            assert(pre[a].material@ != pre[b].material@);
        }
    }
    lemma_mat_at_index(post, i);
    assert forall|m: Seq<char>| m != pre[i].material@ implies has_mat(post, m) == has_mat(
        pre,
        m,
    ) by {
        if has_mat(pre, m) {
            let k = choose|k: int| 0 <= k < pre.len() && pre[k].material@ == m;
            assert(post[k].material@ == m);
        }
        if has_mat(post, m) {
            let k = choose|k: int| 0 <= k < post.len() && post[k].material@ == m;
            assert(pre[k].material@ == m);
        }
    }
    assert forall|m: Seq<char>| m != pre[i].material@ && has_mat(pre, m) implies mat_at(post, m)
        == mat_at(pre, m) by {
        let k = choose|k: int| 0 <= k < pre.len() && pre[k].material@ == m;
        lemma_mat_at_index(pre, k);
        assert(post[k].material@ == m);
        lemma_mat_at_index(post, k);
    }
}

/// Appending an entry whose material name is new leaves every other name's
/// presence and entry unchanged.
proof fn lemma_push_keeps_others(pre: Seq<Entry>, post: Seq<Entry>)
    requires
        entries_wf(pre),
        post.len() == pre.len() + 1,
        forall|j: int| 0 <= j < pre.len() ==> post[j] == pre[j],
        forall|j: int| 0 <= j < pre.len() ==> pre[j].material@ != post[pre.len() as int].material@,
    ensures
        entries_wf(post),
        has_mat(post, post[pre.len() as int].material@),
        mat_at(post, post[pre.len() as int].material@) == post[pre.len() as int],
        forall|m: Seq<char>|
            m != post[pre.len() as int].material@ ==> has_mat(post, m) == has_mat(pre, m),
        forall|m: Seq<char>|
            m != post[pre.len() as int].material@ && has_mat(pre, m) ==> mat_at(post, m) == mat_at(
                pre,
                m,
            ),
{
    let last = pre.len() as int;
    assert(entries_wf(post)) by {
        assert forall|a: int, b: int| 0 <= a < b < post.len() implies post[a].material@
            != post[b].material@ by {
            if b < last {
                assert(pre[a].material@ != pre[b].material@);
            } else {
                assert(pre[a].material@ != post[last].material@);
            }
        }
    }
    lemma_mat_at_index(post, last);
    assert forall|m: Seq<char>| m != post[last].material@ implies has_mat(post, m) == has_mat(
        pre,
        m,
    ) by {
        if has_mat(post, m) {
            let k = choose|k: int| 0 <= k < post.len() && post[k].material@ == m;
            assert(k != last);
            assert(pre[k].material@ == m);
        }
        if has_mat(pre, m) {
            let k = choose|k: int| 0 <= k < pre.len() && pre[k].material@ == m;
            assert(post[k].material@ == m);
        }
    }
    assert forall|m: Seq<char>| m != post[last].material@ && has_mat(pre, m) implies mat_at(
        post,
        m,
    ) == mat_at(pre, m) by {
        let k = choose|k: int| 0 <= k < pre.len() && pre[k].material@ == m;
        lemma_mat_at_index(pre, k);
        assert(post[k].material@ == m);
        lemma_mat_at_index(post, k);
    }
}

} // verus!
