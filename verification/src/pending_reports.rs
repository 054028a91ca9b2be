//! The queue of health reports waiting to be submitted as health overrides.
//!
//! Each (machine, report source) pair has at most one pending report: a newer
//! report for a pair that is still waiting replaces the older one in place,
//! and pairs are handed out in the order in which they first became pending.

use vstd::prelude::*;

verus! {

/// Where a health report came from.
#[derive(Clone, Copy, Debug, PartialEq, Eq, Hash, Structural)]
pub enum ReportSource {
    BmcSensors,
    TrayLeakDetection,
}

/// Identifies the pending slot of a report: one per machine and source.
#[derive(Clone, Debug)]
pub struct HealthOverrideKey {
    pub machine_id: String,
    pub source: ReportSource,
}

impl View for HealthOverrideKey {
    type V = (Seq<char>, ReportSource);

    open spec fn view(&self) -> (Seq<char>, ReportSource) {
        (self.machine_id@, self.source)
    }
}

/// Whether two keys name the same slot.
pub fn same_key(a: &HealthOverrideKey, b: &HealthOverrideKey) -> (r: bool)
    ensures
        r == (a@ == b@),
{
    a.machine_id == b.machine_id && a.source == b.source
}

/// The abstract queue: the pending slots in hand-out order, each with its report.
pub type PendingView<J> = Seq<((Seq<char>, ReportSource), J)>;

/// The slots of a queue, in order.
pub open spec fn slots<J>(q: PendingView<J>) -> Seq<(Seq<char>, ReportSource)> {
    q.map_values(|e: ((Seq<char>, ReportSource), J)| e.0)
}

/// No slot is pending twice.
pub open spec fn slots_distinct<J>(q: PendingView<J>) -> bool {
    forall|i: int, j: int| 0 <= i < j < q.len() ==> q[i].0 != q[j].0
}

/// The position of `k` in the queue, if it is pending.
pub open spec fn slot_index<J>(q: PendingView<J>, k: (Seq<char>, ReportSource)) -> Option<int> {
    if exists|i: int| 0 <= i < q.len() && q[i].0 == k {
        Some(choose|i: int| 0 <= i < q.len() && q[i].0 == k)
    } else {
        None
    }
}

/// The queue after a report for slot `k` is saved.
pub open spec fn saved<J>(q: PendingView<J>, k: (Seq<char>, ReportSource), job: J) -> PendingView<J> {
    match slot_index(q, k) {
        Some(i) => q.update(i, (k, job)),
        None => q.push((k, job)),
    }
}

/// The report pending for slot `k`, if any.
pub open spec fn pending_job<J>(q: PendingView<J>, k: (Seq<char>, ReportSource)) -> Option<J> {
    match slot_index(q, k) {
        Some(i) => Some(q[i].1),
        None => None,
    }
}

/// The queue after saving every `(slot, report)` of `ops` in turn.
pub open spec fn saved_all<J>(q: PendingView<J>, ops: Seq<((Seq<char>, ReportSource), J)>) -> PendingView<J>
    decreases ops.len(),
{
    if ops.len() == 0 {
        q
    } else {
        saved(saved_all(q, ops.drop_last()), ops.last().0, ops.last().1)
    }
}

/// The last report that `ops` saves for slot `k`, if any.
pub open spec fn last_saved<J>(ops: Seq<((Seq<char>, ReportSource), J)>, k: (Seq<char>, ReportSource)) -> Option<J>
    decreases ops.len(),
{
    if ops.len() == 0 {
        None
    } else if ops.last().0 == k {
        Some(ops.last().1)
    } else {
        last_saved(ops.drop_last(), k)
    }
}

/// In a queue without repeated slots, the position of a pending slot is its
/// only occurrence.
pub proof fn lemma_slot_index_unique<J>(q: PendingView<J>, k: (Seq<char>, ReportSource), i: int)
    requires
        slots_distinct(q),
        0 <= i < q.len(),
        q[i].0 == k,
    ensures
        slot_index(q, k) == Some(i),
{
    let w = slot_index(q, k).unwrap();
    assert(w == i) by {
        if w < i { } else if w > i { }
    }
}

/// Saving a report keeps every slot pending at most once.
pub proof fn lemma_saved_distinct<J>(q: PendingView<J>, k: (Seq<char>, ReportSource), job: J)
    requires
        slots_distinct(q),
    ensures
        slots_distinct(saved(q, k, job)),
{
}

/// Law: a saved report is the one pending for its slot, and the reports
/// pending for every other slot are left as they were.
pub proof fn lemma_saved_lookup<J>(
    q: PendingView<J>,
    k: (Seq<char>, ReportSource),
    job: J,
    other: (Seq<char>, ReportSource),
)
    requires
        slots_distinct(q),
    ensures
        pending_job(saved(q, k, job), k) == Some(job),
        other != k ==> pending_job(saved(q, k, job), other) == pending_job(q, other),
{
    let r = saved(q, k, job);
    lemma_saved_distinct(q, k, job);
    match slot_index(q, k) {
        Some(i) => {
            lemma_slot_index_unique(r, k, i);
            if other != k {
                match slot_index(q, other) {
                    Some(j) => {
                        lemma_slot_index_unique(r, other, j);
                    },
                    None => {
                        assert(slot_index(r, other) is None) by {
                            if exists|x: int| 0 <= x < r.len() && r[x].0 == other {
                                let x = choose|x: int| 0 <= x < r.len() && r[x].0 == other;
                                assert(q[x].0 == other);
                            }
                        }
                    },
                }
            }
        },
        None => {
            lemma_slot_index_unique(r, k, q.len() as int);
            if other != k {
                match slot_index(q, other) {
                    Some(j) => {
                        lemma_slot_index_unique(r, other, j);
                    },
                    None => {
                        assert(slot_index(r, other) is None) by {
                            if exists|x: int| 0 <= x < r.len() && r[x].0 == other {
                                let x = choose|x: int| 0 <= x < r.len() && r[x].0 == other;
                                assert(q[x].0 == other);
                            }
                        }
                    },
                }
            }
        },
    }
}

/// Law: re-saving a slot that is still pending keeps its place in the queue;
/// a slot that is not pending joins the back.
pub proof fn lemma_saved_position<J>(q: PendingView<J>, k: (Seq<char>, ReportSource), job: J)
    requires
        slots_distinct(q),
    ensures
        slot_index(q, k) is Some ==> slot_index(saved(q, k, job), k) == slot_index(q, k)
            && saved(q, k, job).len() == q.len(),
        slot_index(q, k) is None ==> slot_index(saved(q, k, job), k) == Some(q.len() as int)
            && saved(q, k, job).len() == q.len() + 1,
{
    lemma_saved_distinct(q, k, job);
    match slot_index(q, k) {
        Some(i) => lemma_slot_index_unique(saved(q, k, job), k, i),
        None => lemma_slot_index_unique(saved(q, k, job), k, q.len() as int),
    }
}

/// Law: whatever reports are saved, and in whatever order, the queue holds
/// each slot at most once, and for each slot exactly the last report saved
/// for it (nothing, for a slot never saved).
pub proof fn lemma_latest_reports_preserved<J>(
    ops: Seq<((Seq<char>, ReportSource), J)>,
    k: (Seq<char>, ReportSource),
)
    ensures
        slots_distinct(saved_all(Seq::<((Seq<char>, ReportSource), J)>::empty(), ops)),
        pending_job(saved_all(Seq::<((Seq<char>, ReportSource), J)>::empty(), ops), k)
            == last_saved(ops, k),
    decreases ops.len(),
{
    let e = Seq::<((Seq<char>, ReportSource), J)>::empty();
    if ops.len() == 0 {
        assert(slot_index(e, k) is None);
    } else {
        lemma_latest_reports_preserved(ops.drop_last(), k);
        let q = saved_all(e, ops.drop_last());
        lemma_saved_distinct(q, ops.last().0, ops.last().1);
        lemma_saved_lookup(q, ops.last().0, ops.last().1, k);
    }
}

/// Reports waiting for submission, at most one per slot, oldest slot first.
pub struct PendingReports<J> {
    entries: Vec<(HealthOverrideKey, J)>,
}

impl<J> PendingReports<J> {
    /// The pending slots and reports, in hand-out order.
    pub closed spec fn view(&self) -> PendingView<J> {
        self.entries@.map_values(|e: (HealthOverrideKey, J)| (e.0@, e.1))
    }

    /// No slot is pending twice.
    #[verifier::type_invariant]
    spec fn wf(&self) -> bool {
        slots_distinct(self.entries@.map_values(|e: (HealthOverrideKey, J)| (e.0@, e.1)))
    }

    /// An empty queue.
    pub fn new() -> (r: Self)
        ensures
            r.view() == Seq::<((Seq<char>, ReportSource), J)>::empty(),
    {
        let r = PendingReports { entries: Vec::new() };
        assert(r.view() =~= Seq::<((Seq<char>, ReportSource), J)>::empty());
        r
    }

    /// Number of pending slots.
    pub fn len(&self) -> (n: usize)
        ensures
            n == self.view().len(),
    {
        self.entries.len()
    }

    /// Saves `job` as the latest report for slot `key`: it replaces the report
    /// already pending for that slot, keeping the slot's place in the queue,
    /// or else the slot joins the back of the queue.
    pub fn save_latest(&mut self, key: HealthOverrideKey, job: J)
        ensures
            slots_distinct(final(self).view()),
            final(self).view() == saved(old(self).view(), key@, job),
    {
        proof {
            use_type_invariant(&*self);
        }
        let ghost q = self.view();
        let mut entries: Vec<(HealthOverrideKey, J)> = Vec::new();
        std::mem::swap(&mut entries, &mut self.entries);
        let mut i: usize = 0;
        while i < entries.len()
            invariant
                i <= entries.len(),
                q == entries@.map_values(|e: (HealthOverrideKey, J)| (e.0@, e.1)),
                q == old(self).view(),
                slots_distinct(q),
                forall|j: int| 0 <= j < i ==> q[j].0 != key@,
            decreases entries.len() - i,
        {
            if same_key(&entries[i].0, &key) {
                assert(q[i as int].0 == key@);
                let ghost k = key@;
                proof {
                    let w = slot_index(q, k).unwrap();
                    assert(0 <= w < q.len() && q[w].0 == k);
                    assert(w == i) by {
                        if w < i { } else if w > i { }
                    }
                    assert(saved(q, k, job) == q.update(i as int, (k, job)));
                }
                entries.set(i, (key, job));
                assert(entries@.map_values(|e: (HealthOverrideKey, J)| (e.0@, e.1)) =~= q.update(i as int, (k, job)));
                proof {
                    lemma_saved_distinct(q, k, job);
                }
                self.entries = entries;
                return;
            }
            i = i + 1;
        }
        assert(slot_index(q, key@) is None);
        let ghost k = key@;
        entries.push((key, job));
        assert(entries@.map_values(|e: (HealthOverrideKey, J)| (e.0@, e.1)) =~= q.push((k, job)));
        proof {
            lemma_saved_distinct(q, k, job);
        }
        self.entries = entries;
    }

    /// Hands out the oldest pending slot with its latest report, or `None`
    /// when nothing is pending.
    pub fn pop(&mut self) -> (r: Option<(HealthOverrideKey, J)>)
        ensures
            slots_distinct(final(self).view()),
            old(self).view().len() == 0 ==> r is None && final(self).view() == old(self).view(),
            old(self).view().len() > 0 ==> (r matches Some(e) && (e.0@, e.1) == old(self).view()[0]
                && final(self).view() == old(self).view().drop_first()),
    {
        proof {
            use_type_invariant(&*self);
        }
        if self.entries.len() == 0 {
            return None;
        }
        let ghost q = self.view();
        let mut entries: Vec<(HealthOverrideKey, J)> = Vec::new();
        std::mem::swap(&mut entries, &mut self.entries);
        let e = entries.remove(0);
        assert(entries@.map_values(|e: (HealthOverrideKey, J)| (e.0@, e.1)) =~= q.drop_first());
        assert(slots_distinct(q.drop_first())) by {
            assert forall|a: int, b: int| 0 <= a < b < q.drop_first().len() implies q.drop_first()[a].0 != q.drop_first()[b].0 by {
                assert(q.drop_first()[a] == q[a + 1] && q.drop_first()[b] == q[b + 1]);
            }
        }
        self.entries = entries;
        Some(e)
    }
}

} // verus!
