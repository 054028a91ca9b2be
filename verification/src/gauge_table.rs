//! Generation-tracked table of gauge readings.
//!
//! A collector opens an update round with [`GaugeTable::begin_update`],
//! records the readings it sees, and closes the round with
//! [`GaugeTable::sweep_stale`], which drops every reading that was not
//! recorded during the round.

use vstd::prelude::*;

verus! {

/// One recorded reading: its key, its value and the round in which it was recorded.
pub struct GaugeSlot<V> {
    pub key: String,
    pub value: V,
    pub generation: u64,
}

/// What the table knows of a key: the latest value and the round it was recorded in.
pub type SlotView<V> = (V, u64);

/// The readings held by a sequence of slots, keyed by the slot keys.
pub open spec fn slots_map<V>(s: Seq<GaugeSlot<V>>) -> Map<Seq<char>, SlotView<V>>
    decreases s.len(),
{
    if s.len() == 0 {
        Map::empty()
    } else {
        slots_map(s.drop_last()).insert(s.last().key@, (s.last().value, s.last().generation))
    }
}

/// No key occurs twice.
pub open spec fn keys_distinct<V>(s: Seq<GaugeSlot<V>>) -> bool {
    forall|i: int, j: int| 0 <= i < j < s.len() ==> s[i].key@ != s[j].key@
}

/// The readings that survive a sweep in round `g`.
pub open spec fn swept<V>(m: Map<Seq<char>, SlotView<V>>, g: u64) -> Map<Seq<char>, SlotView<V>> {
    Map::new(|k: Seq<char>| m.contains_key(k) && m[k].1 == g, |k: Seq<char>| m[k])
}

/// The round that follows round `g` (the counter wraps around).
pub open spec fn next_generation(g: u64) -> u64 {
    if g == u64::MAX { 0 } else { (g + 1) as u64 }
}

/// Law: a reading recorded during a round survives that round's sweep,
/// with the value recorded.
pub proof fn lemma_recorded_survives_sweep<V>(
    m: Map<Seq<char>, SlotView<V>>,
    g: u64,
    k: Seq<char>,
    v: V,
)
    ensures
        swept(m.insert(k, (v, g)), g).contains_key(k),
        swept(m.insert(k, (v, g)), g)[k] == (v, g),
{
}

/// Law: a reading last recorded in an earlier round is dropped by the sweep
/// of the current round, whatever else is recorded under other keys.
pub proof fn lemma_stale_dropped_by_sweep<V>(
    m: Map<Seq<char>, SlotView<V>>,
    g: u64,
    stale: Seq<char>,
    k: Seq<char>,
    v: V,
)
    requires
        m.contains_key(stale),
        m[stale].1 != g,
        k != stale,
    ensures
        !swept(m, g).contains_key(stale),
        !swept(m.insert(k, (v, g)), g).contains_key(stale),
{
}

/// Law: when no reading was recorded in a later round than the current one,
/// opening a new round and sweeping at once leaves no reading. (This fails
/// only once the round counter has wrapped around.)
pub proof fn lemma_empty_round_clears<V>(m: Map<Seq<char>, SlotView<V>>, g: u64)
    requires
        g < u64::MAX,
        forall|k: Seq<char>| m.contains_key(k) ==> m[k].1 <= g,
    ensures
        swept(m, next_generation(g)) == Map::<Seq<char>, SlotView<V>>::empty(),
{
    assert(swept(m, next_generation(g)) =~= Map::<Seq<char>, SlotView<V>>::empty());
}

/// The readings after recording each `(key, value)` of `rs`, in order, in
/// round `g`, starting from `m`.
pub open spec fn recorded_in_round<V>(
    m: Map<Seq<char>, SlotView<V>>,
    rs: Seq<(Seq<char>, V)>,
    g: u64,
) -> Map<Seq<char>, SlotView<V>>
    decreases rs.len(),
{
    if rs.len() == 0 {
        m
    } else {
        recorded_in_round(m, rs.drop_last(), g).insert(rs.last().0, (rs.last().1, g))
    }
}

proof fn lemma_sweep_after_records<V>(m: Map<Seq<char>, SlotView<V>>, rs: Seq<(Seq<char>, V)>, g: u64)
    ensures
        swept(recorded_in_round(m, rs, g), g) == recorded_in_round(swept(m, g), rs, g),
    decreases rs.len(),
{
    if rs.len() > 0 {
        lemma_sweep_after_records(m, rs.drop_last(), g);
        let before = recorded_in_round(m, rs.drop_last(), g);
        assert(swept(before.insert(rs.last().0, (rs.last().1, g)), g) =~= swept(before, g).insert(
            rs.last().0,
            (rs.last().1, g),
        ));
    }
}

/// Law: when no reading carries a later round than the current round `g`
/// and the counter does not wrap, opening a new round, recording `rs` in
/// it and sweeping leaves exactly the keys recorded in the round, each
/// with the last value recorded under it; every earlier reading is gone.
pub proof fn lemma_round_keeps_exactly_recorded<V>(
    m: Map<Seq<char>, SlotView<V>>,
    g: u64,
    rs: Seq<(Seq<char>, V)>,
)
    requires
        g < u64::MAX,
        forall|k: Seq<char>| m.contains_key(k) ==> m[k].1 <= g,
    ensures
        swept(recorded_in_round(m, rs, next_generation(g)), next_generation(g)) == recorded_in_round(
            Map::<Seq<char>, SlotView<V>>::empty(),
            rs,
            next_generation(g),
        ),
{
    lemma_empty_round_clears(m, g);
    lemma_sweep_after_records(m, rs, next_generation(g));
}

proof fn lemma_slots_map_dom<V>(s: Seq<GaugeSlot<V>>, k: Seq<char>)
    ensures
        slots_map(s).contains_key(k) <==> exists|i: int| 0 <= i < s.len() && s[i].key@ == k,
    decreases s.len(),
{
    if s.len() > 0 {
        lemma_slots_map_dom(s.drop_last(), k);
        if slots_map(s).contains_key(k) && s.last().key@ != k {
            let i = choose|i: int| 0 <= i < s.len() - 1 && s.drop_last()[i].key@ == k;
            assert(s[i].key@ == k);
        }
        if exists|i: int| 0 <= i < s.len() && s[i].key@ == k {
            let i = choose|i: int| 0 <= i < s.len() && s[i].key@ == k;
            if i < s.len() - 1 {
                assert(s.drop_last()[i].key@ == k);
            }
        }
    }
}

proof fn lemma_slots_map_remove<V>(s: Seq<GaugeSlot<V>>, i: int)
    requires
        keys_distinct(s),
        0 <= i < s.len(),
    ensures
        keys_distinct(s.remove(i)),
        slots_map(s.remove(i)) == slots_map(s).remove(s[i].key@),
    decreases s.len(),
{
    let k = s[i].key@;
    assert(keys_distinct(s.remove(i)));
    if i == s.len() - 1 {
        assert(s.remove(i) =~= s.drop_last());
        lemma_slots_map_dom(s.drop_last(), k);
        assert(!slots_map(s.drop_last()).contains_key(k));
        assert(slots_map(s).remove(k) =~= slots_map(s.drop_last()));
    } else {
        let d = s.drop_last();
        assert(keys_distinct(d));
        lemma_slots_map_remove(d, i);
        assert(s.remove(i) =~= d.remove(i).push(s.last()));
        assert(s.remove(i).drop_last() =~= d.remove(i));
        assert(s.last().key@ != k);
        assert(slots_map(s.remove(i)) =~= slots_map(s).remove(k));
    }
}

/// The position of the slot for `key`, if there is one.
fn find_key<V>(slots: &Vec<GaugeSlot<V>>, key: &String) -> (r: Option<usize>)
    ensures
        r matches Some(i) ==> i < slots@.len() && slots@[i as int].key@ == key@,
        r is None ==> forall|j: int| 0 <= j < slots@.len() ==> slots@[j].key@ != key@,
{
    let mut i: usize = 0;
    while i < slots.len()
        invariant
            i <= slots.len(),
            forall|j: int| 0 <= j < i ==> slots@[j].key@ != key@,
        decreases slots.len() - i,
    {
        if slots[i].key == *key {
            return Some(i);
        }
        i = i + 1;
    }
    None
}

/// The gauge readings of one collector, with the update round each was recorded in.
pub struct GaugeTable<V> {
    slots: Vec<GaugeSlot<V>>,
    current_generation: u64,
}

impl<V> GaugeTable<V> {
    /// The readings held, by key.
    pub closed spec fn readings(&self) -> Map<Seq<char>, SlotView<V>> {
        slots_map(self.slots@)
    }

    /// The current update round.
    pub closed spec fn generation(&self) -> u64 {
        self.current_generation
    }

    /// Each key is held once.
    #[verifier::type_invariant]
    spec fn wf(&self) -> bool {
        keys_distinct(self.slots@)
    }

    /// No reading carries a later round than the current one. Every
    /// operation keeps this, except opening a round when the counter wraps.
    pub open spec fn rounds_ordered(&self) -> bool {
        forall|k: Seq<char>| #[trigger] self.readings().contains_key(k) ==> self.readings()[k].1 <= self.generation()
    }

    /// An empty table in round zero.
    pub fn new() -> (t: Self)
        ensures
            t.readings() == Map::<Seq<char>, SlotView<V>>::empty(),
            t.generation() == 0,
            t.rounds_ordered(),
    {
        GaugeTable { slots: Vec::new(), current_generation: 0 }
    }

    /// Opens a new update round.
    pub fn begin_update(&mut self)
        ensures
            final(self).readings() == old(self).readings(),
            final(self).generation() == next_generation(old(self).generation()),
            old(self).rounds_ordered() && old(self).generation() < u64::MAX ==> final(self).rounds_ordered(),
    {
        proof {
            use_type_invariant(&*self);
        }
        let ghost before = *self;
        self.current_generation = self.current_generation.wrapping_add(1);
        proof {
            if before.rounds_ordered() && before.generation() < u64::MAX {
                assert forall|k: Seq<char>| #[trigger] self.readings().contains_key(k) implies self.readings()[k].1
                    <= self.generation() by {
                    assert(before.readings().contains_key(k));
                }
            }
        }
    }

    /// Records `value` under `key` in the current round, replacing any earlier reading for `key`.
    pub fn record(&mut self, key: String, value: V)
        ensures
            final(self).generation() == old(self).generation(),
            final(self).readings() == old(self).readings().insert(key@, (value, old(self).generation())),
            old(self).rounds_ordered() ==> final(self).rounds_ordered(),
    {
        proof {
            use_type_invariant(&*self);
        }
        let ghost old_table = *self;
        let g = self.current_generation;
        let mut slots: Vec<GaugeSlot<V>> = Vec::new();
        std::mem::swap(&mut slots, &mut self.slots);
        let ghost start = slots@;
        match find_key(&slots, &key) {
            Some(i) => {
                proof {
                    lemma_slots_map_remove(slots@, i as int);
                }
                slots.remove(i);
            },
            None => {},
        }
        proof {
            lemma_slots_map_dom(slots@, key@);
        }
        let ghost before = slots@;
        let ghost k = key@;
        slots.push(GaugeSlot { key, value, generation: g });
        assert(slots@.drop_last() =~= before);
        assert(slots_map(slots@) =~= slots_map(start).insert(k, (value, g)));
        self.slots = slots;
        proof {
            if old_table.rounds_ordered() {
                assert forall|kk: Seq<char>| #[trigger] self.readings().contains_key(kk) implies self.readings()[kk].1
                    <= self.generation() by {
                    if kk != k {
                        assert(old_table.readings().contains_key(kk));
                    }
                }
            }
        }
    }

    /// Drops every reading that was not recorded in the current round.
    pub fn sweep_stale(&mut self)
        ensures
            final(self).generation() == old(self).generation(),
            final(self).readings() == swept(old(self).readings(), old(self).generation()),
            old(self).rounds_ordered() ==> final(self).rounds_ordered(),
    {
        proof {
            use_type_invariant(&*self);
        }
        let g = self.current_generation;
        let mut rest: Vec<GaugeSlot<V>> = Vec::new();
        std::mem::swap(&mut rest, &mut self.slots);
        let mut kept: Vec<GaugeSlot<V>> = Vec::new();
        let ghost all = rest@;
        while rest.len() > 0
            invariant
                keys_distinct(all),
                rest@ == all.take(rest@.len() as int),
                rest@.len() <= all.len(),
                keys_distinct(kept@),
                forall|i: int, j: int| 0 <= i < kept@.len() && 0 <= j < rest@.len() ==> kept@[i].key@ != rest@[j].key@,
                swept(slots_map(all), g) == slots_map(kept@).union_prefer_right(swept(slots_map(rest@), g)),
            decreases rest.len(),
        {
            let ghost before = rest@;
            let s = rest.pop().unwrap();
            assert(rest@ =~= before.drop_last());
            assert(rest@ =~= all.take(rest@.len() as int));
            proof {
                lemma_slots_map_dom(rest@, s.key@);
                assert forall|j: int| 0 <= j < rest@.len() implies rest@[j].key@ != s.key@ by {
                    assert(before[j] == rest@[j]);
                    assert(before[before.len() - 1] == s);
                    assert(all[j] == before[j]);
                    assert(all[before.len() - 1] == s);
                }
            }
            if s.generation == g {
                let ghost kb = kept@;
                kept.push(s);
                proof {
                    assert(kept@.drop_last() =~= kb);
                    assert forall|i: int, j: int| 0 <= i < kept@.len() && 0 <= j < rest@.len() implies kept@[i].key@ != rest@[j].key@ by {
                        if i < kb.len() {
                            assert(before[j] == rest@[j]);
                        }
                    }
                    assert(swept(slots_map(all), g) =~= slots_map(kept@).union_prefer_right(swept(slots_map(rest@), g)));
                }
            } else {
                proof {
                    assert forall|i: int, j: int| 0 <= i < kept@.len() && 0 <= j < rest@.len() implies kept@[i].key@ != rest@[j].key@ by {
                        assert(before[j] == rest@[j]);
                    }
                    assert(swept(slots_map(all), g) =~= slots_map(kept@).union_prefer_right(swept(slots_map(rest@), g)));
                }
            }
        }
        assert(swept(slots_map(rest@), g) =~= Map::empty());
        assert(swept(slots_map(all), g) =~= slots_map(kept@));
        self.slots = kept;
    }

    /// Number of readings held.
    pub fn len(&self) -> (n: usize)
        ensures
            n == self.readings().len(),
    {
        proof {
            use_type_invariant(self);
            lemma_slots_len(self.slots@);
        }
        self.slots.len()
    }

    /// The held slots, in no particular order; each key appears once.
    pub fn slots(&self) -> (r: &Vec<GaugeSlot<V>>)
        ensures
            slots_map(r@) == self.readings(),
            keys_distinct(r@),
    {
        proof {
            use_type_invariant(self);
        }
        &self.slots
    }
}

proof fn lemma_slots_len<V>(s: Seq<GaugeSlot<V>>)
    requires
        keys_distinct(s),
    ensures
        slots_map(s).dom().finite(),
        slots_map(s).len() == s.len(),
    decreases s.len(),
{
    if s.len() > 0 {
        lemma_slots_len(s.drop_last());
        lemma_slots_map_dom(s.drop_last(), s.last().key@);
        if slots_map(s.drop_last()).contains_key(s.last().key@) {
            let i = choose|i: int| 0 <= i < s.len() - 1 && s.drop_last()[i].key@ == s.last().key@;
            assert(s[i].key@ == s.last().key@);
        }
    }
}

} // verus!
