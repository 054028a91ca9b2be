//! Maps from string keys to string values, as Kubernetes labels and
//! annotations are, kept in ascending key order. Later insertions under a
//! key replace earlier ones.

use vstd::prelude::*;
use crate::text::{chars_lt, chars_of, lemma_lt_irreflexive, lemma_lt_total, lemma_lt_transitive, str_lt};

verus! {

/// The key-value pairs held by a sequence of entries; a later entry for a
/// key takes precedence.
pub open spec fn entries_map(s: Seq<(String, String)>) -> Map<Seq<char>, Seq<char>>
    decreases s.len(),
{
    if s.len() == 0 {
        Map::empty()
    } else {
        entries_map(s.drop_last()).insert(s.last().0@, s.last().1@)
    }
}

/// No key occurs twice.
pub open spec fn entry_keys_distinct(s: Seq<(String, String)>) -> bool {
    forall|i: int, j: int| 0 <= i < j < s.len() ==> s[i].0@ != s[j].0@
}

/// Keys in strictly ascending order.
pub open spec fn entry_keys_sorted(s: Seq<(String, String)>) -> bool {
    forall|i: int, j: int| 0 <= i < j < s.len() ==> chars_lt(s[i].0@, s[j].0@)
}

proof fn lemma_entries_map_insert(s: Seq<(String, String)>, p: int, e: (String, String))
    requires
        0 <= p <= s.len(),
        forall|j: int| 0 <= j < s.len() ==> s[j].0@ != e.0@,
    ensures
        entries_map(s.insert(p, e)) == entries_map(s).insert(e.0@, e.1@),
    decreases s.len(),
{
    let t = s.insert(p, e);
    if p == s.len() {
        assert(t.drop_last() =~= s);
    } else {
        lemma_entries_map_insert(s.drop_last(), p, e);
        assert(t.drop_last() =~= s.drop_last().insert(p, e));
        assert(t.last() == s.last());
        assert(entries_map(t) =~= entries_map(s).insert(e.0@, e.1@));
    }
}

/// The map obtained by inserting every pair of `s` into `m`, in order.
pub open spec fn insert_all(m: Map<Seq<char>, Seq<char>>, s: Seq<(Seq<char>, Seq<char>)>) -> Map<Seq<char>, Seq<char>>
    decreases s.len(),
{
    if s.len() == 0 {
        m
    } else {
        insert_all(m, s.drop_last()).insert(s.last().0, s.last().1)
    }
}

/// Whether every pair of `required` is present in `actual` with the same value.
pub open spec fn includes_all(actual: Map<Seq<char>, Seq<char>>, required: Map<Seq<char>, Seq<char>>) -> bool {
    forall|k: Seq<char>| #[trigger] required.contains_key(k) ==> actual.contains_key(k) && actual[k] == required[k]
}

pub proof fn lemma_entries_map_dom(s: Seq<(String, String)>, k: Seq<char>)
    ensures
        entries_map(s).contains_key(k) <==> exists|i: int| 0 <= i < s.len() && s[i].0@ == k,
    decreases s.len(),
{
    if s.len() > 0 {
        lemma_entries_map_dom(s.drop_last(), k);
        if entries_map(s).contains_key(k) && s.last().0@ != k {
            let i = choose|i: int| 0 <= i < s.len() - 1 && s.drop_last()[i].0@ == k;
            assert(s[i].0@ == k);
        }
        if exists|i: int| 0 <= i < s.len() && s[i].0@ == k {
            let i = choose|i: int| 0 <= i < s.len() && s[i].0@ == k;
            if i < s.len() - 1 {
                assert(s.drop_last()[i].0@ == k);
            }
        }
    }
}

/// In a sequence without repeated keys, the value for a key is that of its
/// only entry.
pub proof fn lemma_entries_map_value(s: Seq<(String, String)>, i: int)
    requires
        entry_keys_distinct(s),
        0 <= i < s.len(),
    ensures
        entries_map(s).contains_key(s[i].0@),
        entries_map(s)[s[i].0@] == s[i].1@,
    decreases s.len(),
{
    if i < s.len() - 1 {
        lemma_entries_map_value(s.drop_last(), i);
    }
}

proof fn lemma_entries_map_update(s: Seq<(String, String)>, i: int, e: (String, String))
    requires
        entry_keys_distinct(s),
        0 <= i < s.len(),
        e.0@ == s[i].0@,
    ensures
        entry_keys_distinct(s.update(i, e)),
        entries_map(s.update(i, e)) == entries_map(s).insert(e.0@, e.1@),
    decreases s.len(),
{
    let t = s.update(i, e);
    assert(entry_keys_distinct(t));
    if i == s.len() - 1 {
        assert(t.drop_last() =~= s.drop_last());
        assert(entries_map(t) =~= entries_map(s).insert(e.0@, e.1@));
    } else {
        lemma_entries_map_update(s.drop_last(), i, e);
        assert(t.drop_last() =~= s.drop_last().update(i, e));
        assert(s.last().0@ != e.0@);
        assert(entries_map(t) =~= entries_map(s).insert(e.0@, e.1@));
    }
}

fn find_entry(entries: &Vec<(String, String)>, key: &str) -> (r: Option<usize>)
    ensures
        r matches Some(i) ==> i < entries@.len() && entries@[i as int].0@ == key@,
        r is None ==> forall|j: int| 0 <= j < entries@.len() ==> entries@[j].0@ != key@,
{
    let mut i: usize = 0;
    while i < entries.len()
        invariant
            i <= entries.len(),
            forall|j: int| 0 <= j < i ==> entries@[j].0@ != key@,
        decreases entries.len() - i,
    {
        if crate::text::str_eq(entries[i].0.as_str(), key) {
            return Some(i);
        }
        i = i + 1;
    }
    None
}

/// Sets `key` to `value` in a list of entries with distinct keys in
/// ascending order, keeping it so.
fn insert_entry(entries: &mut Vec<(String, String)>, key: String, value: String)
    requires
        entry_keys_distinct(old(entries)@),
        entry_keys_sorted(old(entries)@),
    ensures
        entry_keys_distinct(final(entries)@),
        entry_keys_sorted(final(entries)@),
        entries_map(final(entries)@) == entries_map(old(entries)@).insert(key@, value@),
{
    match find_entry(entries, key.as_str()) {
        Some(i) => {
            proof {
                lemma_entries_map_update(entries@, i as int, (key, value));
            }
            entries.set(i, (key, value));
        },
        None => {
            let mut p: usize = 0;
            while p < entries.len() && str_lt(&chars_of(entries[p].0.as_str()), &chars_of(key.as_str()))
                invariant
                    p <= entries@.len(),
                    forall|j: int| 0 <= j < p ==> chars_lt(entries@[j].0@, key@),
                decreases entries.len() - p,
            {
                p = p + 1;
            }
            let ghost before = entries@;
            let ghost kv = (key, value);
            proof {
                lemma_entries_map_insert(before, p as int, kv);
                if p < before.len() {
                    lemma_lt_total(before[p as int].0@, key@);
                    assert forall|j: int| p <= j < before.len() implies chars_lt(key@, before[j].0@) by {
                        if j > p {
                            lemma_lt_transitive(key@, before[p as int].0@, before[j].0@);
                        }
                    }
                }
            }
            entries.insert(p, (key, value));
            proof {
                let t = entries@;
                assert forall|i: int, j: int| 0 <= i < j < t.len() implies chars_lt(t[i].0@, t[j].0@) by {
                    if j < p {
                    } else if j == p {
                    } else if i < p {
                        lemma_lt_transitive(t[i].0@, key@, t[j].0@);
                    } else if i == p {
                    } else {
                        assert(t[i] == before[i - 1] && t[j] == before[j - 1]);
                    }
                }
                assert forall|i: int, j: int| 0 <= i < j < t.len() implies t[i].0@ != t[j].0@ by {
                    lemma_lt_irreflexive(t[i].0@);
                }
            }
        },
    }
}

/// A string-keyed map of strings, kept as a list of entries with distinct keys.
#[derive(Debug)]
pub struct LabelMap {
    entries: Vec<(String, String)>,
}

impl View for LabelMap {
    type V = Map<Seq<char>, Seq<char>>;

    closed spec fn view(&self) -> Map<Seq<char>, Seq<char>> {
        entries_map(self.entries@)
    }
}

impl Clone for LabelMap {
    /// A map with the same entries.
    fn clone(&self) -> (r: Self)
        ensures
            r@ == self@,
    {
        proof {
            use_type_invariant(self);
        }
        let mut entries: Vec<(String, String)> = Vec::new();
        let mut i: usize = 0;
        while i < self.entries.len()
            invariant
                i <= self.entries@.len(),
                entries@.len() == i,
                forall|j: int| 0 <= j < i ==> (#[trigger] entries@[j]).0@ == self.entries@[j].0@ && entries@[j].1@
                    == self.entries@[j].1@,
            decreases self.entries.len() - i,
        {
            entries.push((self.entries[i].0.clone(), self.entries[i].1.clone()));
            i = i + 1;
        }
        proof {
            lemma_entries_map_same_text(entries@, self.entries@);
        }
        LabelMap { entries }
    }
}

impl LabelMap {
    /// Each key is held once, in ascending key order.
    #[verifier::type_invariant]
    spec fn wf(&self) -> bool {
        &&& entry_keys_distinct(self.entries@)
        &&& entry_keys_sorted(self.entries@)
    }

    /// The entries, in ascending order of their keys.
    pub closed spec fn entry_seq(&self) -> Seq<(String, String)> {
        self.entries@
    }

    /// A map holds finitely many keys.
    pub proof fn lemma_view_finite(&self)
        ensures
            self@.dom().finite(),
    {
        lemma_entries_map_finite(self.entries@);
    }

    /// An empty map.
    pub fn new() -> (m: Self)
        ensures
            m@ == Map::<Seq<char>, Seq<char>>::empty(),
    {
        LabelMap { entries: Vec::new() }
    }

    /// Number of keys.
    pub fn len(&self) -> (n: usize)
        ensures
            n == self@.len(),
    {
        proof {
            use_type_invariant(self);
        }
        proof {
            lemma_len(self.entries@);
        }
        self.entries.len()
    }

    /// Whether the map is empty.
    pub fn is_empty(&self) -> (r: bool)
        ensures
            r == (self@.len() == 0),
            r == (self@ == Map::<Seq<char>, Seq<char>>::empty()),
    {
        proof {
            use_type_invariant(self);
        }
        proof {
            lemma_len(self.entries@);
            if self.entries@.len() > 0 {
                lemma_entries_map_dom(self.entries@, self.entries@[0].0@);
            }
        }
        self.entries.len() == 0
    }

    /// Sets `key` to `value`, replacing any value it had.
    pub fn insert(&mut self, key: String, value: String)
        ensures
            final(self)@ == old(self)@.insert(key@, value@),
    {
        proof {
            use_type_invariant(&*self);
        }
        let mut entries: Vec<(String, String)> = Vec::new();
        std::mem::swap(&mut entries, &mut self.entries);
        insert_entry(&mut entries, key, value);
        self.entries = entries;
    }

    /// The value of `key`, if present.
    pub fn get(&self, key: &str) -> (r: Option<&String>)
        ensures
            r is Some == self@.contains_key(key@),
            r matches Some(v) ==> v@ == self@[key@],
    {
        proof {
            use_type_invariant(self);
        }
        proof {
            lemma_entries_map_dom(self.entries@, key@);
        }
        match find_entry(&self.entries, key) {
            Some(i) => {
                proof {
                    lemma_entries_map_value(self.entries@, i as int);
                }
                Some(&self.entries[i].1)
            },
            None => None,
        }
    }

    /// Whether `key` is present.
    pub fn contains_key(&self, key: &str) -> (r: bool)
        ensures
            r == self@.contains_key(key@),
    {
        self.get(key).is_some()
    }

    /// Inserts every entry of `other`, in order; values of `other` win.
    pub fn extend(&mut self, other: &LabelMap)
        ensures
            final(self)@ == old(self)@.union_prefer_right(other@),
    {
        proof {
            use_type_invariant(&*self);
            use_type_invariant(other);
        }
        let mut i: usize = 0;
        while i < other.entries.len()
            invariant
                i <= other.entries@.len(),
                self@ == old(self)@.union_prefer_right(entries_map(other.entries@.take(i as int))),
            decreases other.entries.len() - i,
        {
            let k = other.entries[i].0.clone();
            let v = other.entries[i].1.clone();
            self.insert(k, v);
            proof {
                assert(other.entries@.take(i + 1).drop_last() =~= other.entries@.take(i as int));
                assert(self@ =~= old(self)@.union_prefer_right(entries_map(other.entries@.take(i + 1))));
            }
            i = i + 1;
        }
        assert(other.entries@.take(other.entries@.len() as int) =~= other.entries@);
    }

    /// The keys, in ascending order; each once.
    pub fn keys(&self) -> (r: Vec<String>)
        ensures
            r@.len() == self.entry_seq().len(),
            forall|i: int| 0 <= i < r@.len() ==> r@[i]@ == self.entry_seq()[i].0@,
            forall|i: int, j: int| 0 <= i < j < r@.len() ==> chars_lt(r@[i]@, r@[j]@),
            forall|k: Seq<char>| self@.contains_key(k) <==> exists|i: int| 0 <= i < r@.len() && r@[i]@ == k,
    {
        proof {
            use_type_invariant(self);
        }
        let mut r: Vec<String> = Vec::new();
        let mut i: usize = 0;
        while i < self.entries.len()
            invariant
                i <= self.entries@.len(),
                r@.len() == i,
                forall|j: int| 0 <= j < i ==> r@[j]@ == self.entries@[j].0@,
            decreases self.entries.len() - i,
        {
            r.push(self.entries[i].0.clone());
            i = i + 1;
        }
        proof {
            assert forall|k: Seq<char>| self@.contains_key(k) <==> exists|i: int| 0 <= i < r@.len() && r@[i]@ == k by {
                lemma_entries_map_dom(self.entries@, k);
                if exists|i: int| 0 <= i < r@.len() && r@[i]@ == k {
                    let i = choose|i: int| 0 <= i < r@.len() && r@[i]@ == k;
                    assert(self.entries@[i].0@ == k);
                }
                if self@.contains_key(k) {
                    let i = choose|i: int| 0 <= i < self.entries@.len() && self.entries@[i].0@ == k;
                    assert(r@[i]@ == k);
                }
            }
        }
        r
    }

    /// The entries, in ascending order of their keys.
    pub fn entries(&self) -> (r: &Vec<(String, String)>)
        ensures
            r@ == self.entry_seq(),
            entries_map(r@) == self@,
            entry_keys_distinct(r@),
            entry_keys_sorted(r@),
    {
        proof {
            use_type_invariant(self);
        }
        &self.entries
    }

    /// Whether every entry of `required` is present in `self` with the same value.
    pub fn contains_all(&self, required: &LabelMap) -> (r: bool)
        ensures
            r == includes_all(self@, required@),
    {
        proof {
            use_type_invariant(self);
            use_type_invariant(required);
        }
        let mut i: usize = 0;
        while i < required.entries.len()
            invariant
                i <= required.entries@.len(),
                entry_keys_distinct(required.entries@),
                forall|j: int| 0 <= j < i ==> self@.contains_key(required.entries@[j].0@)
                    && self@[required.entries@[j].0@] == required.entries@[j].1@,
            decreases required.entries.len() - i,
        {
            let k = &required.entries[i].0;
            match self.get(k.as_str()) {
                Some(v) => {
                    if !crate::text::str_eq(v.as_str(), required.entries[i].1.as_str()) {
                        proof {
                            lemma_entries_map_value(required.entries@, i as int);
                        }
                        return false;
                    }
                },
                None => {
                    proof {
                        lemma_entries_map_value(required.entries@, i as int);
                    }
                    return false;
                },
            }
            i = i + 1;
        }
        proof {
            assert forall|k: Seq<char>| #[trigger] required@.contains_key(k) implies (self@.contains_key(k) && self@[k] == required@[k]) by {
                lemma_entries_map_dom(required.entries@, k);
                let j = choose|j: int| 0 <= j < required.entries@.len() && required.entries@[j].0@ == k;
                lemma_entries_map_value(required.entries@, j);
            }
            assert(includes_all(self@, required@));
        }
        true
    }
}

proof fn lemma_entries_map_same_text(a: Seq<(String, String)>, b: Seq<(String, String)>)
    requires
        a.len() == b.len(),
        forall|j: int| 0 <= j < a.len() ==> (#[trigger] a[j]).0@ == b[j].0@ && a[j].1@ == b[j].1@,
    ensures
        entries_map(a) == entries_map(b),
        entry_keys_distinct(b) ==> entry_keys_distinct(a),
        entry_keys_sorted(b) ==> entry_keys_sorted(a),
    decreases a.len(),
{
    if a.len() > 0 {
        lemma_entries_map_same_text(a.drop_last(), b.drop_last());
        assert(a.last().0@ == b.last().0@ && a.last().1@ == b.last().1@) by {
            assert(a[a.len() - 1] == a.last());
        }
    }
    if entry_keys_distinct(b) {
        assert forall|i: int, j: int| 0 <= i < j < a.len() implies a[i].0@ != a[j].0@ by {
            assert(a[i].0@ == b[i].0@ && a[j].0@ == b[j].0@);
        }
    }
    if entry_keys_sorted(b) {
        assert forall|i: int, j: int| 0 <= i < j < a.len() implies chars_lt(a[i].0@, a[j].0@) by {
            assert(a[i].0@ == b[i].0@ && a[j].0@ == b[j].0@);
        }
    }
}

proof fn lemma_entries_map_finite(s: Seq<(String, String)>)
    ensures
        entries_map(s).dom().finite(),
    decreases s.len(),
{
    if s.len() > 0 {
        lemma_entries_map_finite(s.drop_last());
    }
}

proof fn lemma_len(s: Seq<(String, String)>)
    requires
        entry_keys_distinct(s),
    ensures
        entries_map(s).dom().finite(),
        entries_map(s).len() == s.len(),
    decreases s.len(),
{
    if s.len() > 0 {
        lemma_len(s.drop_last());
        lemma_entries_map_dom(s.drop_last(), s.last().0@);
        if entries_map(s.drop_last()).contains_key(s.last().0@) {
            let i = choose|i: int| 0 <= i < s.len() - 1 && s.drop_last()[i].0@ == s.last().0@;
            assert(s[i].0@ == s.last().0@);
        }
    }
}

} // verus!
