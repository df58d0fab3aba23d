use vstd::prelude::*;

use crate::text::str_eq;

verus! {

/// A map from text keys to text values, in which no key occurs twice.
///
/// Entries keep the order in which their keys were first inserted;
/// inserting a key that is present replaces its value in place.
#[derive(Debug)]
pub struct StringMap {
    entries: Vec<(String, String)>,
}

/// Whether no key occurs twice among `entries`.
pub open spec fn keys_distinct(entries: Seq<(String, String)>) -> bool {
    forall|i: int, j: int|
        0 <= i < entries.len() && 0 <= j < entries.len() && i != j
            ==> #[trigger] entries[i].0@ != #[trigger] entries[j].0@
}

/// Whether `k` is the key of some entry.
pub open spec fn has_key(entries: Seq<(String, String)>, k: Seq<char>) -> bool {
    exists|i: int| 0 <= i < entries.len() && #[trigger] entries[i].0@ == k
}

/// The position of the entry whose key is `k`.
pub open spec fn key_position(entries: Seq<(String, String)>, k: Seq<char>) -> int {
    choose|i: int| 0 <= i < entries.len() && #[trigger] entries[i].0@ == k
}

/// The map that `entries` stand for.
pub open spec fn entries_map(entries: Seq<(String, String)>) -> Map<Seq<char>, Seq<char>> {
    Map::new(|k: Seq<char>| has_key(entries, k), |k: Seq<char>| entries[key_position(entries, k)].1@)
}

impl View for StringMap {
    type V = Map<Seq<char>, Seq<char>>;

    closed spec fn view(&self) -> Map<Seq<char>, Seq<char>> {
        entries_map(self.entries@)
    }
}

impl StringMap {
    #[verifier::type_invariant]
    spec fn inv(self) -> bool {
        keys_distinct(self.entries@)
    }

    /// The entries, in order.
    pub closed spec fn entry_seq(&self) -> Seq<(String, String)> {
        self.entries@
    }

    /// An empty map.
    pub fn new() -> (m: Self)
        ensures
            m@ == Map::<Seq<char>, Seq<char>>::empty(),
            m.entry_seq().len() == 0,
    {
        let m = StringMap { entries: Vec::new() };
        assert(m@ =~= Map::<Seq<char>, Seq<char>>::empty());
        m
    }

    /// The position of the entry with key `k`, if there is one.
    fn find(&self, k: &str) -> (r: Option<usize>)
        ensures
            match r {
                Some(i) => i < self.entries@.len() && self.entries@[i as int].0@ == k@,
                None => !has_key(self.entries@, k@),
            },
    {
        let mut i: usize = 0;
        while i < self.entries.len()
            invariant
                i <= self.entries@.len(),
                forall|j: int| 0 <= j < i ==> self.entries@[j].0@ != k@,
            decreases self.entries@.len() - i,
        {
            if str_eq(self.entries[i].0.as_str(), k) {
                return Some(i);
            }
            i = i + 1;
        }
        None
    }

    /// The value stored under `k`.
    pub fn get(&self, k: &str) -> (r: Option<&String>)
        ensures
            match r {
                Some(v) => self@.contains_key(k@) && v@ == self@[k@],
                None => !self@.contains_key(k@),
            },
    {
        proof {
            use_type_invariant(self);
        }
        match self.find(k) {
            Some(i) => {
                let ghost e = self.entries@;
                assert(has_key(e, k@));
                let ghost p = key_position(e, k@);
                assert(e[p].0@ == k@);
                assert(p == i as int);
                Some(&self.entries[i].1)
            },
            None => None,
        }
    }

    /// The number of keys.
    pub fn len(&self) -> (n: usize)
        ensures
            n == self@.len(),
            n == self.entry_seq().len(),
    {
        proof {
            use_type_invariant(self);
            lemma_entries_map_len(self.entries@);
        }
        self.entries.len()
    }

    /// Stores `v` under `k`, replacing the value that `k` had in its place;
    /// a new key goes last.
    pub fn insert(&mut self, k: String, v: String)
        ensures
            final(self)@ == old(self)@.insert(k@, v@),
            old(self)@.contains_key(k@) ==> exists|i: int|
                0 <= i < old(self).entry_seq().len() && (#[trigger] old(self).entry_seq()[i]).0@ == k@
                    && final(self).entry_seq() == old(self).entry_seq().update(i, (k, v)),
            !old(self)@.contains_key(k@) ==> final(self).entry_seq() == old(self).entry_seq().push((k, v)),
    {
        proof {
            use_type_invariant(&*self);
        }
        let ghost old_e = self.entries@;
        match self.find(k.as_str()) {
            Some(i) => {
                let mut entries = Vec::new();
                std::mem::swap(&mut entries, &mut self.entries);
                let ghost kv = (k, v);
                entries.set(i, (k, v));
                let ghost e = entries@;
                assert(old_e[i as int].0@ == kv.0@);
                assert(e == old_e.update(i as int, kv));
                assert(keys_distinct(e));
                self.entries = entries;
                proof {
                    assert forall|kk: Seq<char>| #[trigger] has_key(e, kk) == has_key(old_e, kk) by {
                        if has_key(old_e, kk) {
                            let j = choose|j: int| 0 <= j < old_e.len() && #[trigger] old_e[j].0@ == kk;
                            assert(e[j].0@ == kk);
                        }
                        if has_key(e, kk) {
                            let j = choose|j: int| 0 <= j < e.len() && #[trigger] e[j].0@ == kk;
                            assert(old_e[j].0@ == kk);
                        }
                    }
                    assert forall|kk: Seq<char>| has_key(e, kk) implies
                        #[trigger] e[key_position(e, kk)].1@ == old_e.update(i as int, (k, v))[key_position(e, kk)].1@ by {}
                    assert forall|kk: Seq<char>| has_key(old_e, kk) && kk != k@ implies
                        #[trigger] key_position(e, kk) == key_position(old_e, kk) by {
                        let p = key_position(old_e, kk);
                        assert(old_e[p].0@ == kk);
                        assert(p != i as int);
                        assert(e[p].0@ == kk);
                        assert(has_key(e, kk));
                        let q = key_position(e, kk);
                        assert(e[q].0@ == kk);
                    }
                    assert(e[i as int].0@ == k@);
                    assert(has_key(e, k@));
                    assert(e[key_position(e, k@)].0@ == k@);
                    assert(key_position(e, k@) == i as int);
                    assert(entries_map(e) =~= entries_map(old_e).insert(k@, v@));
                    assert(old(self).entry_seq() == old_e);
                    assert(old(self).entry_seq()[i as int].0@ == k@);
                    assert(self.entries@ == old(self).entry_seq().update(i as int, kv));
                }
            },
            None => {
                let ghost kv = k@;
                let ghost vv = v@;
                let mut entries = Vec::new();
                std::mem::swap(&mut entries, &mut self.entries);
                entries.push((k, v));
                let ghost e = entries@;
                assert(keys_distinct(e)) by {
                    assert forall|a: int, b: int|
                        0 <= a < e.len() && 0 <= b < e.len() && a != b implies
                        #[trigger] e[a].0@ != #[trigger] e[b].0@ by {
                        if a < old_e.len() && b < old_e.len() {
                            assert(e[a] == old_e[a] && e[b] == old_e[b]);
                        } else if a < old_e.len() {
                            assert(e[a] == old_e[a]);
                        } else {
                            assert(e[b] == old_e[b]);
                        }
                    }
                }
                self.entries = entries;
                proof {
                    assert(e[old_e.len() as int].0@ == kv);
                    assert forall|kk: Seq<char>| #[trigger] has_key(e, kk) == (has_key(old_e, kk) || kk == kv) by {
                        if has_key(old_e, kk) {
                            let j = choose|j: int| 0 <= j < old_e.len() && #[trigger] old_e[j].0@ == kk;
                            assert(e[j].0@ == kk);
                        }
                    }
                    assert forall|kk: Seq<char>| has_key(old_e, kk) implies
                        #[trigger] key_position(e, kk) == key_position(old_e, kk) by {
                        let p = key_position(old_e, kk);
                        assert(old_e[p].0@ == kk);
                        assert(e[p].0@ == kk);
                        assert(has_key(e, kk));
                        let q = key_position(e, kk);
                        assert(e[q].0@ == kk);
                        if q == old_e.len() {
                            assert(kk == kv);
                        }
                    }
                    assert(key_position(e, kv) == old_e.len() as int);
                    assert(entries_map(e) =~= entries_map(old_e).insert(kv, vv));
                }
            },
        }
    }

    /// The entries, in the order in which their keys were first inserted.
    pub fn entries(&self) -> (r: &Vec<(String, String)>)
        ensures
            r@ == self.entry_seq(),
            entries_map(r@) == self@,
            keys_distinct(r@),
    {
        proof {
            use_type_invariant(self);
        }
        &self.entries
    }
}

impl Clone for StringMap {
    fn clone(&self) -> (r: Self)
        ensures
            r@ == self@,
            r.entry_seq() == self.entry_seq(),
    {
        proof {
            use_type_invariant(self);
        }
        let mut entries: Vec<(String, String)> = Vec::new();
        let mut i: usize = 0;
        while i < self.entries.len()
            invariant
                i <= self.entries@.len(),
                entries@ == self.entries@.take(i as int),
            decreases self.entries@.len() - i,
        {
            let k = self.entries[i].0.clone();
            let v = self.entries[i].1.clone();
            entries.push((k, v));
            i = i + 1;
            assert(self.entries@.take(i as int) == self.entries@.take(i - 1).push(self.entries@[i - 1]));
        }
        assert(self.entries@.take(self.entries@.len() as int) == self.entries@);
        StringMap { entries }
    }
}

impl PartialEq for StringMap {
    fn eq(&self, other: &Self) -> (r: bool) {
        proof {
            use_type_invariant(self);
            use_type_invariant(other);
            lemma_entries_map_len(self.entries@);
            lemma_entries_map_len(other.entries@);
        }
        if self.entries.len() != other.entries.len() {
            return false;
        }
        let mut i: usize = 0;
        while i < self.entries.len()
            invariant
                keys_distinct(self.entries@),
                i <= self.entries@.len(),
                forall|j: int| 0 <= j < i ==> other@.contains_key(#[trigger] self.entries@[j].0@)
                    && other@[self.entries@[j].0@] == self.entries@[j].1@,
            decreases self.entries@.len() - i,
        {
            match other.get(self.entries[i].0.as_str()) {
                Some(v) => {
                    if *v != self.entries[i].1 {
                        proof {
                            lemma_entry_in_map(self.entries@, i as int);
                        }
                        return false;
                    }
                },
                None => {
                    proof {
                        lemma_entry_in_map(self.entries@, i as int);
                    }
                    return false;
                },
            }
            i = i + 1;
        }
        proof {
            let m = self@;
            let n = other@;
            assert forall|k: Seq<char>| m.contains_key(k) implies n.contains_key(k) && n[k] == m[k] by {
                let j = choose|j: int| 0 <= j < self.entries@.len() && #[trigger] self.entries@[j].0@ == k;
                lemma_entry_in_map(self.entries@, j);
            }
            vstd::set_lib::lemma_subset_equality(m.dom(), n.dom());
            assert(m =~= n);
        }
        true
    }
}

impl vstd::std_specs::cmp::PartialEqSpecImpl for StringMap {
    open spec fn obeys_eq_spec() -> bool {
        true
    }

    open spec fn eq_spec(&self, other: &StringMap) -> bool {
        self@ == other@
    }
}

/// Each entry is in the map its entries stand for.
proof fn lemma_entry_in_map(entries: Seq<(String, String)>, i: int)
    requires
        keys_distinct(entries),
        0 <= i < entries.len(),
    ensures
        entries_map(entries).contains_key(entries[i].0@),
        entries_map(entries)[entries[i].0@] == entries[i].1@,
{
    let k = entries[i].0@;
    assert(has_key(entries, k));
    let p = key_position(entries, k);
    assert(entries[p].0@ == k);
}

/// The number of keys is the number of entries.
proof fn lemma_entries_map_len(entries: Seq<(String, String)>)
    requires
        keys_distinct(entries),
    ensures
        entries_map(entries).dom().len() == entries.len(),
        entries_map(entries).dom().finite(),
    decreases entries.len(),
{
    let m = entries_map(entries);
    if entries.len() == 0 {
        assert(m.dom() =~= Set::<Seq<char>>::empty());
    } else {
        let init = entries.drop_last();
        let last = entries.last();
        assert(keys_distinct(init)) by {
            assert forall|i: int, j: int|
                0 <= i < init.len() && 0 <= j < init.len() && i != j implies
                #[trigger] init[i].0@ != #[trigger] init[j].0@ by {
                assert(init[i] == entries[i] && init[j] == entries[j]);
            }
        }
        lemma_entries_map_len(init);
        let mi = entries_map(init);
        assert(!mi.dom().contains(last.0@)) by {
            if has_key(init, last.0@) {
                let j = choose|j: int| 0 <= j < init.len() && #[trigger] init[j].0@ == last.0@;
                assert(entries[j].0@ == entries[entries.len() - 1].0@);
            }
        }
        assert forall|k: Seq<char>| #[trigger] m.dom().contains(k) == mi.dom().insert(last.0@).contains(k) by {
            if has_key(init, k) {
                let j = choose|j: int| 0 <= j < init.len() && #[trigger] init[j].0@ == k;
                assert(entries[j].0@ == k);
            }
            if has_key(entries, k) {
                let j = choose|j: int| 0 <= j < entries.len() && #[trigger] entries[j].0@ == k;
                if j < init.len() {
                    assert(init[j].0@ == k);
                }
            }
        }
        assert(m.dom() =~= mi.dom().insert(last.0@));
    }
}

} // verus!
