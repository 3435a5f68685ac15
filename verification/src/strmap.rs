//! A map from strings to strings that keeps its entries in insertion order.
use vstd::prelude::*;
use crate::text::{str_eq, string_of};
use crate::seqs::{first_index, lemma_first_index};

verus! {

/// The key/value views of a sequence of string pairs.
pub open spec fn pairs_view(e: Seq<(String, String)>) -> Seq<(Seq<char>, Seq<char>)> {
    e.map_values(|p: (String, String)| (p.0@, p.1@))
}

/// Whether an entry has key `k`.
pub open spec fn key_is(k: Seq<char>) -> spec_fn((Seq<char>, Seq<char>)) -> bool {
    |p: (Seq<char>, Seq<char>)| p.0 == k
}

/// The entries after setting `k` to `v`: the entry with key `k` is updated in
/// place, or a new entry is appended.
pub open spec fn upsert(e: Seq<(Seq<char>, Seq<char>)>, k: Seq<char>, v: Seq<char>) -> Seq<(Seq<char>, Seq<char>)> {
    match first_index(e, key_is(k)) {
        Some(i) => e.update(i, (k, v)),
        None => e.push((k, v)),
    }
}

/// The entries after setting each pair of `defs` in turn.
pub open spec fn upsert_all(e: Seq<(Seq<char>, Seq<char>)>, defs: Seq<(Seq<char>, Seq<char>)>) -> Seq<(Seq<char>, Seq<char>)>
    decreases defs.len(),
{
    if defs.len() == 0 {
        e
    } else {
        upsert(upsert_all(e, defs.drop_last()), defs.last().0, defs.last().1)
    }
}

/// No key occurs twice.
pub open spec fn keys_unique(e: Seq<(Seq<char>, Seq<char>)>) -> bool {
    forall|i: int, j: int| 0 <= i < e.len() && 0 <= j < e.len() && i != j ==> e[i].0 != e[j].0
}

/// The map that a sequence of pairs with distinct keys denotes.
pub open spec fn map_of(e: Seq<(Seq<char>, Seq<char>)>) -> Map<Seq<char>, Seq<char>>
    decreases e.len(),
{
    if e.len() == 0 {
        Map::empty()
    } else {
        map_of(e.drop_last()).insert(e.last().0, e.last().1)
    }
}

/// The entries without the one whose key is `k` (if any).
pub open spec fn remove_key(e: Seq<(Seq<char>, Seq<char>)>, k: Seq<char>) -> Seq<(Seq<char>, Seq<char>)> {
    match first_index(e, key_is(k)) {
        Some(i) => e.remove(i),
        None => e,
    }
}

/// A key is in the denoted map exactly when some entry has it, with that entry's value.
pub proof fn lemma_map_of_lookup(e: Seq<(Seq<char>, Seq<char>)>, k: Seq<char>)
    requires
        keys_unique(e),
    ensures
        map_of(e).dom().finite(),
        map_of(e).len() == e.len(),
        map_of(e).contains_key(k) <==> exists|i: int| 0 <= i < e.len() && e[i].0 == k,
        forall|i: int| 0 <= i < e.len() && e[i].0 == k ==> map_of(e)[k] == e[i].1,
    decreases e.len(),
{
    if e.len() > 0 {
        let d = e.drop_last();
        assert(keys_unique(d));
        lemma_map_of_lookup(d, k);
        lemma_map_of_lookup(d, e.last().0);
        assert(!map_of(d).contains_key(e.last().0)) by {
            if map_of(d).contains_key(e.last().0) {
                let i = choose|i: int| 0 <= i < d.len() && d[i].0 == e.last().0;
                assert(e[i].0 == e[e.len() - 1].0);
            }
        }
        if map_of(e).contains_key(k) {
            if k == e.last().0 {
                assert(e[e.len() - 1].0 == k);
            } else {
                let i = choose|i: int| 0 <= i < d.len() && d[i].0 == k;
                assert(e[i].0 == k);
            }
        }
        assert forall|i: int| 0 <= i < e.len() && e[i].0 == k implies map_of(e)[k] == e[i].1 by {
            if i < e.len() - 1 {
                assert(d[i].0 == k);
            }
        }
        if exists|i: int| 0 <= i < e.len() && e[i].0 == k {
            let i = choose|i: int| 0 <= i < e.len() && e[i].0 == k;
            if i < e.len() - 1 {
                assert(d[i].0 == k);
            }
        }
    }
}

/// Removing an entry keeps the keys distinct and removes its key from the denoted map.
proof fn lemma_map_of_remove(e: Seq<(Seq<char>, Seq<char>)>, i: int)
    requires
        keys_unique(e),
        0 <= i < e.len(),
    ensures
        keys_unique(e.remove(i)),
        map_of(e.remove(i)) == map_of(e).remove(e[i].0),
{
    let k = e[i].0;
    let r = e.remove(i);
    assert forall|a: int| 0 <= a < r.len() implies #[trigger] r[a] == e[if a < i { a } else { a + 1 }] by {}
    assert(keys_unique(r)) by {
        assert forall|a: int, b: int| 0 <= a < r.len() && 0 <= b < r.len() && a != b implies r[a].0 != r[b].0 by {
            let ea = if a < i { a } else { a + 1 };
            let eb = if b < i { b } else { b + 1 };
            assert(r[a] == e[ea] && r[b] == e[eb]);
        }
    }
    assert forall|j: Seq<char>| #[trigger] map_of(r).contains_key(j) == map_of(e).remove(k).contains_key(j)
        && (map_of(r).contains_key(j) ==> map_of(r)[j] == map_of(e)[j]) by {
        lemma_map_of_lookup(r, j);
        lemma_map_of_lookup(e, j);
        if map_of(r).contains_key(j) {
            let a = choose|a: int| 0 <= a < r.len() && r[a].0 == j;
            let b = if a < i { a } else { a + 1 };
            assert(r[a] == e[b]);
            assert(b != i);
            assert(j != k);
        }
        if map_of(e).contains_key(j) && j != k {
            let b = choose|b: int| 0 <= b < e.len() && e[b].0 == j;
            assert(b != i);
            let a = if b < i { b } else { b - 1 };
            assert(r[a] == e[b]);
        }
    }
    assert(map_of(r) =~= map_of(e).remove(k));
}

/// Replacing the value of an existing entry updates the denoted map.
proof fn lemma_map_of_update(e: Seq<(Seq<char>, Seq<char>)>, i: int, v: Seq<char>)
    requires
        keys_unique(e),
        0 <= i < e.len(),
    ensures
        map_of(e.update(i, (e[i].0, v))) == map_of(e).insert(e[i].0, v),
    decreases e.len(),
{
    let k = e[i].0;
    let u = e.update(i, (k, v));
    if i == e.len() - 1 {
        assert(u.drop_last() =~= e.drop_last());
        lemma_map_of_lookup(e.drop_last(), k);
        assert(!map_of(e.drop_last()).contains_key(k)) by {
            if map_of(e.drop_last()).contains_key(k) {
                let j = choose|j: int| 0 <= j < e.len() - 1 && e.drop_last()[j].0 == k;
                assert(e[j].0 == e[i].0);
            }
        }
        assert(map_of(u) =~= map_of(e).insert(k, v));
    } else {
        let d = e.drop_last();
        assert(keys_unique(d));
        lemma_map_of_update(d, i, v);
        assert(u.drop_last() =~= d.update(i, (k, v)));
        assert(e.last().0 != k);
        assert(map_of(u) =~= map_of(e).insert(k, v));
    }
}

/// String-to-string map with insertion-ordered, distinct keys.
#[derive(Debug)]
pub struct StrMap {
    entries: Vec<(String, String)>,
}

impl View for StrMap {
    type V = Map<Seq<char>, Seq<char>>;

    closed spec fn view(&self) -> Map<Seq<char>, Seq<char>> {
        map_of(pairs_view(self.entries@))
    }
}

impl StrMap {
    /// The entries in insertion order.
    pub closed spec fn ordered(&self) -> Seq<(Seq<char>, Seq<char>)> {
        pairs_view(self.entries@)
    }

    #[verifier::type_invariant]
    closed spec fn inv(&self) -> bool {
        keys_unique(pairs_view(self.entries@))
    }

    /// An empty map.
    pub fn new() -> (m: Self)
        ensures
            m@ == Map::<Seq<char>, Seq<char>>::empty(),
            m.ordered() == Seq::<(Seq<char>, Seq<char>)>::empty(),
    {
        let m = StrMap { entries: Vec::new() };
        assert(pairs_view(m.entries@) =~= Seq::empty());
        m
    }

    /// Position of the entry with key `k`.
    fn find(&self, k: &str) -> (r: Option<usize>)
        ensures
            match r {
                Some(i) => i < self.entries@.len() && pairs_view(self.entries@)[i as int].0 == k@,
                None => forall|i: int| 0 <= i < self.entries@.len() ==> #[trigger] pairs_view(self.entries@)[i].0 != k@,
            },
    {
        let mut i: usize = 0;
        while i < self.entries.len()
            invariant
                0 <= i <= self.entries@.len(),
                forall|j: int| 0 <= j < i ==> pairs_view(self.entries@)[j].0 != k@,
            decreases self.entries@.len() - i,
        {
            if str_eq(self.entries[i].0.as_str(), k) {
                return Some(i);
            }
            i = i + 1;
        }
        None
    }

    /// Sets the value of `k`; a new key is added after all others.
    pub fn insert(&mut self, k: &str, v: &str)
        ensures
            final(self)@ == old(self)@.insert(k@, v@),
            final(self).ordered() == upsert(old(self).ordered(), k@, v@),
    {
        proof {
            use_type_invariant(&*self);
            lemma_map_of_lookup(pairs_view(self.entries@), k@);
        }
        let ghost e = pairs_view(self.entries@);
        let found = self.find(k);
        proof {
            match found {
                Some(i) => {
                    assert forall|j: int| 0 <= j < i implies !key_is(k@)(#[trigger] e[j]) by {
                        if e[j].0 == k@ {
                            assert(e[i as int].0 == k@);
                        }
                    }
                    lemma_first_index(e, key_is(k@), i as int);
                },
                None => {
                    lemma_first_index(e, key_is(k@), e.len() as int);
                },
            }
        }
        match found {
            Some(i) => {
                let ks = string_of(k);
                let vs = string_of(v);
                proof {
                    lemma_map_of_update(e, i as int, v@);
                }
                let mut es: Vec<(String, String)> = Vec::new();
                std::mem::swap(&mut es, &mut self.entries);
                es.set(i, (ks, vs));
                assert(pairs_view(es@) =~= e.update(i as int, (k@, v@)));
                self.entries = es;
            },
            None => {
                let ks = string_of(k);
                let vs = string_of(v);
                let mut es: Vec<(String, String)> = Vec::new();
                std::mem::swap(&mut es, &mut self.entries);
                es.push((ks, vs));
                assert(pairs_view(es@) =~= e.push((k@, v@)));
                assert(pairs_view(es@).drop_last() =~= e);
                self.entries = es;
            },
        }
    }

    /// Removes the entry of `k`, if present, and returns its value; the other
    /// entries keep their order.
    pub fn remove(&mut self, k: &str) -> (r: Option<String>)
        ensures
            match r {
                Some(v) => old(self)@.contains_key(k@) && v@ == old(self)@[k@],
                None => !old(self)@.contains_key(k@),
            },
            final(self)@ == old(self)@.remove(k@),
            final(self).ordered() == remove_key(old(self).ordered(), k@),
    {
        proof {
            use_type_invariant(&*self);
            lemma_map_of_lookup(pairs_view(self.entries@), k@);
        }
        let ghost e = pairs_view(self.entries@);
        match self.find(k) {
            Some(i) => {
                proof {
                    assert forall|j: int| 0 <= j < i implies !key_is(k@)(#[trigger] e[j]) by {
                        if e[j].0 == k@ {
                            assert(e[i as int].0 == k@);
                        }
                    }
                    lemma_first_index(e, key_is(k@), i as int);
                    lemma_map_of_remove(e, i as int);
                }
                let mut es: Vec<(String, String)> = Vec::new();
                std::mem::swap(&mut es, &mut self.entries);
                let (_, v) = es.remove(i);
                assert(pairs_view(es@) =~= e.remove(i as int));
                self.entries = es;
                Some(v)
            },
            None => {
                proof {
                    lemma_first_index(e, key_is(k@), e.len() as int);
                    assert(!(exists|j: int| 0 <= j < e.len() && #[trigger] e[j].0 == k@));
                    assert(self@.remove(k@) =~= self@);
                }
                None
            },
        }
    }

    /// The value of `k`, if present.
    pub fn get(&self, k: &str) -> (r: Option<&str>)
        ensures
            match r {
                Some(v) => self@.contains_key(k@) && v@ == self@[k@],
                None => !self@.contains_key(k@),
            },
    {
        proof {
            use_type_invariant(self);
            lemma_map_of_lookup(pairs_view(self.entries@), k@);
        }
        match self.find(k) {
            Some(i) => {
                assert(pairs_view(self.entries@)[i as int].0 == k@);
                Some(self.entries[i].1.as_str())
            },
            None => {
                assert(!(exists|j: int| 0 <= j < pairs_view(self.entries@).len() && #[trigger] pairs_view(self.entries@)[j].0 == k@));
                None
            },
        }
    }

    /// Whether `k` is present.
    pub fn contains_key(&self, k: &str) -> (r: bool)
        ensures
            r == self@.contains_key(k@),
    {
        proof {
            use_type_invariant(self);
            lemma_map_of_lookup(pairs_view(self.entries@), k@);
        }
        match self.find(k) {
            Some(i) => {
                assert(pairs_view(self.entries@)[i as int].0 == k@);
                true
            },
            None => {
                assert(!(exists|j: int| 0 <= j < pairs_view(self.entries@).len() && #[trigger] pairs_view(self.entries@)[j].0 == k@));
                false
            },
        }
    }

    /// Number of entries.
    pub fn len(&self) -> (r: usize)
        ensures
            r == self@.len(),
            r == self.ordered().len(),
    {
        proof {
            use_type_invariant(self);
            lemma_map_of_lookup(pairs_view(self.entries@), Seq::empty());
        }
        self.entries.len()
    }

    /// Removes every entry.
    pub fn clear(&mut self)
        ensures
            final(self)@ == Map::<Seq<char>, Seq<char>>::empty(),
            final(self).ordered() == Seq::<(Seq<char>, Seq<char>)>::empty(),
    {
        self.entries = Vec::new();
        assert(pairs_view(self.entries@) =~= Seq::empty());
    }

    /// The entries as slices, in insertion order.
    pub fn pairs(&self) -> (r: Vec<(&str, &str)>)
        ensures
            r@.map_values(|p: (&str, &str)| (p.0@, p.1@)) == self.ordered(),
            keys_unique(self.ordered()),
            self@ == map_of(self.ordered()),
    {
        proof {
            use_type_invariant(self);
        }
        let mut r: Vec<(&str, &str)> = Vec::new();
        let mut i: usize = 0;
        while i < self.entries.len()
            invariant
                0 <= i <= self.entries@.len(),
                r@.map_values(|p: (&str, &str)| (p.0@, p.1@)) == pairs_view(self.entries@).take(i as int),
            decreases self.entries@.len() - i,
        {
            let ghost old_r = r@;
            r.push((self.entries[i].0.as_str(), self.entries[i].1.as_str()));
            proof {
                assert(r@.len() == old_r.len() + 1);
                assert(r@.map_values(|p: (&str, &str)| (p.0@, p.1@)) =~= old_r.map_values(|p: (&str, &str)| (p.0@, p.1@)).push(pairs_view(self.entries@)[i as int]));
                assert(pairs_view(self.entries@).take(i + 1) =~= pairs_view(self.entries@).take(i as int).push(pairs_view(self.entries@)[i as int]));
                assert(r@.map_values(|p: (&str, &str)| (p.0@, p.1@)) =~= pairs_view(self.entries@).take(i + 1));
            }
            i = i + 1;
        }
        assert(pairs_view(self.entries@).take(i as int) =~= pairs_view(self.entries@));
        r
    }
}

} // verus!
