//! A small table of values keyed by name, in which no name occurs twice.
//!
//! It stands where the daemon keeps services and configurations by name; its
//! abstract content is a finite map from names to the values' views.
use vstd::prelude::*;
use crate::text::{str_chars, chars_eq};

verus! {

/// The map that a list of (key, value) pairs describes; a later pair wins.
pub open spec fn pairs_map<V>(s: Seq<(Seq<char>, V)>) -> Map<Seq<char>, V>
    decreases s.len(),
{
    if s.len() == 0 {
        Map::empty()
    } else {
        pairs_map(s.drop_last()).insert(s.last().0, s.last().1)
    }
}

/// No key occurs twice in the list.
pub open spec fn keys_unique<V>(s: Seq<(Seq<char>, V)>) -> bool {
    forall|i: int, j: int| 0 <= i < s.len() && 0 <= j < s.len() && i != j ==> #[trigger] s[i].0 != #[trigger] s[j].0
}

/// A key is in the map exactly when some pair carries it.
pub proof fn lemma_pairs_map_dom<V>(s: Seq<(Seq<char>, V)>, k: Seq<char>)
    ensures
        pairs_map(s).dom().contains(k) <==> exists|i: int| 0 <= i < s.len() && #[trigger] s[i].0 == k,
    decreases s.len(),
{
    if s.len() > 0 {
        lemma_pairs_map_dom(s.drop_last(), k);
        if pairs_map(s.drop_last()).dom().contains(k) {
            let i = choose|i: int| 0 <= i < s.drop_last().len() && #[trigger] s.drop_last()[i].0 == k;
            assert(s[i].0 == k);
        }
        if exists|i: int| 0 <= i < s.len() && #[trigger] s[i].0 == k {
            let i = choose|i: int| 0 <= i < s.len() && #[trigger] s[i].0 == k;
            if i < s.len() - 1 {
                assert(s.drop_last()[i].0 == k);
            }
        }
    }
}

/// With unique keys, the map gives each pair's value for its key.
pub proof fn lemma_pairs_map_value<V>(s: Seq<(Seq<char>, V)>, i: int)
    requires
        keys_unique(s),
        0 <= i < s.len(),
    ensures
        pairs_map(s).dom().contains(s[i].0),
        pairs_map(s)[s[i].0] == s[i].1,
    decreases s.len(),
{
    lemma_pairs_map_dom(s, s[i].0);
    if i < s.len() - 1 {
        let t = s.drop_last();
        assert(keys_unique(t)) by {
            assert forall|a: int, b: int| 0 <= a < t.len() && 0 <= b < t.len() && a != b implies #[trigger] t[a].0
                != #[trigger] t[b].0 by {
                assert(t[a] == s[a] && t[b] == s[b]);
            }
        }
        lemma_pairs_map_value(t, i);
        assert(t[i] == s[i]);
        assert(s[i].0 != s[s.len() - 1].0);
    }
}

/// A table of values keyed by unique names.
pub struct NamedTable<V> {
    entries: Vec<(String, V)>,
}

impl<V: View> NamedTable<V> {
    /// The entries as (name, value view) pairs.
    pub closed spec fn pairs(self) -> Seq<(Seq<char>, V::V)> {
        self.entries@.map_values(|e: (String, V)| (e.0@, e.1@))
    }

    /// The table is well formed: no name occurs twice.
    pub closed spec fn wf(self) -> bool {
        keys_unique(self.pairs())
    }

    /// The abstract content: names to value views.
    pub closed spec fn map(self) -> Map<Seq<char>, V::V> {
        pairs_map(self.pairs())
    }

    /// The names, in the table's order.
    pub closed spec fn names(self) -> Seq<Seq<char>> {
        self.entries@.map_values(|e: (String, V)| e.0@)
    }

    /// Every name of the table is a key of the map, and no name occurs twice.
    pub proof fn lemma_names(self)
        requires
            self.wf(),
        ensures
            self.names().to_set() == self.map().dom(),
            self.names().no_duplicates(),
            self.names().len() == self.len_spec(),
    {
        let p = self.pairs();
        assert forall|k: Seq<char>| self.names().to_set().contains(k) == self.map().dom().contains(k) by {
            lemma_pairs_map_dom(p, k);
            if self.names().to_set().contains(k) {
                let i = choose|i: int| 0 <= i < self.names().len() && self.names()[i] == k;
                assert(p[i].0 == k);
            }
            if self.map().dom().contains(k) {
                let i = choose|i: int| 0 <= i < p.len() && #[trigger] p[i].0 == k;
                assert(self.names()[i] == k);
            }
        }
        assert(self.names().to_set() =~= self.map().dom());
        assert forall|i: int, j: int| 0 <= i < self.names().len() && 0 <= j < self.names().len() && i != j implies
            self.names()[i] != self.names()[j] by {
            assert(p[i].0 == self.names()[i] && p[j].0 == self.names()[j]);
        }
    }

    /// The number of entries.
    pub closed spec fn len_spec(self) -> nat {
        self.entries@.len()
    }

    /// The entry and name lists have one element per entry.
    pub proof fn lemma_len(self)
        ensures
            self.entries().len() == self.len_spec(),
            self.names().len() == self.len_spec(),
    {
    }

    /// The value stored at position `i`.
    pub closed spec fn value_at(self, i: int) -> V {
        self.entries@[i].1
    }

    /// The name stored at position `i`.
    pub closed spec fn name_at(self, i: int) -> Seq<char> {
        self.entries@[i].0@
    }

    /// The entries as (name, value) pairs.
    pub closed spec fn entries(self) -> Seq<(Seq<char>, V)> {
        self.entries@.map_values(|e: (String, V)| (e.0@, e.1))
    }

    /// The names of the table, in its order.
    pub fn names_vec(&self) -> (r: Vec<String>)
        ensures
            r.deep_view() == self.names(),
    {
        let mut r: Vec<String> = Vec::new();
        let mut i: usize = 0;
        while i < self.entries.len()
            invariant
                i <= self.entries@.len(),
                r.deep_view() =~= self.names().take(i as int),
            decreases self.entries@.len() - i,
        {
            let ghost prev = r.deep_view();
            r.push(self.entries[i].0.clone());
            assert(r.deep_view() =~= prev.push(self.names()[i as int]));
            i = i + 1;
        }
        assert(self.names().take(self.entries@.len() as int) =~= self.names());
        r
    }

    /// An empty table.
    pub fn new() -> (t: Self)
        ensures
            t.wf(),
            t.map() == Map::<Seq<char>, V::V>::empty(),
            t.len_spec() == 0,
    {
        let t = NamedTable { entries: Vec::new() };
        assert(t.pairs() =~= Seq::<(Seq<char>, V::V)>::empty());
        t
    }

    /// The number of entries.
    pub fn len(&self) -> (n: usize)
        requires
            self.wf(),
        ensures
            n == self.len_spec(),
            n == self.map().dom().len(),
    {
        proof {
            self.lemma_names();
            self.names().unique_seq_to_set();
        }
        self.entries.len()
    }

    /// The position of `name` in the table.
    pub fn find(&self, name: &str) -> (r: Option<usize>)
        requires
            self.wf(),
        ensures
            match r {
                Some(i) => i < self.len_spec() && self.name_at(i as int) == name@
                    && self.map().dom().contains(name@) && self.map()[name@] == self.value_at(i as int)@,
                None => !self.map().dom().contains(name@),
            },
    {
        let target = str_chars(name);
        let mut i: usize = 0;
        while i < self.entries.len()
            invariant
                i <= self.entries@.len(),
                self.wf(),
                target@ == name@,
                forall|j: int| 0 <= j < i ==> #[trigger] self.pairs()[j].0 != name@,
            decreases self.entries@.len() - i,
        {
            let k = str_chars(self.entries[i].0.as_str());
            if chars_eq(k.as_slice(), target.as_slice()) {
                proof {
                    lemma_pairs_map_value(self.pairs(), i as int);
                }
                return Some(i);
            }
            assert(self.pairs()[i as int].0 == self.entries@[i as int].0@);
            i = i + 1;
        }
        proof {
            lemma_pairs_map_dom(self.pairs(), name@);
        }
        None
    }

    /// The value stored at position `i`.
    pub fn at(&self, i: usize) -> (r: (&String, &V))
        requires
            i < self.len_spec(),
        ensures
            r.0@ == self.name_at(i as int),
            *r.1 == self.value_at(i as int),
            self.entries()[i as int] == (self.name_at(i as int), self.value_at(i as int)),
    {
        let e = &self.entries[i];
        (&e.0, &e.1)
    }

    /// Every position holds the value the map gives for its name.
    pub proof fn lemma_at(self, i: int)
        requires
            self.wf(),
            0 <= i < self.len_spec(),
        ensures
            self.map().dom().contains(self.name_at(i)),
            self.map()[self.name_at(i)] == self.value_at(i)@,
            self.names()[i] == self.name_at(i),
            self.entries()[i] == (self.name_at(i), self.value_at(i)),
            self.entries().len() == self.len_spec(),
            self.names().len() == self.len_spec(),
    {
        lemma_pairs_map_value(self.pairs(), i);
    }

    /// Every name of the map is held at some position.
    pub proof fn lemma_position_of(self, k: Seq<char>) -> (i: int)
        requires
            self.wf(),
            self.map().dom().contains(k),
        ensures
            0 <= i < self.len_spec(),
            self.name_at(i) == k,
    {
        lemma_pairs_map_dom(self.pairs(), k);
        let i = choose|i: int| 0 <= i < self.pairs().len() && #[trigger] self.pairs()[i].0 == k;
        i
    }

    /// Adds an entry under a name the table does not hold yet.
    pub fn push_new(&mut self, name: String, v: V)
        requires
            old(self).wf(),
            !old(self).map().dom().contains(name@),
        ensures
            final(self).wf(),
            final(self).map() == old(self).map().insert(name@, v@),
            final(self).len_spec() == old(self).len_spec() + 1,
            final(self).name_at(old(self).len_spec() as int) == name@,
            final(self).value_at(old(self).len_spec() as int) == v,
            forall|j: int| 0 <= j < old(self).len_spec() ==> final(self).name_at(j) == old(self).name_at(j)
                && final(self).value_at(j) == old(self).value_at(j),
    {
        let ghost old_pairs = self.pairs();
        let ghost k = name@;
        proof {
            lemma_pairs_map_dom(old_pairs, k);
        }
        self.entries.push((name, v));
        assert(self.pairs() =~= old_pairs.push((k, v@)));
        assert(self.pairs().drop_last() =~= old_pairs);
        assert forall|i: int, j: int| 0 <= i < self.pairs().len() && 0 <= j < self.pairs().len() && i != j implies
            #[trigger] self.pairs()[i].0 != #[trigger] self.pairs()[j].0 by {
            if i < old_pairs.len() && j < old_pairs.len() {
                assert(self.pairs()[i] == old_pairs[i] && self.pairs()[j] == old_pairs[j]);
            } else if i < old_pairs.len() {
                assert(self.pairs()[i] == old_pairs[i]);
            } else if j < old_pairs.len() {
                assert(self.pairs()[j] == old_pairs[j]);
            }
        }
    }

    /// Replaces the value at position `i`, keeping its name.
    pub fn replace_at(&mut self, i: usize, v: V) -> (prev: V)
        requires
            old(self).wf(),
            i < old(self).len_spec(),
        ensures
            final(self).wf(),
            final(self).map() == old(self).map().insert(old(self).name_at(i as int), v@),
            prev == old(self).value_at(i as int),
            final(self).len_spec() == old(self).len_spec(),
            final(self).name_at(i as int) == old(self).name_at(i as int),
            final(self).value_at(i as int) == v,
            forall|j: int| 0 <= j < old(self).len_spec() && j != i ==> final(self).name_at(j) == old(self).name_at(j)
                && final(self).value_at(j) == old(self).value_at(j),
    {
        let ghost old_pairs = self.pairs();
        let ghost k = old_pairs[i as int].0;
        let (name, prev) = self.entries.remove(i);
        self.entries.insert(i, (name, v));
        let ghost new_pairs = self.pairs();
        assert(new_pairs =~= old_pairs.update(i as int, (k, v@)));
        assert forall|a: int, b: int| 0 <= a < new_pairs.len() && 0 <= b < new_pairs.len() && a != b implies
            #[trigger] new_pairs[a].0 != #[trigger] new_pairs[b].0 by {
            assert(new_pairs[a].0 == old_pairs[a].0 && new_pairs[b].0 == old_pairs[b].0);
        }
        assert(pairs_map(new_pairs) =~= pairs_map(old_pairs).insert(k, v@)) by {
            assert forall|key: Seq<char>| #[trigger] pairs_map(new_pairs).dom().contains(key)
                == pairs_map(old_pairs).insert(k, v@).dom().contains(key) by {
                lemma_pairs_map_dom(new_pairs, key);
                lemma_pairs_map_dom(old_pairs, key);
                if exists|j: int| 0 <= j < new_pairs.len() && #[trigger] new_pairs[j].0 == key {
                    let j = choose|j: int| 0 <= j < new_pairs.len() && #[trigger] new_pairs[j].0 == key;
                    assert(old_pairs[j].0 == key);
                }
                if exists|j: int| 0 <= j < old_pairs.len() && #[trigger] old_pairs[j].0 == key {
                    let j = choose|j: int| 0 <= j < old_pairs.len() && #[trigger] old_pairs[j].0 == key;
                    assert(new_pairs[j].0 == key);
                }
                lemma_pairs_map_value(old_pairs, i as int);
            }
            assert forall|key: Seq<char>| #[trigger] pairs_map(new_pairs).dom().contains(key) implies
                pairs_map(new_pairs)[key] == pairs_map(old_pairs).insert(k, v@)[key] by {
                lemma_pairs_map_dom(new_pairs, key);
                let j = choose|j: int| 0 <= j < new_pairs.len() && #[trigger] new_pairs[j].0 == key;
                lemma_pairs_map_value(new_pairs, j);
                lemma_pairs_map_value(old_pairs, j);
            }
        }
        prev
    }
}

} // verus!
