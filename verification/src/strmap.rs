//! A map keyed by text, kept as an insertion-ordered list of entries.
//!
//! `insert` replaces the entry of an existing key in place or appends a new
//! one, so the list never holds a key twice and the keys keep the order in
//! which they first arrived.
use crate::text::text_eq;
use vstd::prelude::*;

verus! {

/// The keys of a list of entries, in order.
pub open spec fn entry_keys<V>(s: Seq<(String, V)>) -> Seq<Seq<char>> {
    s.map_values(|e: (String, V)| e.0@)
}

/// `i` is the first position of key `k` in `keys`.
pub open spec fn is_first(keys: Seq<Seq<char>>, k: Seq<char>, i: int) -> bool {
    &&& 0 <= i < keys.len()
    &&& keys[i] == k
    &&& forall|j: int| 0 <= j < i ==> keys[j] != k
}

/// The first position of key `k` among the entries.
pub open spec fn first_index<V>(s: Seq<(String, V)>, k: Seq<char>) -> int {
    choose|i: int| is_first(entry_keys(s), k, i)
}

/// What a list of entries maps each key to: the value of its first entry.
pub open spec fn entries_view<V: View>(s: Seq<(String, V)>) -> Map<Seq<char>, V::V> {
    Map::new(
        |k: Seq<char>| entry_keys(s).contains(k),
        |k: Seq<char>| s[first_index(s, k)].1@,
    )
}

proof fn lemma_first_unique(keys: Seq<Seq<char>>, k: Seq<char>, i: int, j: int)
    requires
        is_first(keys, k, i),
        is_first(keys, k, j),
    ensures
        i == j,
{
    if i < j {
        assert(keys[i] != k);
    } else if j < i {
        assert(keys[j] != k);
    }
}

proof fn lemma_first_index_is<V>(s: Seq<(String, V)>, k: Seq<char>, i: int)
    requires
        is_first(entry_keys(s), k, i),
    ensures
        first_index(s, k) == i,
{
    let c = first_index(s, k);
    assert(is_first(entry_keys(s), k, c));
    lemma_first_unique(entry_keys(s), k, i, c);
}

proof fn lemma_first_exists<V>(s: Seq<(String, V)>, k: Seq<char>)
    requires
        entry_keys(s).contains(k),
    ensures
        is_first(entry_keys(s), k, first_index(s, k)),
{
    let keys = entry_keys(s);
    keys.index_of_first_ensures(k);
    let i = keys.index_of_first(k).unwrap();
    assert(is_first(keys, k, i));
}

/// Appending an entry with a new key adds that key.
proof fn lemma_view_push<V: View>(s: Seq<(String, V)>, e: (String, V))
    requires
        !entry_keys(s).contains(e.0@),
    ensures
        entries_view(s.push(e)) =~= entries_view(s).insert(e.0@, e.1@),
{
    let t = s.push(e);
    assert(entry_keys(t) =~= entry_keys(s).push(e.0@));
    assert forall|k: Seq<char>| #[trigger] entries_view(t).contains_key(k) implies entries_view(
        t,
    )[k] == entries_view(s).insert(e.0@, e.1@)[k] by {
        if k == e.0@ {
            assert(forall|j: int| 0 <= j < s.len() ==> entry_keys(s)[j] != k);
            assert(is_first(entry_keys(t), k, s.len() as int));
            lemma_first_index_is(t, k, s.len() as int);
        } else {
            assert(entry_keys(s).contains(k)) by {
                let i = choose|i: int| 0 <= i < entry_keys(t).len() && entry_keys(t)[i] == k;
                assert(entry_keys(s)[i] == k);
            }
            lemma_first_exists(s, k);
            let i = first_index(s, k);
            assert(is_first(entry_keys(t), k, i));
            lemma_first_index_is(t, k, i);
        }
    }
    assert forall|k: Seq<char>| #[trigger]
        entries_view(s).insert(e.0@, e.1@).contains_key(k) implies entries_view(t).contains_key(
        k,
    ) by {
        if k == e.0@ {
            assert(entry_keys(t)[s.len() as int] == k);
        } else {
            let i = choose|i: int| 0 <= i < entry_keys(s).len() && entry_keys(s)[i] == k;
            assert(entry_keys(t)[i] == k);
        }
    }
}

/// Replacing the value of the first entry of a key changes only that key.
proof fn lemma_view_update<V: View>(s: Seq<(String, V)>, i: int, e: (String, V))
    requires
        is_first(entry_keys(s), e.0@, i),
    ensures
        entries_view(s.update(i, e)) =~= entries_view(s).insert(e.0@, e.1@),
{
    let t = s.update(i, e);
    assert(entry_keys(t) =~= entry_keys(s));
    assert forall|k: Seq<char>| #[trigger] entries_view(t).contains_key(k) implies entries_view(
        t,
    )[k] == entries_view(s).insert(e.0@, e.1@)[k] by {
        if k == e.0@ {
            lemma_first_index_is(t, k, i);
        } else {
            lemma_first_exists(s, k);
            let j = first_index(s, k);
            assert(is_first(entry_keys(t), k, j));
            lemma_first_index_is(t, k, j);
            assert(j != i);
        }
    }
}

/// Putting an entry in front makes it the first one for its key.
proof fn lemma_view_prepend<V: View>(s: Seq<(String, V)>, e: (String, V))
    ensures
        entries_view(seq![e] + s) =~= entries_view(s).insert(e.0@, e.1@),
{
    let t = seq![e] + s;
    assert(entry_keys(t) =~= seq![e.0@] + entry_keys(s));
    assert forall|k: Seq<char>| #[trigger] entries_view(t).contains_key(k) implies entries_view(
        t,
    )[k] == entries_view(s).insert(e.0@, e.1@)[k] by {
        if k == e.0@ {
            assert(is_first(entry_keys(t), k, 0));
            lemma_first_index_is(t, k, 0);
        } else {
            assert(entry_keys(s).contains(k)) by {
                let i = choose|i: int| 0 <= i < entry_keys(t).len() && entry_keys(t)[i] == k;
                assert(entry_keys(s)[i - 1] == k);
            }
            lemma_first_exists(s, k);
            let j = first_index(s, k);
            assert(is_first(entry_keys(t), k, j + 1)) by {
                assert forall|m: int| 0 <= m < j + 1 implies entry_keys(t)[m] != k by {
                    if m > 0 {
                        assert(entry_keys(t)[m] == entry_keys(s)[m - 1]);
                    }
                }
            }
            lemma_first_index_is(t, k, j + 1);
        }
    }
    assert forall|k: Seq<char>| #[trigger]
        entries_view(s).insert(e.0@, e.1@).contains_key(k) implies entries_view(t).contains_key(
        k,
    ) by {
        if k == e.0@ {
            assert(entry_keys(t)[0] == k);
        } else {
            let i = choose|i: int| 0 <= i < entry_keys(s).len() && entry_keys(s)[i] == k;
            assert(entry_keys(t)[i + 1] == k);
        }
    }
}

/// A map from text keys to values.
pub struct StrMap<V> {
    entries: Vec<(String, V)>,
}

impl<V: View> View for StrMap<V> {
    type V = Map<Seq<char>, V::V>;

    closed spec fn view(&self) -> Map<Seq<char>, V::V> {
        entries_view(self.entries@)
    }
}

impl<V> StrMap<V> {
    #[verifier::type_invariant]
    closed spec fn keys_distinct(self) -> bool {
        entry_keys(self.entries@).no_duplicates()
    }
}

impl<V: View> StrMap<V> {
    /// The keys in the order in which they were first inserted.
    pub closed spec fn key_seq(&self) -> Seq<Seq<char>> {
        entry_keys(self.entries@)
    }

    /// Every key of the map appears in `key_seq`, and nothing else does.
    pub proof fn lemma_key_seq(&self)
        ensures
            forall|k: Seq<char>| self@.contains_key(k) <==> #[trigger] self.key_seq().contains(k),
    {
    }

    /// The empty map.
    pub fn new() -> (m: Self)
        ensures
            m@ == Map::<Seq<char>, V::V>::empty(),
            m.key_seq() == Seq::<Seq<char>>::empty(),
    {
        let m = StrMap { entries: Vec::new() };
        assert(m@ =~= Map::<Seq<char>, V::V>::empty());
        assert(m.key_seq() =~= Seq::<Seq<char>>::empty());
        m
    }

    /// The number of keys. No key appears twice in `key_seq`, so this is
    /// also the size of the map's domain.
    pub fn len(&self) -> (n: usize)
        ensures
            n == self.key_seq().len(),
            n == self@.dom().len(),
            self.key_seq().no_duplicates(),
    {
        proof {
            use_type_invariant(self);
            self.key_seq().unique_seq_to_set();
            assert(self@.dom() =~= self.key_seq().to_set());
        }
        self.entries.len()
    }

    fn position(&self, key: &str) -> (r: Option<usize>)
        ensures
            match r {
                Some(i) => is_first(self.key_seq(), key@, i as int),
                None => !self.key_seq().contains(key@),
            },
    {
        let n = self.entries.len();
        let mut i: usize = 0;
        while i < n
            invariant
                n == self.entries@.len(),
                i <= n,
                forall|j: int| 0 <= j < i ==> self.key_seq()[j] != key@,
            decreases n - i,
        {
            if text_eq(self.entries[i].0.as_str(), key) {
                return Some(i);
            }
            i = i + 1;
        }
        None
    }

    /// Whether `key` is in the map.
    pub fn contains_key(&self, key: &str) -> (r: bool)
        ensures
            r == self@.contains_key(key@),
    {
        self.position(key).is_some()
    }

    /// The value that `key` maps to.
    pub fn get(&self, key: &str) -> (r: Option<&V>)
        ensures
            r is Some == self@.contains_key(key@),
            r is Some ==> r.unwrap()@ == self@[key@],
    {
        match self.position(key) {
            Some(i) => {
                proof {
                    lemma_first_index_is(self.entries@, key@, i as int);
                }
                Some(&self.entries[i].1)
            },
            None => None,
        }
    }

    /// Maps `key` to `value`, replacing what it mapped to before.
    pub fn insert(&mut self, key: String, value: V)
        ensures
            final(self)@ == old(self)@.insert(key@, value@),
            old(self).key_seq().contains(key@) ==> final(self).key_seq() == old(self).key_seq(),
            !old(self).key_seq().contains(key@) ==> final(self).key_seq() == old(
                self,
            ).key_seq().push(key@),
    {
        proof {
            use_type_invariant(&*self);
        }
        let found = self.position(key.as_str());
        let mut entries: Vec<(String, V)> = Vec::new();
        std::mem::swap(&mut entries, &mut self.entries);
        match found {
            Some(i) => {
                let ghost e = (key, value);
                proof {
                    lemma_view_update(entries@, i as int, e);
                }
                entries.set(i, (key, value));
                assert(entry_keys(entries@) =~= entry_keys(old(self).entries@));
            },
            None => {
                let ghost e = (key, value);
                proof {
                    lemma_view_push(entries@, e);
                }
                entries.push((key, value));
                assert(entry_keys(entries@) =~= entry_keys(old(self).entries@).push(key@));
            },
        }
        self.entries = entries;
    }
    /// The keys, in the order of `key_seq`.
    pub fn keys(&self) -> (r: Vec<String>)
        ensures
            r@.map_values(|s: String| s@) == self.key_seq(),
    {
        let mut r: Vec<String> = Vec::new();
        let n = self.entries.len();
        for i in 0..n
            invariant
                n == self.entries@.len(),
                r@.len() == i,
                forall|j: int| 0 <= j < i ==> #[trigger] r@[j]@ == self.key_seq()[j],
        {
            r.push(self.entries[i].0.clone());
        }
        assert(r@.map_values(|s: String| s@) =~= self.key_seq());
        r
    }

}

impl StrMap<String> {
    /// A copy of the map.
    pub fn duplicate(&self) -> (r: Self)
        ensures
            r@ == self@,
            r.key_seq() == self.key_seq(),
    {
        proof {
            use_type_invariant(self);
        }
        let mut entries: Vec<(String, String)> = Vec::new();
        let n = self.entries.len();
        for i in 0..n
            invariant
                n == self.entries@.len(),
                entries@.len() == i,
                forall|j: int| 0 <= j < i ==> #[trigger] entries@[j] == self.entries@[j],
        {
            let e = (self.entries[i].0.clone(), self.entries[i].1.clone());
            entries.push(e);
        }
        assert(entries@ =~= self.entries@);
        StrMap { entries }
    }

    /// Writes every entry of `other` into this map; where both hold a key,
    /// the value from `other` wins.
    pub fn extend_from(&mut self, other: &StrMap<String>)
        ensures
            final(self)@ == old(self)@.union_prefer_right(other@),
    {
        let n = other.entries.len();
        let mut j: usize = n;
        assert(other.entries@.subrange(n as int, n as int) =~= Seq::<(String, String)>::empty());
        assert(entries_view(Seq::<(String, String)>::empty()) =~= Map::<
            Seq<char>,
            Seq<char>,
        >::empty());
        assert(old(self)@.union_prefer_right(Map::<Seq<char>, Seq<char>>::empty()) =~= old(
            self,
        )@);
        while j > 0
            invariant
                n == other.entries@.len(),
                j <= n,
                self@ == old(self)@.union_prefer_right(
                    entries_view(other.entries@.subrange(j as int, n as int)),
                ),
            decreases j,
        {
            j = j - 1;
            let key = other.entries[j].0.clone();
            let value = other.entries[j].1.clone();
            proof {
                let tail = other.entries@.subrange(j + 1, n as int);
                let e = other.entries@[j as int];
                assert(other.entries@.subrange(j as int, n as int) =~= seq![e] + tail);
                lemma_view_prepend(tail, e);
                assert(old(self)@.union_prefer_right(entries_view(tail)).insert(e.0@, e.1@)
                    =~= old(self)@.union_prefer_right(entries_view(tail).insert(e.0@, e.1@)));
            }
            self.insert(key, value);
        }
        assert(other.entries@.subrange(0, n as int) =~= other.entries@);
    }
}

} // verus!
