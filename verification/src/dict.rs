//! A small string-keyed dictionary with last-write-wins insertion.
//!
//! The grammar builds every shape, argument list and request map by inserting
//! entries in source order, a later entry for the same key silently
//! overwriting the earlier one. `Dict` keeps the entries as a vector of
//! pairs; its view is the finite map obtained by folding those insertions,
//! so the overwrite semantics is part of the abstraction itself.

use vstd::prelude::*;

verus! {

/// The map denoted by a sequence of (key, value) insertions, later entries
/// overwriting earlier ones.
pub open spec fn entries_map<T: DeepView>(s: Seq<(String, T)>) -> Map<Seq<char>, T::V>
    decreases s.len(),
{
    if s.len() == 0 {
        Map::empty()
    } else {
        entries_map(s.drop_last()).insert(s.last().0@, s.last().1.deep_view())
    }
}

/// A string-keyed dictionary, viewed as a `Map<Seq<char>, _>`.
#[derive(Debug)]
pub struct Dict<T> {
    pub entries: Vec<(String, T)>,
}

impl<T: DeepView> View for Dict<T> {
    type V = Map<Seq<char>, T::V>;

    open spec fn view(&self) -> Map<Seq<char>, T::V> {
        entries_map(self.entries@)
    }
}

impl<T: DeepView> DeepView for Dict<T> {
    type V = Map<Seq<char>, T::V>;

    open spec fn deep_view(&self) -> Map<Seq<char>, T::V> {
        self.view()
    }
}

/// Entries whose keys all differ from `k` do not affect the map at `k`.
proof fn lemma_entries_map_skip_absent<T: DeepView>(s: Seq<(String, T)>, i: int, k: Seq<char>)
    requires
        0 <= i <= s.len(),
        forall|j: int| i <= j < s.len() ==> #[trigger] s[j].0@ != k,
    ensures
        entries_map(s).contains_key(k) == entries_map(s.take(i)).contains_key(k),
        entries_map(s).contains_key(k) ==> entries_map(s)[k] == entries_map(s.take(i))[k],
    decreases s.len(),
{
    if i == s.len() {
        assert(s.take(i) =~= s);
    } else {
        let s1 = s.drop_last();
        assert(s[s.len() - 1].0@ != k);
        assert(forall|j: int| i <= j < s1.len() ==> #[trigger] s1[j].0@ != k) by {
            assert(forall|j: int| 0 <= j < s1.len() ==> s1[j] == s[j]);
        }
        lemma_entries_map_skip_absent(s1, i, k);
        assert(s1.take(i) =~= s.take(i));
    }
}

impl<T: DeepView> Dict<T> {
    /// An empty dictionary.
    pub fn new() -> (r: Self)
        ensures
            r@ == Map::<Seq<char>, T::V>::empty(),
            r.entries@.len() == 0,
    {
        Dict { entries: Vec::new() }
    }

    /// Insert `v` under `k`, overwriting any earlier entry for `k`.
    pub fn insert(&mut self, k: String, v: T)
        ensures
            final(self)@ == old(self)@.insert(k@, v.deep_view()),
            final(self).entries@ == old(self).entries@.push((k, v)),
    {
        let ghost oldseq = self.entries@;
        let ghost gk = k;
        let ghost gv = v;
        self.entries.push((k, v));
        proof {
            assert(self.entries@.drop_last() =~= oldseq);
            assert(self.entries@.last() == (gk, gv));
        }
    }

    /// Look the key up: the value of the view's map at `k@`, if any.
    pub fn get(&self, k: &str) -> (r: Option<&T>)
        ensures
            match r {
                Some(v) => self@.contains_key(k@) && v.deep_view() == self@[k@],
                None => !self@.contains_key(k@),
            },
    {
        let n = self.entries.len();
        let mut i: usize = n;
        while i > 0
            invariant
                n == self.entries@.len(),
                i <= n,
                forall|j: int| i <= j < n ==> #[trigger] self.entries@[j].0@ != k@,
            decreases i,
        {
            i = i - 1;
            let pair = &self.entries[i];
            if crate::token::str_eq(pair.0.as_str(), k) {
                proof {
                    lemma_entries_map_skip_absent(self.entries@, i as int + 1, k@);
                    let pre = self.entries@.take(i as int + 1);
                    assert(pre.drop_last() =~= pre.take(i as int));
                    assert(pre.last() == self.entries@[i as int]);
                }
                return Some(&pair.1);
            }
        }
        proof {
            lemma_entries_map_skip_absent(self.entries@, 0, k@);
            assert(self.entries@.take(0) =~= Seq::<(String, T)>::empty());
        }
        None
    }

    /// The number of stored entries, duplicates included.
    pub fn entry_count(&self) -> (n: usize)
        ensures
            n == self.entries@.len(),
    {
        self.entries.len()
    }
}

} // verus!
