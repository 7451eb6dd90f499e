//! Which options are selected: a map from option identifiers to a flag.
use crate::text::{owned, same_text};
use vstd::prelude::*;

verus! {

/// Some entry of `s` has the key `k`.
pub open spec fn has_key(s: Seq<(String, bool)>, k: Seq<char>) -> bool {
    exists|i: int| 0 <= i < s.len() && (#[trigger] s[i]).0@ == k
}

/// No two entries of `s` have the same key.
pub open spec fn keys_unique(s: Seq<(String, bool)>) -> bool {
    forall|i: int, j: int|
        0 <= i < s.len() && 0 <= j < s.len() && i != j ==> (#[trigger] s[i]).0@ != (#[trigger] s[j]).0@
}

/// The map that the entries define.
pub open spec fn entries_map(s: Seq<(String, bool)>) -> Map<Seq<char>, bool> {
    Map::new(
        |k: Seq<char>| has_key(s, k),
        |k: Seq<char>| s[choose|i: int| 0 <= i < s.len() && (#[trigger] s[i]).0@ == k].1,
    )
}

/// The value that a selection gives an identifier: its flag, or `false` when it
/// has none.
pub open spec fn selected(m: Map<Seq<char>, bool>, id: Seq<char>) -> bool {
    if m.dom().contains(id) {
        m[id]
    } else {
        false
    }
}

/// With unique keys, the entry at `i` gives the value of its key.
proof fn lemma_value_at(s: Seq<(String, bool)>, i: int)
    requires
        keys_unique(s),
        0 <= i < s.len(),
    ensures
        entries_map(s).dom().contains(s[i].0@),
        entries_map(s)[s[i].0@] == s[i].1,
{
    let k = s[i].0@;
    assert(has_key(s, k));
    let j = choose|j: int| 0 <= j < s.len() && (#[trigger] s[j]).0@ == k;
    assert(j == i);
}

/// A map from option identifiers to a selected flag.
pub struct Selection {
    entries: Vec<(String, bool)>,
}

impl View for Selection {
    type V = Map<Seq<char>, bool>;

    closed spec fn view(&self) -> Map<Seq<char>, bool> {
        entries_map(self.entries@)
    }
}

impl Selection {
    /// The selection is well formed: each identifier has one entry.
    pub closed spec fn wf(&self) -> bool {
        keys_unique(self.entries@)
    }

    /// The empty selection.
    pub fn new() -> (r: Self)
        ensures
            r.wf(),
            r@ == Map::<Seq<char>, bool>::empty(),
    {
        let r = Selection { entries: Vec::new() };
        assert(r@ =~= Map::<Seq<char>, bool>::empty());
        r
    }

    /// The index of the entry of `id`, if there is one.
    fn position(&self, id: &str) -> (r: Option<usize>)
        ensures
            match r {
                Some(i) => i < self.entries@.len() && self.entries@[i as int].0@ == id@,
                None => !has_key(self.entries@, id@),
            },
    {
        let mut i: usize = 0;
        while i < self.entries.len()
            invariant
                i <= self.entries@.len(),
                forall|j: int| 0 <= j < i ==> (#[trigger] self.entries@[j]).0@ != id@,
            decreases self.entries.len() - i,
        {
            if same_text(self.entries[i].0.as_str(), id) {
                return Some(i);
            }
            i = i + 1;
        }
        None
    }

    /// The flag of `id`, if it has one.
    pub fn get(&self, id: &str) -> (r: Option<bool>)
        requires
            self.wf(),
        ensures
            r == (if self@.dom().contains(id@) {
                Some(self@[id@])
            } else {
                None
            }),
    {
        match self.position(id) {
            Some(i) => {
                proof {
                    lemma_value_at(self.entries@, i as int);
                }
                Some(self.entries[i].1)
            },
            None => None,
        }
    }

    /// Sets the flag of `id` to `value`.
    pub fn insert(&mut self, id: &str, value: bool)
        requires
            old(self).wf(),
        ensures
            final(self).wf(),
            final(self)@ == old(self)@.insert(id@, value),
    {
        let ghost s = self.entries@;
        match self.position(id) {
            Some(i) => {
                self.entries.set(i, (owned(id), value));
                let ghost t = self.entries@;
                assert(forall|j: int| 0 <= j < t.len() ==> (#[trigger] t[j]).0@ == s[j].0@);
                assert(keys_unique(t));
                assert forall|k: Seq<char>| has_key(t, k) == has_key(s, k) by {
                    if has_key(s, k) {
                        let j = choose|j: int| 0 <= j < s.len() && (#[trigger] s[j]).0@ == k;
                        assert(t[j].0@ == k);
                    }
                    if has_key(t, k) {
                        let j = choose|j: int| 0 <= j < t.len() && (#[trigger] t[j]).0@ == k;
                        assert(s[j].0@ == k);
                    }
                }
                assert forall|k: Seq<char>| #[trigger] entries_map(t).dom().contains(k) implies entries_map(
                    t,
                )[k] == entries_map(s).insert(id@, value)[k] by {
                    let j = choose|j: int| 0 <= j < t.len() && (#[trigger] t[j]).0@ == k;
                    lemma_value_at(t, j);
                    if j != i {
                        lemma_value_at(s, j);
                    }
                }
                assert(entries_map(t) =~= entries_map(s).insert(id@, value));
            },
            None => {
                self.entries.push((owned(id), value));
                let ghost t = self.entries@;
                assert(forall|j: int| 0 <= j < s.len() ==> (#[trigger] t[j]) == s[j]);
                assert(keys_unique(t));
                assert forall|k: Seq<char>| has_key(t, k) == (has_key(s, k) || k == id@) by {
                    if has_key(s, k) {
                        let j = choose|j: int| 0 <= j < s.len() && (#[trigger] s[j]).0@ == k;
                        assert(t[j].0@ == k);
                    }
                    if has_key(t, k) {
                        let j = choose|j: int| 0 <= j < t.len() && (#[trigger] t[j]).0@ == k;
                        if j < s.len() {
                            assert(s[j].0@ == k);
                        }
                    }
                    if k == id@ {
                        assert(t[s.len() as int].0@ == k);
                    }
                }
                assert forall|k: Seq<char>| #[trigger] entries_map(t).dom().contains(k) implies entries_map(
                    t,
                )[k] == entries_map(s).insert(id@, value)[k] by {
                    let j = choose|j: int| 0 <= j < t.len() && (#[trigger] t[j]).0@ == k;
                    lemma_value_at(t, j);
                    if j < s.len() {
                        lemma_value_at(s, j);
                    }
                }
                assert(entries_map(t) =~= entries_map(s).insert(id@, value));
            },
        }
    }
}

/// After setting the flag of `id` to `value`, reading `id` gives `value`,
/// and every other identifier keeps its flag.
pub proof fn lemma_read_after_set(before: Map<Seq<char>, bool>, id: Seq<char>, value: bool, other: Seq<char>)
    requires
        other != id,
    ensures
        selected(before.insert(id, value), id) == value,
        selected(before.insert(id, value), other) == selected(before, other),
{
}

} // verus!
