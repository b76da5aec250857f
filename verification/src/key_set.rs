use vstd::prelude::*;

use crate::key::{Key, KEY_COUNT};

verus! {

broadcast use vstd::array::group_array_axioms;

/// A set of recognized keys, one flag per key.
pub struct KeySet {
    held: [bool; 13],
}

impl View for KeySet {
    type V = Set<Key>;

    /// The keys whose flag is raised.
    closed spec fn view(&self) -> Set<Key> {
        Set::new(|k: Key| self.held@[k.index()])
    }
}

impl KeySet {
    /// The empty set.
    pub fn new() -> (s: KeySet)
        ensures
            s@ == Set::<Key>::empty(),
    {
        let s = KeySet { held: [false; 13] };
        assert(s@ =~= Set::<Key>::empty());
        s
    }

    /// Whether `k` is in the set.
    pub fn contains(&self, k: &Key) -> (r: bool)
        ensures
            r == self@.contains(*k),
    {
        self.held[k.ordinal()]
    }

    /// Adds `k` to the set.
    pub fn insert(&mut self, k: Key)
        ensures
            final(self)@ == old(self)@.insert(k),
    {
        let i: usize = k.ordinal();
        self.held[i] = true;
        proof {
            assert forall|j: Key| #![auto] self.held@[j.index()] == old(self)@.insert(k).contains(j) by {
                lemma_index_injective(j, k);
            }
        }
        assert(final(self)@ =~= old(self)@.insert(k));
    }

    /// Takes `k` out of the set.
    pub fn remove(&mut self, k: &Key)
        ensures
            final(self)@ == old(self)@.remove(*k),
    {
        let i: usize = k.ordinal();
        self.held[i] = false;
        proof {
            assert forall|j: Key| #![auto] self.held@[j.index()] == old(self)@.remove(*k).contains(j) by {
                lemma_index_injective(j, *k);
            }
        }
        assert(final(self)@ =~= old(self)@.remove(*k));
    }

    /// Removes every key.
    pub fn clear(&mut self)
        ensures
            final(self)@ == Set::<Key>::empty(),
    {
        self.held = [false; 13];
        assert(final(self)@ =~= Set::<Key>::empty());
    }

    /// Keeps only the keys that are not in `other`.
    pub fn remove_all(&mut self, other: &KeySet)
        ensures
            final(self)@ == old(self)@.difference(other@),
    {
        let mut held = self.held;
        let mut i: usize = 0;
        while i < KEY_COUNT
            invariant
                0 <= i <= KEY_COUNT,
                held@.len() == KEY_COUNT,
                forall|j: int| 0 <= j < i ==> held@[j] == (old(self).held@[j] && !other.held@[j]),
                forall|j: int| i <= j < KEY_COUNT ==> held@[j] == old(self).held@[j],
            decreases KEY_COUNT - i,
        {
            let drop = other.held[i];
            if drop {
                held[i] = false;
            }
            i = i + 1;
        }
        self.held = held;
        proof {
            assert forall|k: Key| #![auto] self@.contains(k) == old(self)@.difference(other@).contains(k) by {
                lemma_index_in_range(k);
            }
        }
        assert(final(self)@ =~= old(self)@.difference(other@));
    }

    /// The keys of the set, each once, in declaration order.
    pub fn keys(&self) -> (v: Vec<Key>)
        ensures
            forall|k: Key| #[trigger] v@.contains(k) <==> self@.contains(k),
            forall|a: int, b: int| 0 <= a < b < v.len() ==> v@[a].index() < v@[b].index(),
    {
        let mut v: Vec<Key> = Vec::new();
        let mut i: usize = 0;
        while i < KEY_COUNT
            invariant
                0 <= i <= KEY_COUNT,
                forall|k: Key| #[trigger] v@.contains(k) <==> (k.index() < i && self@.contains(k)),
                forall|a: int| 0 <= a < v.len() ==> v@[a].index() < i,
                forall|a: int, b: int| 0 <= a < b < v.len() ==> v@[a].index() < v@[b].index(),
            decreases KEY_COUNT - i,
        {
            let ghost before = v@;
            let k = Key::from_ordinal(i);
            let held = self.held[i];
            if held {
                v.push(k);
            }
            proof {
                assert forall|k2: Key| #[trigger] v@.contains(k2) <==> (k2.index() < i + 1 && self@.contains(k2)) by {
                    lemma_index_injective(k2, k);
                    if held {
                        if before.contains(k2) {
                            let a = choose|a: int| 0 <= a < before.len() && before[a] == k2;
                            assert(v@[a] == k2);
                        }
                        if k2 == k {
                            assert(v@[before.len() as int] == k2);
                        }
                        if v@.contains(k2) {
                            let a = choose|a: int| 0 <= a < v@.len() && v@[a] == k2;
                            if a < before.len() {
                                assert(before[a] == k2);
                            }
                        }
                    } else {
                        assert(v@ == before);
                    }
                }
            }
            i = i + 1;
        }
        proof {
            assert forall|k: Key| #[trigger] v@.contains(k) <==> self@.contains(k) by {
                lemma_index_in_range(k);
            }
        }
        v
    }
}

/// Distinct keys sit at distinct positions.
proof fn lemma_index_injective(a: Key, b: Key)
    ensures
        a.index() == b.index() <==> a == b,
{
}

/// Positions lie below the number of keys.
proof fn lemma_index_in_range(k: Key)
    ensures
        0 <= k.index() < KEY_COUNT,
{
}

} // verus!
