//! An ordered set of integer keys. Keys may be inserted in any order;
//! the set keeps them sorted, without duplicates, so enumerating them
//! by index walks them in ascending order.

use vstd::prelude::*;

verus! {

/// A set of keys held in strictly ascending order.
pub struct OrderedSet {
    keys: Vec<i64>,
}

impl View for OrderedSet {
    type V = Seq<i64>;

    closed spec fn view(&self) -> Seq<i64> {
        self.keys@
    }
}

impl OrderedSet {
    /// The keys stand in strictly ascending order, so no key repeats.
    pub open spec fn well_formed(&self) -> bool {
        forall|i: int, j: int| 0 <= i < j < self@.len() ==> self@[i] < self@[j]
    }

    /// Makes an empty set.
    pub fn new() -> (r: OrderedSet)
        ensures
            r@ == Seq::<i64>::empty(),
            r.well_formed(),
    {
        OrderedSet { keys: Vec::new() }
    }

    /// The number of keys held.
    pub fn len(&self) -> (r: usize)
        ensures
            r == self@.len(),
    {
        self.keys.len()
    }

    /// The key at the given position, counting from the smallest.
    pub fn get(&self, i: usize) -> (r: i64)
        requires
            i < self@.len(),
        ensures
            r == self@[i as int],
    {
        self.keys[i]
    }

    /// Returns whether the key is held.
    pub fn contains(&self, key: i64) -> (r: bool)
        requires
            self.well_formed(),
        ensures
            r == self@.contains(key),
    {
        let mut i: usize = 0;
        while i < self.keys.len()
            invariant
                i <= self@.len(),
                forall|j: int| 0 <= j < i ==> self@[j] != key,
            decreases self@.len() - i,
        {
            if self.keys[i] == key {
                return true;
            }
            i = i + 1;
        }
        false
    }

    /// Puts the key into the set. Returns whether it was new; a key
    /// already held leaves the set unchanged.
    pub fn insert(&mut self, key: i64) -> (r: bool)
        requires
            old(self).well_formed(),
        ensures
            final (self).well_formed(),
            r == !old(self)@.contains(key),
            final (self)@.contains(key),
            forall|k: i64|
                final (self)@.contains(k) <==> old(self)@.contains(k) || k == key,
            !r ==> final (self)@ == old(self)@,
            r ==> final (self)@.len() == old(self)@.len() + 1,
    {
        let mut pos: usize = 0;
        while pos < self.keys.len() && self.keys[pos] < key
            invariant
                pos <= self@.len(),
                forall|j: int| 0 <= j < pos ==> self@[j] < key,
            decreases self@.len() - pos,
        {
            pos = pos + 1;
        }
        if pos < self.keys.len() && self.keys[pos] == key {
            proof {
                assert(self@.contains(key));
            }
            return false;
        }
        proof {
            assert forall|j: int| 0 <= j < self@.len() implies self@[j] != key by {
                if j >= pos {
                    assert(self@[pos as int] <= self@[j]);
                }
            }
            assert(!self@.contains(key));
        }
        let ghost before = self@;
        self.keys.insert(pos, key);
        proof {
            assert forall|k: i64| self@.contains(k) implies before.contains(k) || k
                == key by {
                let w = choose|w: int| 0 <= w < self@.len() && self@[w] == k;
                if w < pos {
                    assert(before[w] == k);
                } else if w > pos {
                    assert(before[w - 1] == k);
                }
            }
            assert forall|k: i64| before.contains(k) implies self@.contains(k) by {
                let w = choose|w: int| 0 <= w < before.len() && before[w] == k;
                if w < pos {
                    assert(self@[w] == k);
                } else {
                    assert(self@[w + 1] == k);
                }
            }
            assert(self@[pos as int] == key);
        }
        true
    }

    /// Hands the keys out as a vector in the order the set holds them.
    pub fn to_vec(&self) -> (r: Vec<i64>)
        ensures
            r@ == self@,
    {
        let mut out: Vec<i64> = Vec::new();
        let mut i: usize = 0;
        while i < self.keys.len()
            invariant
                i <= self@.len(),
                out@ == self@.subrange(0, i as int),
            decreases self@.len() - i,
        {
            out.push(self.keys[i]);
            proof {
                assert(out@ =~= self@.subrange(0, i + 1));
            }
            i = i + 1;
        }
        proof {
            assert(out@ =~= self@);
        }
        out
    }
}

/// Whatever order keys were inserted in, a well-formed set enumerates
/// them in ascending order and never repeats one.
pub proof fn lemma_enumerates_ascending(s: &OrderedSet)
    requires
        s.well_formed(),
    ensures
        forall|i: int, j: int| 0 <= i < j < s@.len() ==> s@[i] < s@[j],
        forall|i: int, j: int| 0 <= i < s@.len() && 0 <= j < s@.len() && i != j ==> s@[i]
            != s@[j],
{
}

} // verus!
