use vstd::prelude::*;
use vstd::set_lib::{lemma_int_range, lemma_set_subset_finite, set_int_range};

verus! {

/// What `m` holds at `a`, if anything.
pub open spec fn lookup<V>(m: Map<usize, V>, a: usize) -> Option<V> {
    if m.contains_key(a) {
        Some(m[a])
    } else {
        None
    }
}

/// A table of values addressed by handles.
///
/// Handle `0` is the null handle and never names a value. Every insertion
/// hands out a new handle, one above the last one issued; a handle that has
/// been removed is never issued again.
pub struct HandleTable<V> {
    slots: Vec<Option<V>>,
}

impl<V> HandleTable<V> {
    /// The live handles and the values behind them.
    pub closed spec fn view(&self) -> Map<usize, V> {
        Map::new(
            |a: usize| 0 < a <= self.slots@.len() && self.slots@[a - 1] is Some,
            |a: usize| self.slots@[a - 1]->Some_0,
        )
    }

    /// How many handles have been issued so far; they are `1..=issued()`.
    pub closed spec fn issued(&self) -> nat {
        self.slots@.len()
    }

    /// `a` was issued once and its value has since been taken out.
    pub open spec fn retired(&self, a: usize) -> bool {
        0 < a <= self.issued() && !self@.contains_key(a)
    }

    /// Every live handle is non-null and was issued, so there are finitely
    /// many.
    pub proof fn lemma_live_handles_issued(&self)
        ensures
            forall|a: usize| #[trigger] self@.contains_key(a) ==> 0 < a <= self.issued(),
            self@.dom().finite(),
    {
        let hi: int = self.issued() as int + 1;
        let issued = set_int_range(1, hi).map(|i: int| i as usize);
        lemma_int_range(1, hi);
        set_int_range(1, hi).lemma_map_finite(|i: int| i as usize);
        assert forall|a: usize| #[trigger] self@.dom().contains(a) implies issued.contains(a) by {
            assert(set_int_range(1, hi).contains(a as int));
        }
        lemma_set_subset_finite(issued, self@.dom());
    }

    pub fn new() -> (r: Self)
        ensures
            r@ == Map::<usize, V>::empty(),
            r.issued() == 0,
    {
        let r = HandleTable { slots: Vec::new() };
        assert(r@ =~= Map::<usize, V>::empty());
        r
    }

    /// How many handles have been issued so far.
    pub fn issued_count(&self) -> (r: usize)
        ensures
            r == self.issued(),
    {
        self.slots.len()
    }

    /// Whether another handle can still be issued.
    pub fn has_room(&self) -> (r: bool)
        ensures
            r == (self.issued() < usize::MAX),
    {
        self.slots.len() < usize::MAX
    }

    /// Stores `v` under a fresh handle and returns the handle.
    pub fn insert(&mut self, v: V) -> (a: usize)
        requires
            old(self).issued() < usize::MAX,
        ensures
            a == old(self).issued() + 1,
            final(self).issued() == a,
            final(self)@ == old(self)@.insert(a, v),
    {
        self.slots.push(Some(v));
        let a: usize = self.slots.len();
        assert(self@ =~= old(self)@.insert(a, v));
        a
    }

    /// Takes the value at `a` out of the table; `None` when `a` is not live.
    pub fn remove(&mut self, a: usize) -> (r: Option<V>)
        ensures
            r == lookup(old(self)@, a),
            final(self)@ == old(self)@.remove(a),
            final(self).issued() == old(self).issued(),
    {
        if a == 0 || a > self.slots.len() {
            assert(self@ =~= old(self)@.remove(a));
            return None;
        }
        let slot = vstd::std_specs::vec::vec_index_mut(&mut self.slots, a - 1);
        let r = slot.take();
        assert(self@ =~= old(self)@.remove(a));
        r
    }

    /// The value at `a`, if `a` is live.
    pub fn get(&self, a: usize) -> (r: Option<&V>)
        ensures
            match r {
                Some(v) => self@.contains_key(a) && *v == self@[a],
                None => !self@.contains_key(a),
            },
    {
        if a == 0 || a > self.slots.len() {
            return None;
        }
        self.slots[a - 1].as_ref()
    }

    /// The value at `a` for mutation, if `a` is live.
    pub fn get_mut(&mut self, a: usize) -> (r: Option<&mut V>)
        ensures
            match r {
                None => !old(self)@.contains_key(a) && *final(self) == *old(self),
                Some(m) => old(self)@.contains_key(a) && *m == old(self)@[a] && final(self)@
                    == old(self)@.insert(a, *final(m)) && final(self).issued() == old(
                    self,
                ).issued(),
            },
    {
        if a == 0 || a > self.slots.len() || self.slots[a - 1].is_none() {
            return None;
        }
        let slot = vstd::std_specs::vec::vec_index_mut(&mut self.slots, a - 1);
        slot.as_mut()
    }
}

} // verus!
