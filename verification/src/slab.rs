//! A container that hands out stable ids.

use vstd::prelude::*;

verus! {

/// Values stored under ids that are issued in ascending order and never
/// issued twice: a removed id stays absent for good.
pub struct Slab<T> {
    cells: Vec<Option<T>>,
}

impl<T> View for Slab<T> {
    type V = Map<usize, T>;

    /// The occupied ids with their values.
    closed spec fn view(&self) -> Map<usize, T> {
        Map::new(
            |id: usize| id < self.cells@.len() && self.cells@[id as int].is_some(),
            |id: usize| self.cells@[id as int].unwrap(),
        )
    }
}

impl<T> Slab<T> {
    /// How many ids were issued so far; the next one issued is this number.
    pub closed spec fn issued(&self) -> nat {
        self.cells@.len()
    }

    /// Every occupied id was issued.
    pub proof fn lemma_live_ids_were_issued(&self, id: usize)
        requires
            self@.contains_key(id),
        ensures
            id < self.issued(),
    {
    }

    pub fn new() -> (s: Self)
        ensures
            s@ == Map::<usize, T>::empty(),
            s.issued() == 0,
    {
        let s = Slab { cells: Vec::new() };
        assert(s@ =~= Map::<usize, T>::empty());
        s
    }

    /// Stores `value` under a fresh id.
    pub fn insert(&mut self, value: T) -> (id: usize)
        ensures
            id == old(self).issued(),
            !old(self)@.contains_key(id),
            final(self)@ == old(self)@.insert(id, value),
            final(self).issued() == old(self).issued() + 1,
    {
        let id: usize = self.cells.len();
        self.cells.push(Some(value));
        assert(self@ =~= old(self)@.insert(id, value));
        id
    }

    /// Takes the value under `id` out; an absent id changes nothing.
    pub fn remove(&mut self, id: usize) -> (value: Option<T>)
        ensures
            value == if old(self)@.contains_key(id) { Some(old(self)@[id]) } else { None },
            final(self)@ == old(self)@.remove(id),
            final(self).issued() == old(self).issued(),
    {
        if id >= self.cells.len() {
            assert(self@ =~= old(self)@.remove(id));
            return None;
        }
        self.cells.push(None);
        let value = self.cells.swap_remove(id);
        assert(self.cells@ =~= old(self).cells@.update(id as int, None));
        assert(self@ =~= old(self)@.remove(id));
        value
    }

    /// Puts `value` in the place of what `id` holds and returns the old
    /// value; on an absent id nothing changes and `value` is dropped.
    pub fn replace(&mut self, id: usize, value: T) -> (previous: Option<T>)
        ensures
            previous == if old(self)@.contains_key(id) { Some(old(self)@[id]) } else { None },
            final(self)@ == if old(self)@.contains_key(id) {
                old(self)@.insert(id, value)
            } else {
                old(self)@
            },
            final(self).issued() == old(self).issued(),
    {
        if id >= self.cells.len() {
            return None;
        }
        if self.cells[id].is_none() {
            return None;
        }
        self.cells.push(Some(value));
        let previous = self.cells.swap_remove(id);
        assert(self.cells@ =~= old(self).cells@.update(id as int, Some(value)));
        assert(self@ =~= old(self)@.insert(id, value));
        previous
    }

    pub fn get(&self, id: usize) -> (value: Option<&T>)
        ensures
            value == if self@.contains_key(id) { Some(&self@[id]) } else { None },
    {
        if id >= self.cells.len() {
            return None;
        }
        self.cells[id].as_ref()
    }

    pub fn contains(&self, id: usize) -> (found: bool)
        ensures
            found == self@.contains_key(id),
    {
        id < self.cells.len() && self.cells[id].is_some()
    }
}

} // verus!
