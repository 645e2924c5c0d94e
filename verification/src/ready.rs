//! The set of tasks to poll next.

use vstd::prelude::*;

verus! {

/// Task ids waiting to be polled. Marking a task twice is the same as
/// marking it once.
pub struct ReadySet {
    ids: Vec<usize>,
}

impl View for ReadySet {
    type V = Set<usize>;

    closed spec fn view(&self) -> Set<usize> {
        Set::new(|id: usize| self.ids@.contains(id))
    }
}

impl ReadySet {
    #[verifier::type_invariant]
    spec fn no_id_twice(&self) -> bool {
        self.ids@.no_duplicates()
    }

    pub fn new() -> (s: Self)
        ensures
            s@ == Set::<usize>::empty(),
    {
        let s = ReadySet { ids: Vec::new() };
        assert(s@ =~= Set::<usize>::empty());
        s
    }

    pub fn contains(&self, id: usize) -> (found: bool)
        ensures
            found == self@.contains(id),
    {
        let mut i: usize = 0;
        while i < self.ids.len()
            invariant
                i <= self.ids@.len(),
                forall|j: int| 0 <= j < i ==> self.ids@[j] != id,
            decreases self.ids@.len() - i,
        {
            if self.ids[i] == id {
                return true;
            }
            i += 1;
        }
        false
    }

    /// Marks `id` ready.
    pub fn insert(&mut self, id: usize)
        ensures
            final(self)@ == old(self)@.insert(id),
    {
        if self.contains(id) {
            assert(self@ =~= old(self)@.insert(id));
        } else {
            proof {
                use_type_invariant(&*self);
            }
            let mut ids: Vec<usize> = Vec::new();
            std::mem::swap(&mut self.ids, &mut ids);
            ids.push(id);
            assert(ids@.drop_last() == old(self).ids@);
            assert forall|x: usize| ids@.contains(x) <==> (old(self).ids@.contains(x) || x
                == id) by {
                if old(self).ids@.contains(x) {
                    let k = choose|k: int| 0 <= k < old(self).ids@.len() && old(self).ids@[k] == x;
                    assert(ids@[k] == x);
                }
                if x == id {
                    assert(ids@[ids@.len() - 1] == x);
                }
            }
            std::mem::swap(&mut self.ids, &mut ids);
            assert(self@ =~= old(self)@.insert(id));
        }
    }

    pub fn is_empty(&self) -> (empty: bool)
        ensures
            empty == (self@ == Set::<usize>::empty()),
    {
        let empty = self.ids.len() == 0;
        proof {
            if empty {
                assert(self@ =~= Set::<usize>::empty());
            } else {
                assert(self.ids@.contains(self.ids@[0]));
                assert(self@.contains(self.ids@[0]));
            }
        }
        empty
    }

    /// Empties the set and hands its members out, each of them once.
    pub fn drain(&mut self) -> (members: Vec<usize>)
        ensures
            final(self)@ == Set::<usize>::empty(),
            members@.no_duplicates(),
            forall|id: usize| members@.contains(id) <==> old(self)@.contains(id),
    {
        proof {
            use_type_invariant(&*self);
        }
        let mut members: Vec<usize> = Vec::new();
        std::mem::swap(&mut self.ids, &mut members);
        assert(self@ =~= Set::<usize>::empty());
        members
    }
}

} // verus!
