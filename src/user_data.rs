//! The user-data slots of native objects.
//!
//! Every native object offers one pointer-sized slot that the wrapper may fill
//! with its own bookkeeping, so that a handle can be rebuilt from nothing but
//! the object's address. Here the slots of one kind of object are a table
//! keyed by the object's address.
use vstd::prelude::*;

verus! {

/// The filled user-data slots of one kind of native object.
pub struct UserData<S> {
    slots: Vec<(usize, S)>,
    filled: Ghost<Map<usize, S>>,
}

impl<S: Copy> View for UserData<S> {
    type V = Map<usize, S>;

    closed spec fn view(&self) -> Map<usize, S> {
        self.filled@
    }
}

impl<S: Copy> UserData<S> {
    /// The table agrees with its map, with one entry per address.
    pub closed spec fn wf(&self) -> bool {
        &&& forall|i: int| 0 <= i < self.slots@.len()
            ==> self.filled@.contains_key(#[trigger] self.slots@[i].0) && self.filled@[self.slots@[i].0] == self.slots@[i].1
        &&& forall|k: usize| self.filled@.contains_key(k)
            ==> exists|i: int| 0 <= i < self.slots@.len() && #[trigger] self.slots@[i].0 == k
        &&& forall|i: int, j: int| 0 <= i < self.slots@.len() && 0 <= j < self.slots@.len() && i != j
            ==> #[trigger] self.slots@[i].0 != #[trigger] self.slots@[j].0
    }

    /// No slot filled.
    pub fn new() -> (r: UserData<S>)
        ensures
            r.wf(),
            r@ == Map::<usize, S>::empty(),
    {
        UserData { slots: Vec::new(), filled: Ghost(Map::empty()) }
    }

    fn find(&self, ptr: usize) -> (r: Option<usize>)
        requires
            self.wf(),
        ensures
            r matches Some(i) ==> i < self.slots@.len() && self.slots@[i as int].0 == ptr,
            r is None ==> !self@.contains_key(ptr),
    {
        let mut i: usize = 0;
        while i < self.slots.len()
            invariant
                i <= self.slots@.len(),
                forall|j: int| 0 <= j < i ==> #[trigger] self.slots@[j].0 != ptr,
            decreases self.slots.len() - i,
        {
            if self.slots[i].0 == ptr {
                return Some(i);
            }
            i += 1;
        }
        None
    }

    /// What the slot of the object at `ptr` holds, if it is filled.
    pub fn get(&self, ptr: usize) -> (r: Option<S>)
        requires
            self.wf(),
        ensures
            r == (if self@.contains_key(ptr) { Some(self@[ptr]) } else { None::<S> }),
    {
        match self.find(ptr) {
            Some(i) => Some(self.slots[i].1),
            None => None,
        }
    }

    /// Fills the slot of the object at `ptr` with `value`, replacing what it held.
    pub fn insert(&mut self, ptr: usize, value: S)
        requires
            old(self).wf(),
        ensures
            final(self).wf(),
            final(self)@ == old(self)@.insert(ptr, value),
    {
        match self.find(ptr) {
            Some(i) => {
                self.slots.set(i, (ptr, value));
                self.filled = Ghost(self.filled@.insert(ptr, value));
                proof {
                    assert forall|k: usize| self.filled@.contains_key(k) implies exists|j: int|
                        0 <= j < self.slots@.len() && #[trigger] self.slots@[j].0 == k by {
                        if k != ptr {
                            let j = choose|j: int| 0 <= j < old(self).slots@.len() && #[trigger] old(self).slots@[j].0 == k;
                            assert(self.slots@[j].0 == k);
                        } else {
                            assert(self.slots@[i as int].0 == k);
                        }
                    }
                }
            },
            None => {
                let ghost n = self.slots@.len();
                self.slots.push((ptr, value));
                self.filled = Ghost(self.filled@.insert(ptr, value));
                proof {
                    assert forall|k: usize| self.filled@.contains_key(k) implies exists|j: int|
                        0 <= j < self.slots@.len() && #[trigger] self.slots@[j].0 == k by {
                        if k != ptr {
                            let j = choose|j: int| 0 <= j < old(self).slots@.len() && #[trigger] old(self).slots@[j].0 == k;
                            assert(self.slots@[j].0 == k);
                        } else {
                            assert(self.slots@[n as int].0 == k);
                        }
                    }
                    assert forall|a: int, b: int| 0 <= a < self.slots@.len() && 0 <= b < self.slots@.len() && a != b
                        implies #[trigger] self.slots@[a].0 != #[trigger] self.slots@[b].0 by {
                        if a < n && b < n {
                            assert(old(self).slots@[a].0 != old(self).slots@[b].0);
                        } else if a < n {
                            assert(old(self).filled@.contains_key(old(self).slots@[a].0));
                        } else if b < n {
                            assert(old(self).filled@.contains_key(old(self).slots@[b].0));
                        }
                    }
                }
            },
        }
    }

    /// Empties the slot of the object at `ptr`, handing back what it held.
    pub fn remove(&mut self, ptr: usize) -> (r: Option<S>)
        requires
            old(self).wf(),
        ensures
            final(self).wf(),
            r == (if old(self)@.contains_key(ptr) { Some(old(self)@[ptr]) } else { None::<S> }),
            final(self)@ == old(self)@.remove(ptr),
    {
        match self.find(ptr) {
            Some(i) => {
                let (_, value) = self.slots.remove(i);
                self.filled = Ghost(self.filled@.remove(ptr));
                proof {
                    assert forall|k: usize| self.filled@.contains_key(k) implies exists|j: int|
                        0 <= j < self.slots@.len() && #[trigger] self.slots@[j].0 == k by {
                        let j = choose|j: int| 0 <= j < old(self).slots@.len() && #[trigger] old(self).slots@[j].0 == k;
                        assert(j != i);
                        if j < i {
                            assert(self.slots@[j].0 == k);
                        } else {
                            assert(self.slots@[j - 1].0 == k);
                        }
                    }
                    assert forall|a: int| 0 <= a < self.slots@.len()
                        implies self.filled@.contains_key(#[trigger] self.slots@[a].0) && self.filled@[self.slots@[a].0] == self.slots@[a].1 by {
                        let oa = if a < i { a } else { a + 1 };
                        assert(self.slots@[a] == old(self).slots@[oa]);
                        assert(old(self).slots@[oa].0 != old(self).slots@[i as int].0);
                    }
                    assert forall|a: int, b: int| 0 <= a < self.slots@.len() && 0 <= b < self.slots@.len() && a != b
                        implies #[trigger] self.slots@[a].0 != #[trigger] self.slots@[b].0 by {
                        let oa = if a < i { a } else { a + 1 };
                        let ob = if b < i { b } else { b + 1 };
                        assert(self.slots@[a] == old(self).slots@[oa]);
                        assert(self.slots@[b] == old(self).slots@[ob]);
                    }
                }
                Some(value)
            },
            None => {
                assert(self.filled@.remove(ptr) =~= self.filled@);
                None
            },
        }
    }
}

} // verus!
