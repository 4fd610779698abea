//! The handles that stand for adapters on the host's side.
//!
//! The host never holds an adapter, only a handle of it. Each call of the
//! host looks the handle up, so a handle that was freed, or never given
//! out, is found out and not followed.
use vstd::prelude::*;

verus! {

/// A handle: a place in a table, and the count of the values that the
/// place has held by the time the handle was given out.
#[derive(Debug, Copy, Clone, PartialEq, Eq, Hash, Structural)]
pub struct Handle {
    pub index: usize,
    pub generation: u64,
}

/// One place in a table.
pub struct Slot<T> {
    generation: u64,
    value: Option<T>,
}

/// A table of values under handles. No handle is given out twice.
pub struct Table<T> {
    slots: Vec<Slot<T>>,
    /// Places that were freed. A place is looked at before it is used
    /// again, so nothing rests on this list.
    free: Vec<usize>,
}

impl<T> Table<T> {
    /// Does the handle stand for a value?
    pub closed spec fn holds(&self, h: Handle) -> bool {
        &&& h.index < self.slots@.len()
        &&& self.slots@[h.index as int].generation == h.generation
        &&& self.slots@[h.index as int].value is Some
    }

    /// The value that the handle stands for.
    pub closed spec fn value(&self, h: Handle) -> T {
        self.slots@[h.index as int].value->0
    }

    /// Is the handle dead: does it stand for nothing, now and from now on?
    /// A handle that was freed is dead.
    pub closed spec fn dead(&self, h: Handle) -> bool {
        &&& h.index < self.slots@.len()
        &&& (h.generation < self.slots@[h.index as int].generation || (h.generation == u64::MAX
            && self.slots@[h.index as int].generation == u64::MAX
            && self.slots@[h.index as int].value is None))
    }

    /// Does this table hold what `before` held, but perhaps for the handle
    /// `h`? What was dead stays dead.
    pub open spec fn same_but(&self, before: &Table<T>, h: Handle) -> bool {
        &&& forall|o: Handle|
            o != h ==> (#[trigger] self.holds(o) == before.holds(o) && (before.holds(o)
                ==> self.value(o) == before.value(o)))
        &&& forall|o: Handle| before.dead(o) ==> #[trigger] self.dead(o)
    }

    /// Does this table hold what `before` held?
    pub open spec fn same(&self, before: &Table<T>) -> bool {
        &&& forall|o: Handle|
            (#[trigger] self.holds(o) == before.holds(o) && (before.holds(o) ==> self.value(o)
                == before.value(o)))
        &&& forall|o: Handle| before.dead(o) ==> #[trigger] self.dead(o)
    }

    /// A dead handle stands for nothing.
    pub proof fn lemma_dead_holds_nothing(&self, h: Handle)
        requires
            self.dead(h),
        ensures
            !self.holds(h),
    {
    }

    /// An empty table.
    pub fn new() -> (t: Table<T>)
        ensures
            forall|h: Handle| !t.holds(h) && !t.dead(h),
            t.places() == 0,
            !t.has_free(),
    {
        Table { slots: Vec::new(), free: Vec::new() }
    }

    /// The number of places in the table, with or without a value.
    pub closed spec fn places(&self) -> nat {
        self.slots@.len()
    }

    /// Can the place take a value: is it empty, and has it counts left?
    pub closed spec fn usable(&self, i: usize) -> bool {
        &&& i < self.slots@.len()
        &&& self.slots@[i as int].value is None
        &&& self.slots@[i as int].generation < u64::MAX
    }

    /// Is a place that can take a value on the list of the places that
    /// were freed?
    pub closed spec fn has_free(&self) -> bool {
        exists|k: int| 0 <= k < self.free@.len() && self.usable(#[trigger] self.free@[k])
    }

    /// Is `i` the place that is used next: of the places on the list that
    /// can take a value, the one that was freed last?
    pub closed spec fn is_next_free(&self, i: usize) -> bool {
        exists|k: int|
            0 <= k < self.free@.len() && #[trigger] self.free@[k] == i && self.usable(i)
                && forall|j: int|
                k < j < self.free@.len() ==> !self.usable(#[trigger] self.free@[j])
    }

    /// The place that is used next, where `has_free` holds.
    pub closed spec fn next_free(&self) -> usize {
        choose|i: usize| self.is_next_free(i)
    }

    /// There is one place that is used next.
    proof fn lemma_next_free(&self, i: usize)
        requires
            self.is_next_free(i),
        ensures
            self.has_free(),
            self.next_free() == i,
    {
        let other = self.next_free();
        assert(self.is_next_free(other));
        let k = choose|k: int|
            0 <= k < self.free@.len() && #[trigger] self.free@[k] == i && self.usable(i)
                && forall|j: int|
                k < j < self.free@.len() ==> !self.usable(#[trigger] self.free@[j]);
        let m = choose|m: int|
            0 <= m < self.free@.len() && #[trigger] self.free@[m] == other && self.usable(other)
                && forall|j: int|
                m < j < self.free@.len() ==> !self.usable(#[trigger] self.free@[j]);
        assert(self.usable(self.free@[k]));
        assert(self.usable(self.free@[m]));
        assert(k == m);
    }

    /// Takes places off the list of the places that were freed, the last
    /// first, up to one that can take a value. The answer is that place,
    /// or `None` where the list runs out.
    fn free_slot(&mut self) -> (r: Option<usize>)
        ensures
            final(self).slots == old(self).slots,
            r is Some <==> old(self).has_free(),
            r matches Some(i) ==> {
                &&& old(self).is_next_free(i)
                &&& old(self).usable(i)
                &&& final(self).free@.len() < old(self).free@.len()
                &&& final(self).free@ == old(self).free@.subrange(
                    0,
                    final(self).free@.len() as int,
                )
            },
            r is None ==> final(self).free@.len() == 0,
    {
        while self.free.len() > 0
            invariant
                self.slots == old(self).slots,
                self.free@.len() <= old(self).free@.len(),
                self.free@ == old(self).free@.subrange(0, self.free@.len() as int),
                forall|j: int|
                    self.free@.len() <= j < old(self).free@.len() ==> !old(self).usable(
                        #[trigger] old(self).free@[j],
                    ),
            decreases self.free@.len(),
        {
            let ghost k = self.free@.len() - 1;
            let i: usize = self.free.pop().unwrap();
            assert(old(self).free@[k] == i);
            assert(self.free@ =~= old(self).free@.subrange(0, k));
            if i < self.slots.len() && self.slots[i].value.is_none() && self.slots[i].generation
                < u64::MAX {
                return Some(i);
            }
        }
        None
    }

    /// Puts a value into the table, under a handle that is new: it stood
    /// for nothing and was never freed.
    ///
    /// A place that was freed is used again, where one is on the list;
    /// only where there is none does the table grow.
    pub fn insert(&mut self, value: T) -> (h: Handle)
        ensures
            !old(self).holds(h),
            !old(self).dead(h),
            final(self).holds(h),
            final(self).value(h) == value,
            final(self).same_but(old(self), h),
            old(self).has_free() ==> h.index == old(self).next_free() && h.index < old(self).places()
                && final(self).places() == old(self).places(),
            !old(self).has_free() ==> h.index == old(self).places() && h.generation == 0
                && final(self).places() == old(self).places() + 1 && !final(self).has_free(),
    {
        match self.free_slot() {
            Some(i) => {
                proof {
                    old(self).lemma_next_free(i);
                }
                let generation: u64 = self.slots[i].generation;
                self.slots.set(i, Slot { generation, value: Some(value) });
                Handle { index: i, generation }
            },
            None => {
                let index: usize = self.slots.len();
                self.slots.push(Slot { generation: 0, value: Some(value) });
                Handle { index, generation: 0 }
            },
        }
    }

    /// Does the handle stand for a value?
    pub fn contains(&self, h: Handle) -> (r: bool)
        ensures
            r == self.holds(h),
    {
        h.index < self.slots.len() && self.slots[h.index].generation == h.generation
            && self.slots[h.index].value.is_some()
    }

    /// The value that the handle stands for, if it stands for one.
    pub fn get(&self, h: Handle) -> (r: Option<&T>)
        ensures
            r is Some <==> self.holds(h),
            r matches Some(v) ==> *v == self.value(h),
    {
        if h.index < self.slots.len() && self.slots[h.index].generation == h.generation {
            self.slots[h.index].value.as_ref()
        } else {
            None
        }
    }

    /// The value that the handle stands for, to be changed in its place.
    pub fn get_mut(&mut self, h: Handle) -> (r: Option<&mut T>)
        ensures
            r is Some <==> old(self).holds(h),
            r is None ==> *final(self) == *old(self),
            r matches Some(v) ==> {
                &&& *v == old(self).value(h)
                &&& final(self).holds(h)
                &&& final(self).value(h) == *final(v)
                &&& final(self).same_but(old(self), h)
            },
    {
        if self.contains(h) {
            let slot: &mut Slot<T> = &mut self.slots[h.index];
            slot.value.as_mut()
        } else {
            None
        }
    }

    /// Frees a handle: takes its value out of the table. The handle is
    /// dead from then on.
    pub fn remove(&mut self, h: Handle) -> (r: Option<T>)
        ensures
            old(self).holds(h) ==> r == Some(old(self).value(h)) && final(self).dead(h),
            !old(self).holds(h) ==> r is None && *final(self) == *old(self),
            !final(self).holds(h),
            final(self).same_but(old(self), h),
            final(self).places() == old(self).places(),
            old(self).holds(h) && h.generation + 1 < u64::MAX ==> final(self).has_free()
                && final(self).next_free() == h.index,
    {
        if !self.contains(h) {
            return None;
        }
        let generation: u64 = self.slots[h.index].generation;
        let next: u64 = if generation < u64::MAX {
            generation + 1
        } else {
            generation
        };
        let mut slot: Slot<T> = Slot { generation: next, value: None };
        core::mem::swap(&mut self.slots[h.index], &mut slot);
        if next < u64::MAX {
            self.free.push(h.index);
            proof {
                assert(self.free@[self.free@.len() - 1] == h.index);
                assert(self.usable(h.index));
                assert(self.is_next_free(h.index));
                self.lemma_next_free(h.index);
            }
        }
        slot.value
    }
}

/// A handle is freed once: the second time there is nothing to take out,
/// and the handle is not given out again.
pub proof fn lemma_freed_once<T>(before: &Table<T>, after: &Table<T>, h: Handle)
    requires
        before.dead(h),
        after.same(before) || exists|o: Handle| after.same_but(before, o),
    ensures
        !after.holds(h),
        after.dead(h),
{
    if after.same(before) {
        assert(after.dead(h));
    } else {
        let o = choose|o: Handle| after.same_but(before, o);
        assert(after.dead(h));
    }
    after.lemma_dead_holds_nothing(h);
}

} // verus!
