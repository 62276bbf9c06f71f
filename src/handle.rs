use crate::error::CuError;
use vstd::prelude::*;

verus! {

/// An opaque reference to an entity: a slot of a [`Registry`] together with
/// the generation that the slot had when the entity was stored.
#[derive(Clone, Copy, Debug, PartialEq, Eq, Structural)]
pub struct Handle {
    pub slot: usize,
    pub generation: u64,
}

struct Slot<T> {
    generation: u64,
    value: Option<T>,
}

/// A generation-tagged slot map. A handle is live while its slot holds a value
/// and carries the handle's generation. Destroying an entity empties the slot
/// and moves its generation on, so a stale handle never becomes live again.
pub struct Registry<T> {
    slots: Vec<Slot<T>>,
}

impl<T> Registry<T> {
    /// The handle refers to an entity that is stored now.
    pub closed spec fn is_live(&self, h: Handle) -> bool {
        &&& h.slot < self.slots@.len()
        &&& self.slots@[h.slot as int].generation == h.generation
        &&& self.slots@[h.slot as int].value is Some
    }

    /// The entity that a live handle refers to.
    pub closed spec fn value_of(&self, h: Handle) -> T {
        self.slots@[h.slot as int].value->Some_0
    }

    /// The handle is stale for good: its slot has moved past its generation,
    /// or the slot was retired at the last generation.
    pub closed spec fn is_dead(&self, h: Handle) -> bool {
        &&& h.slot < self.slots@.len()
        &&& {
            ||| h.generation < self.slots@[h.slot as int].generation
            ||| {
                &&& h.generation == u64::MAX
                &&& self.slots@[h.slot as int].generation == u64::MAX
                &&& self.slots@[h.slot as int].value is None
            }
        }
    }

    /// Every handle other than `h` is live in `self` exactly when it is in
    /// `other`, bound to the same value, and dead in `self` if it was in
    /// `other`.
    pub open spec fn same_except(&self, other: &Self, h: Handle) -> bool {
        forall|g: Handle|
            g != h ==> {
                &&& self.is_live(g) == other.is_live(g)
                &&& (other.is_dead(g) ==> self.is_dead(g))
                &&& (self.is_live(g) ==> self.value_of(g) == other.value_of(g))
            }
    }

    /// A dead handle is never live.
    pub proof fn lemma_dead_not_live(&self, h: Handle)
        requires
            self.is_dead(h),
        ensures
            !self.is_live(h),
    {
    }

    pub fn new() -> (r: Self)
        ensures
            forall|h: Handle| !r.is_live(h) && !r.is_dead(h),
    {
        Registry { slots: Vec::new() }
    }

    fn find_free(&self) -> (r: Option<usize>)
        ensures
            r matches Some(i) ==> {
                &&& i < self.slots@.len()
                &&& self.slots@[i as int].value is None
                &&& self.slots@[i as int].generation < u64::MAX
            },
    {
        let mut i: usize = 0;
        while i < self.slots.len()
            invariant
                i <= self.slots@.len(),
            decreases self.slots@.len() - i,
        {
            if self.slots[i].value.is_none() && self.slots[i].generation < u64::MAX {
                return Some(i);
            }
            i = i + 1;
        }
        None
    }

    /// Stores `v` and returns a fresh live handle to it.
    pub fn insert(&mut self, v: T) -> (h: Handle)
        ensures
            !old(self).is_live(h),
            !old(self).is_dead(h),
            final(self).is_live(h),
            final(self).value_of(h) == v,
            final(self).same_except(old(self), h),
    {
        match self.find_free() {
            Some(i) => {
                let g = self.slots[i].generation;
                self.slots.set(i, Slot { generation: g, value: Some(v) });
                Handle { slot: i, generation: g }
            },
            None => {
                let i = self.slots.len();
                self.slots.push(Slot { generation: 0, value: Some(v) });
                Handle { slot: i, generation: 0 }
            },
        }
    }

    /// Checks the handle, then yields the entity it refers to.
    pub fn get(&self, h: Handle) -> (r: Result<&T, CuError>)
        ensures
            r is Ok <==> self.is_live(h),
            r matches Ok(v) ==> *v == self.value_of(h),
            r matches Err(e) ==> e == CuError::InvalidHandle,
    {
        if h.slot < self.slots.len() && self.slots[h.slot].generation == h.generation {
            match &self.slots[h.slot].value {
                Some(v) => Ok(v),
                None => Err(CuError::InvalidHandle),
            }
        } else {
            Err(CuError::InvalidHandle)
        }
    }

    /// Checks the handle, then puts `v` in place of the entity and hands the
    /// previous one back.
    pub fn replace(&mut self, h: Handle, v: T) -> (r: Result<T, CuError>)
        ensures
            r is Ok <==> old(self).is_live(h),
            r matches Ok(o) ==> {
                &&& o == old(self).value_of(h)
                &&& final(self).is_live(h)
                &&& final(self).value_of(h) == v
                &&& final(self).same_except(old(self), h)
            },
            r matches Err(e) ==> e == CuError::InvalidHandle && *final(self) == *old(self),
    {
        if h.slot < self.slots.len() && self.slots[h.slot].generation == h.generation
            && self.slots[h.slot].value.is_some() {
            let mut slot = Slot { generation: h.generation, value: Some(v) };
            self.slots.set_and_swap(h.slot, &mut slot);
            match slot.value {
                Some(o) => Ok(o),
                None => Err(CuError::InvalidHandle),
            }
        } else {
            Err(CuError::InvalidHandle)
        }
    }

    /// Checks the handle, then removes the entity and makes the handle dead.
    pub fn destroy(&mut self, h: Handle) -> (r: Result<T, CuError>)
        ensures
            r is Ok <==> old(self).is_live(h),
            r matches Ok(o) ==> {
                &&& o == old(self).value_of(h)
                &&& final(self).is_dead(h)
                &&& final(self).same_except(old(self), h)
            },
            r matches Err(e) ==> e == CuError::InvalidHandle && *final(self) == *old(self),
    {
        if h.slot < self.slots.len() && self.slots[h.slot].generation == h.generation
            && self.slots[h.slot].value.is_some() {
            let next = if h.generation < u64::MAX {
                h.generation + 1
            } else {
                h.generation
            };
            let mut slot = Slot { generation: next, value: None };
            self.slots.set_and_swap(h.slot, &mut slot);
            match slot.value {
                Some(o) => Ok(o),
                None => Err(CuError::InvalidHandle),
            }
        } else {
            Err(CuError::InvalidHandle)
        }
    }
}

/// A destroyed handle stays invalid: an operation on a registry touches one
/// handle and keeps every other handle as it was, and a touched handle is
/// never a dead one, so a dead handle stays dead and is never live again.
pub proof fn lemma_destroyed_handle_stays_invalid<T>(
    before: &Registry<T>,
    after: &Registry<T>,
    h: Handle,
    touched: Handle,
)
    requires
        before.is_dead(h),
        after.same_except(before, touched),
        !before.is_dead(touched),
    ensures
        after.is_dead(h),
        !after.is_live(h),
{
    after.lemma_dead_not_live(h);
}

} // verus!
