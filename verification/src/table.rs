//! A verified resource-handle table. Handles are indices that are issued
//! once and never reused: releasing a handle empties its slot forever, so a
//! released handle can never again name a live resource.

use vstd::prelude::*;
use crate::general::GpioError;

verus! {

pub struct HandleTable<T> {
    pub slots: Vec<Option<T>>,
}

impl<T> HandleTable<T> {
    /// A handle is valid iff it was issued and has not been released.
    pub open spec fn spec_valid(self, h: u32) -> bool {
        h < self.slots@.len() && self.slots@[h as int] is Some
    }

    pub open spec fn spec_get(self, h: u32) -> T
        recommends
            self.spec_valid(h),
    {
        self.slots@[h as int]->0
    }

    /// What any lookup of `h` reports: the entry, or ResourceInvalidated.
    pub open spec fn spec_lookup(self, h: u32) -> Result<T, GpioError> {
        if self.spec_valid(h) {
            Ok(self.spec_get(h))
        } else {
            Err(GpioError::ResourceInvalidated)
        }
    }

    /// Exactly what one `push` does: a fresh handle equal to the old length,
    /// the item stored under it, and every other handle untouched.
    pub open spec fn push_post(pre: Self, item: T, post: Self, h: u32) -> bool {
        &&& h == pre.slots@.len()
        &&& post.slots@ =~= pre.slots@.push(Some(item))
        &&& post.spec_valid(h)
        &&& post.spec_get(h) == item
        &&& forall|h2: u32| h2 != h ==> #[trigger] post.spec_valid(h2) == pre.spec_valid(h2)
        &&& forall|h2: u32|
            h2 != h && pre.spec_valid(h2) ==> #[trigger] post.spec_get(h2) == pre.spec_get(h2)
    }

    pub fn new() -> (r: Self)
        ensures
            r.slots@ =~= Seq::<Option<T>>::empty(),
            forall|h: u32| !r.spec_valid(h),
    {
        HandleTable { slots: Vec::new() }
    }

    pub fn len(&self) -> (n: usize)
        ensures
            n == self.slots@.len(),
    {
        self.slots.len()
    }

    /// Stores an item and issues the handle for it.
    pub fn push(&mut self, item: T) -> (h: u32)
        requires
            old(self).slots@.len() < u32::MAX,
        ensures
            Self::push_post(*old(self), item, *final(self), h),
    {
        let h = self.slots.len() as u32;
        self.slots.push(Some(item));
        h
    }

    /// Looks a handle up without touching the table.
    pub fn get(&self, h: u32) -> (r: Result<&T, GpioError>)
        ensures
            match r {
                Ok(t) => self.spec_valid(h) && *t == self.spec_get(h),
                Err(e) => !self.spec_valid(h) && e == GpioError::ResourceInvalidated,
            },
    {
        if (h as usize) < self.slots.len() {
            match &self.slots[h as usize] {
                Some(t) => Ok(t),
                None => Err(GpioError::ResourceInvalidated),
            }
        } else {
            Err(GpioError::ResourceInvalidated)
        }
    }

    pub fn is_ready(&self, h: u32) -> (r: bool)
        ensures
            r == self.spec_valid(h),
    {
        if (h as usize) < self.slots.len() {
            match &self.slots[h as usize] {
                Some(_) => true,
                None => false,
            }
        } else {
            false
        }
    }

    /// Moves the entry for `h` out, leaving the slot empty; the caller puts
    /// it back with `restore` once done with it.
    pub fn take(&mut self, h: u32) -> (r: Result<T, GpioError>)
        ensures
            match r {
                Ok(t) => {
                    &&& old(self).spec_valid(h)
                    &&& t == old(self).spec_get(h)
                    &&& final(self).slots@ =~= old(self).slots@.update(h as int, None)
                },
                Err(e) => {
                    &&& !old(self).spec_valid(h)
                    &&& e == GpioError::ResourceInvalidated
                    &&& *final(self) == *old(self)
                },
            },
    {
        if (h as usize) < self.slots.len() && self.slots[h as usize].is_some() {
            let ghost pre = self.slots@;
            let entry = self.slots.remove(h as usize);
            self.slots.insert(h as usize, None);
            proof {
                pre.remove_ensures(h as int);
                assert(self.slots@ =~= pre.update(h as int, None));
            }
            match entry {
                Some(t) => Ok(t),
                None => Err(GpioError::ResourceInvalidated),
            }
        } else {
            Err(GpioError::ResourceInvalidated)
        }
    }

    /// Puts an entry back into the emptied slot it was taken from.
    pub fn restore(&mut self, h: u32, item: T)
        requires
            h < old(self).slots@.len(),
            old(self).slots@[h as int] is None,
        ensures
            final(self).slots@ =~= old(self).slots@.update(h as int, Some(item)),
    {
        self.slots.set(h as usize, Some(item));
    }

    /// Releases a handle: its slot is emptied forever. Reports
    /// ResourceInvalidated iff the handle was not valid; either way the
    /// handle is invalid afterwards.
    pub fn delete(&mut self, h: u32) -> (r: Result<(), GpioError>)
        ensures
            !final(self).spec_valid(h),
            r is Ok <==> old(self).spec_valid(h),
            r is Ok ==> final(self).slots@ =~= old(self).slots@.update(h as int, None),
            r matches Err(e) ==> e == GpioError::ResourceInvalidated && *final(self) == *old(self),
            forall|h2: u32| h2 != h ==> #[trigger] final(self).spec_valid(h2) == old(
                self,
            ).spec_valid(h2),
            forall|h2: u32|
                h2 != h && old(self).spec_valid(h2) ==> #[trigger] final(self).spec_get(h2) == old(
                    self,
                ).spec_get(h2),
    {
        match self.take(h) {
            Ok(_) => Ok(()),
            Err(e) => Err(e),
        }
    }
}

/// Law: a released handle never becomes valid again. Issuing a new resource
/// hands out a fresh handle, distinct from every handle already issued, and
/// a lookup of the released handle still reports ResourceInvalidated.
pub proof fn lemma_released_handle_stays_invalid<T>(
    pre: HandleTable<T>,
    h: u32,
    item: T,
    post: HandleTable<T>,
    fresh: u32,
)
    requires
        h < pre.slots@.len(),
        !pre.spec_valid(h),
        HandleTable::push_post(pre, item, post, fresh),
    ensures
        fresh != h,
        !post.spec_valid(h),
        post.spec_lookup(h) == Err::<T, GpioError>(GpioError::ResourceInvalidated),
{
}

} // verus!
