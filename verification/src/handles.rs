//! Tables that hand out integer handles for objects owned by the bridge.
//!
//! A handle is a nonzero integer; zero is the null handle that failed
//! constructors return. Handles count up from 1 and a destroyed handle is
//! never handed out again, so a stale handle is always reported as invalid.

use vstd::prelude::*;
use crate::error::{ErrorInfo, Failure, set_error, stored_message, message_of};

verus! {

/// Live objects of one kind, each under the handle it was registered with.
pub struct HandleTable<T> {
    slots: Vec<Option<T>>,
}

impl<T> View for HandleTable<T> {
    type V = Map<usize, T>;

    closed spec fn view(&self) -> Map<usize, T> {
        Map::new(
            |h: usize| 0 < h <= self.slots@.len() && self.slots@[h - 1] is Some,
            |h: usize| self.slots@[h - 1].unwrap(),
        )
    }
}

impl<T> HandleTable<T> {
    /// How many handles the table has handed out so far. Every live handle
    /// lies in `1..=issued()`.
    pub closed spec fn issued(&self) -> nat {
        self.slots@.len()
    }

    /// The table holds its live handles among those it has issued.
    pub proof fn lemma_live_handles_issued(&self, h: usize)
        requires
            self@.dom().contains(h),
        ensures
            0 < h <= self.issued(),
    {
    }

    /// The next handle the table hands out differs from every handle it
    /// handed out before, live or destroyed.
    pub proof fn lemma_next_handle_is_fresh(&self, h: usize)
        requires
            0 < h <= self.issued(),
            self.issued() < usize::MAX,
        ensures
            h != self.issued() + 1,
            !self@.dom().contains((self.issued() + 1) as usize),
    {
    }

    /// An empty table.
    pub fn new() -> (r: HandleTable<T>)
        ensures
            r@ == Map::<usize, T>::empty(),
            r.issued() == 0,
    {
        let r = HandleTable { slots: Vec::new() };
        assert(r@ =~= Map::<usize, T>::empty());
        r
    }

    /// Whether another handle can be issued.
    pub fn has_room(&self) -> (r: bool)
        ensures
            r == (self.issued() < usize::MAX),
    {
        self.slots.len() < usize::MAX
    }

    /// Registers `value` under a handle never issued before.
    pub fn insert(&mut self, value: T) -> (h: usize)
        requires
            old(self).issued() < usize::MAX,
        ensures
            h == old(self).issued() + 1,
            final(self).issued() == h,
            !old(self)@.dom().contains(h),
            final(self)@ == old(self)@.insert(h, value),
    {
        self.slots.push(Some(value));
        let h = self.slots.len();
        assert(final(self)@ =~= old(self)@.insert(h, value));
        h
    }

    /// The object under `h`, if `h` is live.
    pub fn get(&self, h: usize) -> (r: Option<&T>)
        ensures
            match r {
                Some(v) => self@.dom().contains(h) && *v == self@[h],
                None => !self@.dom().contains(h),
            },
    {
        if h == 0 || h > self.slots.len() {
            None
        } else {
            match &self.slots[h - 1] {
                Some(v) => Some(v),
                None => None,
            }
        }
    }

    /// The object under `h`, if `h` is live, for the caller to change in place.
    pub fn get_mut(&mut self, h: usize) -> (r: Option<&mut T>)
        ensures
            final(self).issued() == old(self).issued(),
            match r {
                Some(v) => {
                    &&& old(self)@.dom().contains(h)
                    &&& *v == old(self)@[h]
                    &&& final(self)@ == old(self)@.insert(h, *final(v))
                },
                None => !old(self)@.dom().contains(h) && final(self)@ == old(self)@,
            },
    {
        if h == 0 || h > self.slots.len() {
            assert(final(self)@ =~= old(self)@);
            None
        } else {
            let slot = &mut self.slots[h - 1];
            slot.as_mut()
        }
    }

    /// Takes the object under `h` out of the table; `h` is dead from then on.
    pub fn remove(&mut self, h: usize) -> (r: Option<T>)
        ensures
            final(self).issued() == old(self).issued(),
            final(self)@ == old(self)@.remove(h),
            match r {
                Some(v) => old(self)@.dom().contains(h) && v == old(self)@[h],
                None => !old(self)@.dom().contains(h),
            },
    {
        if h == 0 || h > self.slots.len() {
            assert(final(self)@ =~= old(self)@.remove(h));
            None
        } else {
            let r = self.slots[h - 1].take();
            assert(final(self)@ =~= old(self)@.remove(h));
            r
        }
    }

    /// Registers the object a constructor produced and hands out its handle;
    /// when the constructor failed, records why and hands out the null handle.
    pub fn register(&mut self, errors: &mut ErrorInfo, outcome: Result<T, Failure>) -> (h: usize)
        requires
            old(self).issued() < usize::MAX,
        ensures
            match outcome {
                Ok(v) => {
                    &&& h == old(self).issued() + 1
                    &&& final(self).issued() == h
                    &&& !old(self)@.dom().contains(h)
                    &&& final(self)@ == old(self)@.insert(h, v)
                    &&& final(errors)@ == old(errors)@
                },
                Err(f) => {
                    &&& h == 0
                    &&& final(self)@ == old(self)@
                    &&& final(self).issued() == old(self).issued()
                    &&& final(errors)@ == Some(stored_message(message_of(f)))
                },
            },
    {
        match outcome {
            Ok(v) => self.insert(v),
            Err(f) => {
                set_error(errors, f);
                0
            },
        }
    }

    /// The object under `h`; when `h` is not live, records `missing` instead.
    pub fn lookup(&self, errors: &mut ErrorInfo, h: usize, missing: Failure) -> (r: Option<&T>)
        ensures
            match r {
                Some(v) => {
                    &&& self@.dom().contains(h)
                    &&& *v == self@[h]
                    &&& final(errors)@ == old(errors)@
                },
                None => {
                    &&& !self@.dom().contains(h)
                    &&& final(errors)@ == Some(stored_message(message_of(missing)))
                },
            },
    {
        let r = self.get(h);
        if r.is_none() {
            set_error(errors, missing);
        }
        r
    }

    /// The object under `h`, to change in place; when `h` is not live,
    /// records `missing` instead.
    pub fn lookup_mut(&mut self, errors: &mut ErrorInfo, h: usize, missing: Failure) -> (r: Option<&mut T>)
        ensures
            final(self).issued() == old(self).issued(),
            match r {
                Some(v) => {
                    &&& old(self)@.dom().contains(h)
                    &&& *v == old(self)@[h]
                    &&& final(self)@ == old(self)@.insert(h, *final(v))
                    &&& final(errors)@ == old(errors)@
                },
                None => {
                    &&& !old(self)@.dom().contains(h)
                    &&& final(self)@ == old(self)@
                    &&& final(errors)@ == Some(stored_message(message_of(missing)))
                },
            },
    {
        let r = self.get_mut(h);
        match r {
            Some(v) => Some(v),
            None => {
                set_error(errors, missing);
                None
            },
        }
    }
}

} // verus!
