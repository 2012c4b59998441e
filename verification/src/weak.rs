//! The weak handle: a non-owning observer that can always be checked for
//! liveness instead of risking an access to a freed allocation.
//!
//! A weak handle stores the (address, stamp) pair captured when it was
//! derived, and touches the registry on every access: it is valid only while
//! the registry still records a live allocation at that address under that
//! very stamp. A freed target, or a reallocation that reused the address
//! under a newer stamp, therefore reads as null.

use core::marker::PhantomData;

use vstd::prelude::*;

use crate::erased::Erased;
use crate::registry::{preserves_live_entries, same_entries_except, Registry};
use crate::utils::{spec_is_main, ThreadAffinity};
use vstd::std_specs::cmp::PartialEqSpec;

verus! {

/// Non-owning observer handle; does not affect the target's lifetime.
#[derive(Debug)]
pub struct Weak<T> {
    pub(crate) addr: usize,
    pub(crate) stamp: u64,
    pub(crate) phantom: PhantomData<T>,
}

impl<T> Weak<T> {
    /// The address captured when this handle was derived; 0 for the null
    /// sentinel.
    pub closed spec fn spec_addr(&self) -> usize {
        self.addr
    }

    /// The generation stamp captured when this handle was derived; 0 for
    /// the null sentinel.
    pub closed spec fn spec_stamp(&self) -> u64 {
        self.stamp
    }

    /// Validity in a registry: the handle was derived from something, the
    /// registry still holds a live allocation at its address, and that
    /// allocation is the very one observed (same stamp).
    pub open spec fn is_ok_in(self, m: Registry<T>) -> bool {
        &&& self.spec_addr() != 0
        &&& m.live(self.spec_addr())
        &&& m.stamp_of(self.spec_addr()) == self.spec_stamp()
    }

    /// The null sentinel: never initialized, valid in no registry.
    pub fn const_default() -> (w: Self)
        ensures
            w.spec_addr() == 0,
            w.spec_stamp() == 0,
    {
        Weak { addr: 0, stamp: 0, phantom: PhantomData }
    }

    /// The raw (address, stamp) pair this handle carries.
    pub fn raw(&self) -> (r: (usize, u64))
        ensures
            r.0 == self.spec_addr(),
            r.1 == self.spec_stamp(),
    {
        (self.addr, self.stamp)
    }

    /// The address this handle carries.
    pub fn addr(&self) -> (r: usize)
        ensures
            r == self.spec_addr(),
    {
        self.addr
    }

    /// Rebuild a handle from a raw (address, stamp) pair. Harmless even for
    /// stale pairs: validity is re-checked against the registry on every
    /// access.
    pub fn from_raw(addr: usize, stamp: u64) -> (w: Self)
        ensures
            w.spec_addr() == addr,
            w.spec_stamp() == stamp,
    {
        Weak { addr, stamp, phantom: PhantomData }
    }

    /// Whether this handle was ever derived from an allocation (it may
    /// still be stale).
    pub fn was_initialized(&self) -> (r: bool)
        ensures
            r == (self.spec_addr() != 0),
    {
        self.addr != 0
    }

    /// The validity test performed before every dereference: false for the
    /// null sentinel, for a freed target, and for a reallocated address
    /// whose stamp no longer matches.
    pub fn is_ok(&self, m: &Registry<T>) -> (r: bool)
        ensures
            r == self.is_ok_in(*m),
    {
        if self.addr == 0 {
            return false;
        }
        match m.stamp_for_address(self.addr) {
            Some(stamp) => stamp == self.stamp,
            None => false,
        }
    }

    /// The negation of `is_ok`.
    pub fn is_null(&self, m: &Registry<T>) -> (r: bool)
        ensures
            r == !self.is_ok_in(*m),
    {
        !self.is_ok(m)
    }

    /// The payload, if this handle is still valid.
    pub fn get<'a>(&self, m: &'a Registry<T>) -> (r: Option<&'a T>)
        requires
            m.wf(),
        ensures
            match r {
                Some(v) => self.is_ok_in(*m) && *v == m.value_of(self.spec_addr()),
                None => !self.is_ok_in(*m),
            },
    {
        if self.is_ok(m) {
            Some(m.value_ref(self.addr))
        } else {
            None
        }
    }

    /// Write access to the payload, if this handle is still valid; like all
    /// mutable access, only for the designated thread (elsewhere a wrong
    /// thread aborts here).
    pub fn get_mut<'a>(
        &self,
        m: &'a mut Registry<T>,
        g: &ThreadAffinity,
        thread_id: u64,
    ) -> (r: Option<&'a mut T>)
        requires
            old(m).wf(),
            spec_is_main(*g, thread_id),
        ensures
            r is Some <==> self.is_ok_in(*old(m)),
            r matches Some(v) ==> *v == old(m).value_of(self.spec_addr()) && final(m).wf()
                && self.is_ok_in(*final(m)) && final(m).value_of(self.spec_addr()) == *final(v)
                && final(m).known_count() == old(m).known_count() && same_entries_except(
                *old(m),
                *final(m),
                self.spec_addr(),
            ) && final(m).diag_enabled() == old(m).diag_enabled() && final(m).diag_live() == old(
                m,
            ).diag_live(),
            r is None ==> *final(m) == *old(m),
    {
        if self.is_ok(m) {
            Some(m.value_mut(self.addr))
        } else {
            None
        }
    }

    /// Read the payload through a handle known to be valid. Callers must
    /// have checked validity (elsewhere a stale handle aborts here);
    /// reading needs no thread designation.
    pub fn deref<'a>(&self, m: &'a Registry<T>) -> (r: &'a T)
        requires
            m.wf(),
            self.is_ok_in(*m),
        ensures
            *r == m.value_of(self.spec_addr()),
    {
        m.value_ref(self.addr)
    }

    /// Write access through a handle known to be valid, from the designated
    /// thread only (elsewhere a stale handle or a wrong thread aborts here).
    pub fn deref_mut<'a>(
        &self,
        m: &'a mut Registry<T>,
        g: &ThreadAffinity,
        thread_id: u64,
    ) -> (r: &'a mut T)
        requires
            old(m).wf(),
            self.is_ok_in(*old(m)),
            spec_is_main(*g, thread_id),
        ensures
            *r == old(m).value_of(self.spec_addr()),
            final(m).wf(),
            self.is_ok_in(*final(m)),
            final(m).value_of(self.spec_addr()) == *final(r),
            final(m).share_count(self.spec_addr()) == old(m).share_count(self.spec_addr()),
            final(m).known_count() == old(m).known_count(),
            same_entries_except(*old(m), *final(m), self.spec_addr()),
            final(m).diag_enabled() == old(m).diag_enabled(),
            final(m).diag_live() == old(m).diag_live(),
    {
        m.value_mut(self.addr)
    }

    /// Forget the payload type, keeping only the (address, stamp) identity.
    pub fn erase(&self) -> (e: Weak<Erased>)
        ensures
            e.spec_addr() == self.spec_addr(),
            e.spec_stamp() == self.spec_stamp(),
    {
        Weak { addr: self.addr, stamp: self.stamp, phantom: PhantomData }
    }

    /// Reconstruct a typed handle by revalidating this handle's identity
    /// against a registry of the target type: the result is a fresh,
    /// freshly-validated handle, or `None` when the identity is not live
    /// there under the same stamp.
    pub fn downcast<U>(&self, target: &Registry<U>) -> (r: Option<Weak<U>>)
        ensures
            r is Some <==> (self.spec_addr() != 0 && target.live(self.spec_addr())
                && target.stamp_of(self.spec_addr()) == self.spec_stamp()),
            r matches Some(w) ==> w.spec_addr() == self.spec_addr() && w.spec_stamp()
                == self.spec_stamp() && w.is_ok_in(*target),
    {
        let candidate = Weak::<U> { addr: self.addr, stamp: self.stamp, phantom: PhantomData };
        if candidate.is_ok(target) {
            Some(candidate)
        } else {
            None
        }
    }

    /// Register a payload that nothing will ever own or free, and observe
    /// it: the handle stays valid for the registry's whole life.
    pub fn leak(m: &mut Registry<T>, value: T) -> (w: Weak<T>)
        requires
            old(m).wf(),
            old(m).known_count() < usize::MAX as int,
        ensures
            final(m).wf(),
            w.is_ok_in(*final(m)),
            final(m).value_of(w.spec_addr()) == value,
            final(m).share_count(w.spec_addr()) == 1,
            !old(m).live(w.spec_addr()),
            same_entries_except(*old(m), *final(m), w.spec_addr()),
            preserves_live_entries(*old(m), *final(m)),
            final(m).diag_enabled() == old(m).diag_enabled(),
    {
        let (addr, stamp) = m.add(value, 1);
        Weak { addr, stamp, phantom: PhantomData }
    }
}

impl<T> Copy for Weak<T> {

}

impl<T> Clone for Weak<T> {
    /// A copy of the handle: same address, same stamp.
    fn clone(&self) -> (w: Self)
        ensures
            w == *self,
    {
        *self
    }
}

impl<T> Default for Weak<T> {
    /// The null sentinel, like `const_default`.
    fn default() -> (w: Self)
        ensures
            w.spec_addr() == 0,
            w.spec_stamp() == 0,
    {
        Weak::const_default()
    }
}

impl<T> PartialEq for Weak<T> {
    /// Handles are equal only when both address and stamp match, so a stale
    /// handle to a reused address never equals a fresh handle at that same
    /// address.
    fn eq(&self, other: &Self) -> bool {
        self.addr == other.addr && self.stamp == other.stamp
    }
}

impl<T> vstd::std_specs::cmp::PartialEqSpecImpl for Weak<T> {
    open spec fn obeys_eq_spec() -> bool {
        true
    }

    open spec fn eq_spec(&self, other: &Self) -> bool {
        self.spec_addr() == other.spec_addr() && self.spec_stamp() == other.spec_stamp()
    }
}

impl<T> Eq for Weak<T> {

}

/// Handles carrying the same identity compare equal: deriving twice from
/// one owner gives equal handles as long as no free-then-reallocate cycle
/// changed the stamp at that address in between.
pub proof fn lemma_same_identity_weaks_equal<T>(w1: Weak<T>, w2: Weak<T>)
    requires
        w1.spec_addr() == w2.spec_addr(),
        w1.spec_stamp() == w2.spec_stamp(),
    ensures
        w1.eq_spec(&w2),
{
}

/// A handle whose stamp differs from the one the registry currently records
/// at its address is null: a deallocation-then-reallocation at the same
/// address never revives a stale observer, despite matching addresses.
pub proof fn lemma_stamp_mismatch_is_null<T>(m: Registry<T>, w: Weak<T>)
    requires
        w.spec_stamp() != m.stamp_of(w.spec_addr()),
    ensures
        !w.is_ok_in(m),
{
}

/// A handle whose address holds no live allocation is null, whatever its
/// stamp: liveness is decided by the registry, never by the handle alone.
pub proof fn lemma_dead_address_is_null<T>(m: Registry<T>, w: Weak<T>)
    requires
        !m.live(w.spec_addr()),
    ensures
        !w.is_ok_in(m),
{
}

} // verus!
