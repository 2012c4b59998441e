//! The shared handle: one of N owners of one allocation.
//!
//! The registry entry carries a live-copy count; cloning increments it,
//! freeing one copy decrements it, and only the last copy's release actually
//! deregisters the allocation and hands the payload back. Weak handles
//! derived from any copy stay valid exactly until that last release.

use core::marker::PhantomData;

use vstd::prelude::*;

use crate::registry::{
    diag_after_add, diag_after_remove, preserves_live_entries, same_entries_except, Registry,
};
use crate::utils::{spec_is_main, ThreadAffinity};
use crate::weak::Weak;

verus! {

/// Shared-ownership handle over one registry allocation.
pub struct Strong<T> {
    pub(crate) addr: usize,
    pub(crate) stamp: u64,
    pub(crate) phantom: PhantomData<T>,
}

impl<T> Strong<T> {
    /// A shared handle always carries a real identity: both the address
    /// and the stamp were minted by a registry, so neither is the sentinel 0.
    #[verifier::type_invariant]
    spec fn type_inv(self) -> bool {
        self.addr >= 1 && self.stamp >= 1
    }

    /// The address of the shared allocation; never 0.
    pub closed spec fn spec_addr(&self) -> usize {
        self.addr
    }

    /// The generation stamp minted for the shared allocation; never 0.
    pub closed spec fn spec_stamp(&self) -> u64 {
        self.stamp
    }

    /// The tie between a handle and its registry: the registry holds a live
    /// allocation at the handle's address, under the handle's stamp, with
    /// at least this copy among its owners.
    pub open spec fn lives_in(self, m: Registry<T>) -> bool {
        &&& self.spec_addr() != 0
        &&& m.live(self.spec_addr())
        &&& m.stamp_of(self.spec_addr()) == self.spec_stamp()
        &&& m.share_count(self.spec_addr()) >= 1
    }

    /// Allocate a payload and register it under a fresh identity with a
    /// share count of one.
    pub fn new(m: &mut Registry<T>, value: T) -> (s: Strong<T>)
        requires
            old(m).wf(),
            old(m).known_count() < usize::MAX as int,
        ensures
            final(m).wf(),
            s.lives_in(*final(m)),
            final(m).value_of(s.spec_addr()) == value,
            final(m).share_count(s.spec_addr()) == 1,
            !old(m).live(s.spec_addr()),
            old(m).known(s.spec_addr()) ==> s.spec_stamp() > old(m).stamp_of(s.spec_addr()),
            final(m).known_count() <= old(m).known_count() + 1,
            same_entries_except(*old(m), *final(m), s.spec_addr()),
            preserves_live_entries(*old(m), *final(m)),
            final(m).diag_enabled() == old(m).diag_enabled(),
            final(m).diag_live() == diag_after_add(*old(m)),
    {
        let (addr, stamp) = m.add(value, 1);
        Strong { addr, stamp, phantom: PhantomData }
    }

    /// The address of the shared allocation.
    pub fn address(&self) -> (r: usize)
        ensures
            r == self.spec_addr(),
    {
        self.addr
    }

    /// The number of live copies sharing this allocation.
    pub fn ref_count(&self, m: &Registry<T>) -> (r: usize)
        ensures
            r == m.share_count(self.spec_addr()),
    {
        m.strong_count(self.addr)
    }

    /// One more copy of this handle: same identity, share count up by one.
    pub fn clone(&self, m: &mut Registry<T>) -> (s: Strong<T>)
        requires
            old(m).wf(),
            self.lives_in(*old(m)),
            old(m).share_count(self.spec_addr()) < usize::MAX,
        ensures
            final(m).wf(),
            s.spec_addr() == self.spec_addr(),
            s.spec_stamp() == self.spec_stamp(),
            s.lives_in(*final(m)),
            self.lives_in(*final(m)),
            final(m).value_of(self.spec_addr()) == old(m).value_of(self.spec_addr()),
            final(m).share_count(self.spec_addr()) == old(m).share_count(self.spec_addr()) + 1,
            final(m).known_count() == old(m).known_count(),
            same_entries_except(*old(m), *final(m), self.spec_addr()),
            final(m).diag_enabled() == old(m).diag_enabled(),
            final(m).diag_live() == old(m).diag_live(),
    {
        proof {
            use_type_invariant(&*self);
        }
        m.increase_strong(self.addr);
        Strong { addr: self.addr, stamp: self.stamp, phantom: PhantomData }
    }

    /// Release one copy. While other copies remain, only the share count
    /// drops and the payload stays put, so weak handles stay valid; the
    /// last copy's release deregisters the allocation and hands the payload
    /// back as `Some`.
    pub fn free(self, m: &mut Registry<T>) -> (r: Option<T>)
        requires
            old(m).wf(),
            self.lives_in(*old(m)),
        ensures
            final(m).wf(),
            final(m).known_count() == old(m).known_count(),
            same_entries_except(*old(m), *final(m), self.spec_addr()),
            final(m).stamp_of(self.spec_addr()) == self.spec_stamp(),
            final(m).share_count(self.spec_addr()) == old(m).share_count(self.spec_addr()) - 1,
            final(m).diag_enabled() == old(m).diag_enabled(),
            old(m).share_count(self.spec_addr()) >= 2 ==> {
                &&& r is None
                &&& final(m).live(self.spec_addr())
                &&& final(m).value_of(self.spec_addr()) == old(m).value_of(self.spec_addr())
                &&& final(m).diag_live() == old(m).diag_live()
            },
            old(m).share_count(self.spec_addr()) == 1 ==> {
                &&& r == Some(old(m).value_of(self.spec_addr()))
                &&& !final(m).live(self.spec_addr())
                &&& final(m).diag_live() == diag_after_remove(*old(m))
            },
    {
        if m.strong_count(self.addr) >= 2 {
            m.decrease_strong(self.addr);
            None
        } else {
            Some(m.remove(self.addr))
        }
    }

    /// Read the payload. Reading needs no thread designation.
    pub fn deref<'a>(&self, m: &'a Registry<T>) -> (r: &'a T)
        requires
            m.wf(),
            self.lives_in(*m),
        ensures
            *r == m.value_of(self.spec_addr()),
    {
        m.value_ref(self.addr)
    }

    /// Write access to the payload, from the designated thread only
    /// (elsewhere a wrong thread aborts here, naming the payload type).
    pub fn deref_mut<'a>(
        &self,
        m: &'a mut Registry<T>,
        g: &ThreadAffinity,
        thread_id: u64,
    ) -> (r: &'a mut T)
        requires
            old(m).wf(),
            self.lives_in(*old(m)),
            spec_is_main(*g, thread_id),
        ensures
            *r == old(m).value_of(self.spec_addr()),
            final(m).wf(),
            self.lives_in(*final(m)),
            final(m).value_of(self.spec_addr()) == *final(r),
            final(m).known_count() == old(m).known_count(),
            same_entries_except(*old(m), *final(m), self.spec_addr()),
            final(m).diag_enabled() == old(m).diag_enabled(),
            final(m).diag_live() == old(m).diag_live(),
    {
        m.value_mut(self.addr)
    }

    /// Derive a weak handle: copy the (address, stamp) identity, touching
    /// no registry state.
    pub fn weak(&self) -> (w: Weak<T>)
        ensures
            w.spec_addr() == self.spec_addr(),
            w.spec_stamp() == self.spec_stamp(),
    {
        Weak::from_raw(self.addr, self.stamp)
    }
}

/// Releasing one of several copies never invalidates an observer: while at
/// least one other copy remains, a weak handle that was valid before the
/// release is valid after it.
pub proof fn lemma_shared_release_preserves_observers<T>(
    m0: Registry<T>,
    m1: Registry<T>,
    s: Strong<T>,
    w: Weak<T>,
)
    requires
        w.is_ok_in(m0),
        w.spec_addr() == s.spec_addr(),
        m0.share_count(s.spec_addr()) >= 2,
        // what s.free(..) ensures when other copies remain:
        m1.live(s.spec_addr()),
        m1.stamp_of(s.spec_addr()) == s.spec_stamp(),
        m0.stamp_of(s.spec_addr()) == s.spec_stamp(),
    ensures
        w.is_ok_in(m1),
{
}

} // verus!
