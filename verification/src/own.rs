//! The owning handle: the unique logical owner of one allocation.
//!
//! Construction registers the payload under a fresh (address, stamp)
//! identity; `free` deregisters it and hands the payload back, after which
//! every weak handle derived from this owner reads as null. At most one
//! owning handle exists per live allocation: the handle cannot be copied,
//! and `free` consumes it, so the registry entry it owns outlives it.

use core::marker::PhantomData;

use vstd::prelude::*;

use crate::raw_pointer::RawPointer;
use crate::registry::{
    diag_after_add, diag_after_remove, preserves_live_entries, same_entries_except, Registry,
};
use crate::utils::{spec_is_main, ThreadAffinity};
use crate::weak::Weak;

verus! {

/// Unique-ownership handle over one registry allocation.
pub struct Own<T> {
    pub(crate) addr: usize,
    pub(crate) stamp: u64,
    pub(crate) phantom: PhantomData<T>,
}

impl<T> Own<T> {
    /// An owning handle always carries a real identity: both the address
    /// and the stamp were minted by a registry, so neither is the sentinel 0.
    #[verifier::type_invariant]
    spec fn type_inv(self) -> bool {
        self.addr >= 1 && self.stamp >= 1
    }

    /// The address of the owned allocation; never 0.
    pub closed spec fn spec_addr(&self) -> usize {
        self.addr
    }

    /// The generation stamp minted for the owned allocation; never 0.
    pub closed spec fn spec_stamp(&self) -> u64 {
        self.stamp
    }

    /// The tie between a handle and its registry: the registry holds a live
    /// allocation at the handle's address, under the handle's stamp, with
    /// exactly this one owner.
    pub open spec fn lives_in(self, m: Registry<T>) -> bool {
        &&& self.spec_addr() != 0
        &&& m.live(self.spec_addr())
        &&& m.stamp_of(self.spec_addr()) == self.spec_stamp()
        &&& m.share_count(self.spec_addr()) == 1
    }

    /// Allocate a payload and register it under a fresh identity: the new
    /// address holds nothing live before the call, and if it is a reused
    /// address its stamp is strictly newer than the one it had, so every
    /// handle into its previous life stays invalid.
    pub fn new(m: &mut Registry<T>, value: T) -> (h: Own<T>)
        requires
            old(m).wf(),
            old(m).known_count() < usize::MAX as int,
        ensures
            final(m).wf(),
            h.lives_in(*final(m)),
            final(m).value_of(h.spec_addr()) == value,
            h.spec_stamp() >= 1,
            !old(m).live(h.spec_addr()),
            old(m).known(h.spec_addr()) ==> h.spec_stamp() > old(m).stamp_of(h.spec_addr()),
            final(m).known_count() <= old(m).known_count() + 1,
            same_entries_except(*old(m), *final(m), h.spec_addr()),
            preserves_live_entries(*old(m), *final(m)),
            final(m).diag_enabled() == old(m).diag_enabled(),
            final(m).diag_live() == diag_after_add(*old(m)),
    {
        let (addr, stamp) = m.add(value, 1);
        Own { addr, stamp, phantom: PhantomData }
    }

    /// Deregister the owned allocation and take the payload back. The
    /// handle is consumed: the release happens exactly once, and every weak
    /// handle derived from it observes the invalidation immediately.
    pub fn free(self, m: &mut Registry<T>) -> (value: T)
        requires
            old(m).wf(),
            self.lives_in(*old(m)),
        ensures
            final(m).wf(),
            value == old(m).value_of(self.spec_addr()),
            !final(m).live(self.spec_addr()),
            final(m).known(self.spec_addr()),
            final(m).stamp_of(self.spec_addr()) == self.spec_stamp(),
            final(m).known_count() == old(m).known_count(),
            same_entries_except(*old(m), *final(m), self.spec_addr()),
            final(m).diag_enabled() == old(m).diag_enabled(),
            final(m).diag_live() == diag_after_remove(*old(m)),
    {
        m.remove(self.addr)
    }

    /// The address of the owned allocation.
    pub fn addr(&self) -> (r: usize)
        ensures
            r == self.spec_addr(),
    {
        self.addr
    }

    /// Read the payload. Reading needs no thread designation.
    pub fn deref<'a>(&self, m: &'a Registry<T>) -> (r: &'a T)
        requires
            m.wf(),
            self.lives_in(*m),
        ensures
            *r == m.value_of(self.spec_addr()),
    {
        m.value_ref(self.addr)
    }

    /// Write access to the payload, from the designated thread only
    /// (elsewhere a wrong thread aborts here, naming the payload type).
    pub fn deref_mut<'a>(
        &self,
        m: &'a mut Registry<T>,
        g: &ThreadAffinity,
        thread_id: u64,
    ) -> (r: &'a mut T)
        requires
            old(m).wf(),
            self.lives_in(*old(m)),
            spec_is_main(*g, thread_id),
        ensures
            *r == old(m).value_of(self.spec_addr()),
            final(m).wf(),
            self.lives_in(*final(m)),
            final(m).value_of(self.spec_addr()) == *final(r),
            final(m).known_count() == old(m).known_count(),
            same_entries_except(*old(m), *final(m), self.spec_addr()),
            final(m).diag_enabled() == old(m).diag_enabled(),
            final(m).diag_live() == old(m).diag_live(),
    {
        m.value_mut(self.addr)
    }

    /// Derive a weak handle: copy the (address, stamp) identity, touching
    /// no registry state.
    pub fn weak(&self) -> (w: Weak<T>)
        ensures
            w.spec_addr() == self.spec_addr(),
            w.spec_stamp() == self.spec_stamp(),
    {
        Weak::from_raw(self.addr, self.stamp)
    }

    /// The raw (address, stamp) identity of the owned allocation.
    pub fn raw(&self) -> (r: RawPointer)
        ensures
            r.spec_addr() == self.spec_addr(),
            r.spec_stamp() == self.spec_stamp(),
    {
        proof {
            use_type_invariant(&*self);
        }
        RawPointer::new(self.addr, self.stamp)
    }

    /// Reconstruct a handle of another payload type by revalidating this
    /// handle's identity against a registry of that type.
    pub fn downcast<U>(&self, target: &Registry<U>) -> (r: Option<Weak<U>>)
        ensures
            r is Some <==> (self.spec_addr() != 0 && target.live(self.spec_addr())
                && target.stamp_of(self.spec_addr()) == self.spec_stamp()),
            r matches Some(w) ==> w.spec_addr() == self.spec_addr() && w.spec_stamp()
                == self.spec_stamp() && w.is_ok_in(*target),
    {
        self.weak().downcast(target)
    }
}

/// Immediately after construction, a weak handle derived from the new owner
/// observes the payload the owner was built from.
pub proof fn lemma_new_weak_observes_payload<T>(m: Registry<T>, h: Own<T>, w: Weak<T>, value: T)
    requires
        h.lives_in(m),
        m.value_of(h.spec_addr()) == value,
        w.spec_addr() == h.spec_addr(),
        w.spec_stamp() == h.spec_stamp(),
    ensures
        w.is_ok_in(m),
        m.value_of(w.spec_addr()) == value,
{
}

/// Once the owner is freed, every weak handle it ever produced is null.
pub proof fn lemma_freed_owner_weak_is_null<T>(m: Registry<T>, h: Own<T>, w: Weak<T>)
    requires
        !m.live(h.spec_addr()),
        w.spec_addr() == h.spec_addr(),
    ensures
        !w.is_ok_in(m),
{
}

/// A free-then-reallocate cycle at one address never revives an old
/// observer, and never lets handles from the two lives compare equal:
/// `m0` holds the first allocation (owner `h0`, observer `w`), `m1` is the
/// state after `h0.free(..)`, and `m2` the state after a new allocation
/// `h1` landed on the same address. The reused address carries a strictly
/// newer stamp, so `w` stays null and no weak handle of `h1` equals `w`.
pub proof fn lemma_reuse_does_not_revive<T>(
    m0: Registry<T>,
    m1: Registry<T>,
    m2: Registry<T>,
    h0: Own<T>,
    h1: Own<T>,
    w: Weak<T>,
)
    requires
        w.spec_addr() == h0.spec_addr(),
        w.spec_stamp() == h0.spec_stamp(),
        h0.lives_in(m0),
        // what h0.free(..) ensures:
        !m1.live(h0.spec_addr()),
        m1.stamp_of(h0.spec_addr()) == h0.spec_stamp(),
        m1.known(h0.spec_addr()),
        // what Own::new(..) ensures, for an allocation that reused the address:
        h1.spec_addr() == h0.spec_addr(),
        h1.lives_in(m2),
        m1.known(h1.spec_addr()) ==> h1.spec_stamp() > m1.stamp_of(h1.spec_addr()),
    ensures
        !w.is_ok_in(m2),
        w.spec_stamp() != h1.spec_stamp(),
        w.spec_addr() == h1.spec_addr(),
{
}

} // verus!
