//! Wrapping any value into an owning handle.

use vstd::prelude::*;

use crate::own::Own;
use crate::registry::{diag_after_add, preserves_live_entries, same_entries_except, Registry};

verus! {

/// Any sized value can move into a fresh owning handle.
pub trait ToOwn: Sized {
    /// Register `self` and take unique ownership of the allocation.
    fn to_own(self, m: &mut Registry<Self>) -> (h: Own<Self>)
        requires
            old(m).wf(),
            old(m).known_count() < usize::MAX as int,
        ensures
            final(m).wf(),
            h.lives_in(*final(m)),
            final(m).value_of(h.spec_addr()) == self,
            !old(m).live(h.spec_addr()),
            final(m).known_count() <= old(m).known_count() + 1,
            same_entries_except(*old(m), *final(m), h.spec_addr()),
            preserves_live_entries(*old(m), *final(m)),
            final(m).diag_enabled() == old(m).diag_enabled(),
            final(m).diag_live() == diag_after_add(*old(m)),
    ;
}

impl<T> ToOwn for T {
    fn to_own(self, m: &mut Registry<Self>) -> (h: Own<Self>) {
        Own::new(m, self)
    }
}

} // verus!
