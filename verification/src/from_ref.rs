//! Deriving a weak handle from an allocation's address alone.

use vstd::prelude::*;

use crate::registry::{lemma_live_is_real, Registry};
use crate::weak::Weak;

verus! {

/// A weak handle for an allocation already managed by the registry: the
/// current stamp at `addr` is captured, so the handle is valid right away.
/// Callers must name a managed address (elsewhere an unmanaged one aborts
/// here: such an object has no identity to observe).
pub fn weak_from_ref<T>(m: &Registry<T>, addr: usize) -> (w: Weak<T>)
    requires
        m.live(addr),
    ensures
        w.spec_addr() == addr,
        w.spec_stamp() == m.stamp_of(addr),
        w.is_ok_in(*m),
{
    proof {
        lemma_live_is_real(*m, addr);
    }
    match m.stamp_for_address(addr) {
        Some(stamp) => Weak::from_raw(addr, stamp),
        None => vstd::pervasive::unreached(),
    }
}

} // verus!
