//! Bulk wrapping: turning a vector of raw values into owning handles.

use vstd::prelude::*;

use crate::own::Own;
use crate::registry::Registry;

verus! {

/// A vector of owning handles.
pub type OwnVec<T> = Vec<Own<T>>;

/// Collections whose elements can move, one by one, into owning handles.
pub trait ToOwnVec<T> {
    /// The elements about to be wrapped, in order.
    spec fn spec_values(&self) -> Seq<T>;

    /// Register every element and collect the owners, in order: the `i`th
    /// handle owns the `i`th input value, and all handles are distinct
    /// allocations.
    fn to_own_vec(self, m: &mut Registry<T>) -> (r: OwnVec<T>)
        requires
            old(m).wf(),
            old(m).known_count() + self.spec_values().len() <= usize::MAX as int,
        ensures
            final(m).wf(),
            r@.len() == self.spec_values().len(),
            forall|i: int|
                0 <= i < r@.len() ==> (#[trigger] r@[i]).lives_in(*final(m)) && final(m).value_of(
                    r@[i].spec_addr(),
                ) == self.spec_values()[i],
            forall|i: int, j: int|
                0 <= i < j < r@.len() ==> (#[trigger] r@[i]).spec_addr() != (
                #[trigger] r@[j]).spec_addr(),
            final(m).diag_enabled() == old(m).diag_enabled(),
    ;
}

impl<T> ToOwnVec<T> for Vec<T> {
    open spec fn spec_values(&self) -> Seq<T> {
        self@
    }

    fn to_own_vec(self, m: &mut Registry<T>) -> (r: OwnVec<T>) {
        let mut input = self;
        let ghost orig: Seq<T> = input@;
        let mut result: OwnVec<T> = Vec::new();
        while input.len() > 0
            invariant
                m.wf(),
                input@.len() + result@.len() == orig.len(),
                forall|k: int| 0 <= k < input@.len() ==> input@[k] == orig[result@.len() + k],
                m.known_count() + input@.len() <= usize::MAX as int,
                forall|i: int|
                    0 <= i < result@.len() ==> (#[trigger] result@[i]).lives_in(*m)
                        && m.value_of(result@[i].spec_addr()) == orig[i],
                forall|i: int, j: int|
                    0 <= i < j < result@.len() ==> (#[trigger] result@[i]).spec_addr() != (
                    #[trigger] result@[j]).spec_addr(),
                m.diag_enabled() == old(m).diag_enabled(),
            decreases input@.len(),
        {
            let value = input.remove(0);
            let ghost m_pre: Registry<T> = *m;
            let handle = Own::new(m, value);
            proof {
                assert forall|i: int| 0 <= i < result@.len() implies (#[trigger] result@[i]).lives_in(
                    *m,
                ) && m.value_of(result@[i].spec_addr()) == orig[i] && result@[i].spec_addr()
                    != handle.spec_addr() by {
                    let a = result@[i].spec_addr();
                    assert(result@[i].lives_in(m_pre));
                    assert(m_pre.live(a));
                    crate::registry::lemma_live_is_real(m_pre, a);
                    assert(a != handle.spec_addr());
                    assert(m.live(a) && m.stamp_of(a) == m_pre.stamp_of(a));
                    assert(m.share_count(a) == m_pre.share_count(a));
                    assert(m.value_of(a) == m_pre.value_of(a));
                }
            }
            result.push(handle);
        }
        result
    }
}

} // verus!
