//! Existence checks for handles to externally managed resources.

use vstd::prelude::*;

use crate::weak::Weak;

verus! {

/// Whether a handle was ever pointed at a managed resource (as opposed to
/// the null sentinel a default-constructed handle carries).
pub trait ExistsManaged {
    /// The answer as a specification value.
    spec fn spec_exists_managed(&self) -> bool;

    /// Whether a managed resource was ever attached.
    fn exists_managed(&self) -> (r: bool)
        ensures
            r == self.spec_exists_managed(),
    ;
}

impl<T> ExistsManaged for Weak<T> {
    open spec fn spec_exists_managed(&self) -> bool {
        self.spec_addr() != 0
    }

    fn exists_managed(&self) -> (r: bool)
        ensures
            r == self.spec_exists_managed(),
    {
        self.was_initialized()
    }
}

} // verus!
