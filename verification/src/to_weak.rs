//! Deriving weak handles uniformly from any owning kind of handle.

use vstd::prelude::*;

use crate::own::Own;
use crate::strong::Strong;
use crate::weak::Weak;

verus! {

/// Anything a weak handle can be derived from: the derivation copies the
/// (address, stamp) identity and touches no registry state.
pub trait ToWeak<T> {
    /// The identity the derived handle will carry.
    spec fn spec_weak_addr(&self) -> usize;

    /// The stamp the derived handle will carry.
    spec fn spec_weak_stamp(&self) -> u64;

    /// Derive a weak handle.
    fn weak(&self) -> (w: Weak<T>)
        ensures
            w.spec_addr() == self.spec_weak_addr(),
            w.spec_stamp() == self.spec_weak_stamp(),
    ;
}

impl<T> ToWeak<T> for Own<T> {
    open spec fn spec_weak_addr(&self) -> usize {
        self.spec_addr()
    }

    open spec fn spec_weak_stamp(&self) -> u64 {
        self.spec_stamp()
    }

    fn weak(&self) -> (w: Weak<T>)
        ensures
            w.spec_addr() == self.spec_weak_addr(),
            w.spec_stamp() == self.spec_weak_stamp(),
    {
        self.weak()
    }
}

impl<T> ToWeak<T> for Strong<T> {
    open spec fn spec_weak_addr(&self) -> usize {
        self.spec_addr()
    }

    open spec fn spec_weak_stamp(&self) -> u64 {
        self.spec_stamp()
    }

    fn weak(&self) -> (w: Weak<T>)
        ensures
            w.spec_addr() == self.spec_weak_addr(),
            w.spec_stamp() == self.spec_weak_stamp(),
    {
        self.weak()
    }
}

impl<T> ToWeak<T> for Weak<T> {
    open spec fn spec_weak_addr(&self) -> usize {
        self.spec_addr()
    }

    open spec fn spec_weak_stamp(&self) -> u64 {
        self.spec_stamp()
    }

    fn weak(&self) -> (w: Weak<T>)
        ensures
            w.spec_addr() == self.spec_weak_addr(),
            w.spec_stamp() == self.spec_weak_stamp(),
    {
        *self
    }
}

} // verus!
