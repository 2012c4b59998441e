//! The identity utility: everything that carries a managed allocation's
//! address can answer for it.

use vstd::prelude::*;

use crate::own::Own;
use crate::strong::Strong;
use crate::weak::Weak;

verus! {

/// The numeric identity under which a value's allocation is (or was)
/// registered.
pub trait Address {
    /// The address as a specification value.
    spec fn spec_address(&self) -> usize;

    /// The address.
    fn address(&self) -> (r: usize)
        ensures
            r == self.spec_address(),
    ;
}

impl<T> Address for Own<T> {
    open spec fn spec_address(&self) -> usize {
        self.spec_addr()
    }

    fn address(&self) -> (r: usize)
        ensures
            r == self.spec_address(),
    {
        self.addr()
    }
}

impl<T> Address for Strong<T> {
    open spec fn spec_address(&self) -> usize {
        self.spec_addr()
    }

    fn address(&self) -> (r: usize)
        ensures
            r == self.spec_address(),
    {
        self.address()
    }
}

impl<T> Address for Weak<T> {
    open spec fn spec_address(&self) -> usize {
        self.spec_addr()
    }

    fn address(&self) -> (r: usize)
        ensures
            r == self.spec_address(),
    {
        self.addr()
    }
}

} // verus!
