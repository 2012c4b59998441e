//! The raw (address, stamp) identity of a managed allocation.

use vstd::prelude::*;

verus! {

/// An allocation's identity as plain numbers. Two raw pointers are equal
/// exactly when both address and stamp match, so identities from different
/// generations at one address never compare equal.
#[derive(Debug)]
pub struct RawPointer {
    addr: usize,
    stamp: u64,
}

impl RawPointer {
    /// The address; never the null sentinel 0.
    pub closed spec fn spec_addr(&self) -> usize {
        self.addr
    }

    /// The generation stamp; never the null sentinel 0.
    pub closed spec fn spec_stamp(&self) -> u64 {
        self.stamp
    }

    /// Package an identity. The sentinels are refused: a raw pointer always
    /// names a minted identity (elsewhere a sentinel aborts here).
    pub fn new(addr: usize, stamp: u64) -> (r: Self)
        requires
            addr != 0,
            stamp != 0,
        ensures
            r.spec_addr() == addr,
            r.spec_stamp() == stamp,
    {
        RawPointer { addr, stamp }
    }

    /// The address.
    pub fn addr(&self) -> (r: usize)
        ensures
            r == self.spec_addr(),
    {
        self.addr
    }

    /// The stamp.
    pub fn stamp(&self) -> (r: u64)
        ensures
            r == self.spec_stamp(),
    {
        self.stamp
    }
}

impl Copy for RawPointer {

}

impl Clone for RawPointer {
    /// A copy of the identity.
    fn clone(&self) -> (r: Self)
        ensures
            r == *self,
    {
        *self
    }
}

impl PartialEq for RawPointer {
    /// Identities are equal only when both address and stamp match.
    fn eq(&self, other: &Self) -> bool {
        self.addr == other.addr && self.stamp == other.stamp
    }
}

impl vstd::std_specs::cmp::PartialEqSpecImpl for RawPointer {
    open spec fn obeys_eq_spec() -> bool {
        true
    }

    open spec fn eq_spec(&self, other: &Self) -> bool {
        self.spec_addr() == other.spec_addr() && self.spec_stamp() == other.spec_stamp()
    }
}

impl Eq for RawPointer {

}

} // verus!
