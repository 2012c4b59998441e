//! Generation stamps: freshness tokens minted per allocation.
//!
//! Stamps are flavoured with the wall clock (as the clock advances, a reused
//! address usually gets the current time as its stamp), but freshness never
//! depends on it: whatever the clock reads, the stamp for a reused address is
//! strictly newer than the one it replaces, and every stamp is nonzero, so the
//! null sentinel stamp 0 never collides with a real allocation.

use vstd::prelude::*;

verus! {

/// Successor stamp for a reused address: strictly newer than `prev`, so a
/// handle stamped with `prev` can never be mistaken for the new allocation.
pub fn next_stamp(prev: u64, now: u64) -> (r: u64)
    requires
        prev < u64::MAX,
    ensures
        r > prev,
        r >= 1,
{
    if now > prev && now < u64::MAX {
        now
    } else {
        prev + 1
    }
}

/// Stamp for a brand-new address: nonzero, whatever the clock reads.
pub fn first_stamp(now: u64) -> (r: u64)
    ensures
        r >= 1,
{
    if now >= 1 {
        now
    } else {
        1
    }
}

} // verus!
