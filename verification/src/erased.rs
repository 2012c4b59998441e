//! The type-erased payload marker.

use vstd::prelude::*;

verus! {

/// Placeholder payload type for a type-erased weak handle: an erased handle
/// keeps only its address and stamp, and is given back a concrete type by
/// revalidating against a registry of that type.
#[derive(Debug)]
pub struct Erased;

} // verus!
