//! A small freestanding memory-management core: an explicit allocator
//! capability, a single-value owning handle (`KBox`), and a growable,
//! contiguous owning sequence (`KVec`), together with the kernel-style
//! error taxonomy that every allocation path reports through.
use vstd::prelude::*;

pub mod error;
pub mod mem;

verus! {

/// Marker type naming this library.
pub struct Kernux;

} // verus!
