//! Memory management: the allocator capability and the two owning
//! containers built on top of it.
use vstd::prelude::*;

pub mod allocator;
pub mod kbox;
pub mod kvec;

pub use kbox::KBox;
pub use kvec::KVec;

verus! {

/// Opaque priority/urgency hint handed to the allocator capability and
/// forwarded verbatim to the underlying memory provider.
pub type GfpFlags = u64;

/// Default allocation class: the provider may block until memory is free.
pub const GFP_KERNEL: GfpFlags = 0xCC0;

/// Atomic allocation class: the provider must not block; it succeeds or
/// fails immediately.
pub const GFP_ATOMIC: GfpFlags = 0x80;

} // verus!
