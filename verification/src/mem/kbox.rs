//! The owning handle: exactly one heap-resident value, owned together with
//! the capability that allocated its block.
use crate::error::{KernelError, KernelResult};
use crate::mem::allocator::KernelAllocator;
use crate::mem::GFP_KERNEL;
use vstd::layout::size_of;
use vstd::prelude::*;

verus! {

/// Types whose all-zero bit pattern is a valid value, so that a handle to a
/// freshly zeroed block already holds a valid value of them.
pub trait Zeroable: Sized {
    /// The value that the all-zero bit pattern denotes.
    spec fn zero_spec() -> Self;

    /// That value, produced directly.
    fn zeroed() -> (r: Self)
        ensures
            r == Self::zero_spec(),
    ;
}

impl Zeroable for u8 {
    open spec fn zero_spec() -> u8 {
        0
    }

    fn zeroed() -> (r: u8) {
        0
    }
}

impl Zeroable for u16 {
    open spec fn zero_spec() -> u16 {
        0
    }

    fn zeroed() -> (r: u16) {
        0
    }
}

impl Zeroable for u32 {
    open spec fn zero_spec() -> u32 {
        0
    }

    fn zeroed() -> (r: u32) {
        0
    }
}

impl Zeroable for u64 {
    open spec fn zero_spec() -> u64 {
        0
    }

    fn zeroed() -> (r: u64) {
        0
    }
}

impl Zeroable for usize {
    open spec fn zero_spec() -> usize {
        0
    }

    fn zeroed() -> (r: usize) {
        0
    }
}

impl Zeroable for i32 {
    open spec fn zero_spec() -> i32 {
        0
    }

    fn zeroed() -> (r: i32) {
        0
    }
}

impl Zeroable for i64 {
    open spec fn zero_spec() -> i64 {
        0
    }

    fn zeroed() -> (r: i64) {
        0
    }
}

/// An owning handle to exactly one heap-resident value of `T`, holding the
/// capability `A` that allocated the block. The heap-resident value is
/// modeled by the `value` field; `addr` is the address of the owned block.
/// A zero-sized `T` never touches the allocator: the handle then carries a
/// nonzero sentinel address that is never dereferenced and never released.
pub struct KBox<T, A: KernelAllocator> {
    value: T,
    addr: usize,
    alloc: A,
}

impl<T, A: KernelAllocator> View for KBox<T, A> {
    type V = T;

    closed spec fn view(&self) -> T {
        self.value
    }
}

impl<T, A: KernelAllocator> KBox<T, A> {
    /// The address of the owned block (for zero-sized `T`: the sentinel).
    pub closed spec fn address(&self) -> usize {
        self.addr
    }

    /// The capability owned by this handle.
    pub closed spec fn allocator(&self) -> A {
        self.alloc
    }

    /// The handle's invariant: the capability is well-formed, the address is
    /// nonzero, and — unless `T` is zero-sized — the block is live, that is,
    /// allocated and not yet released.
    pub open spec fn wf(&self) -> bool {
        &&& self.allocator().wf()
        &&& self.address() != 0
        &&& size_of::<T>() != 0 ==> self.allocator().live().contains(self.address())
    }

    /// Creates a handle owning `value` in a freshly allocated block of the
    /// given capability. A handle to a zero-sized value is created without
    /// invoking the allocator at all, and creation then cannot fail;
    /// otherwise the block is fresh, creation succeeds whenever the
    /// capability promises to grant the request, and out-of-memory is the
    /// sole failure, propagated unchanged from the capability.
    pub fn new(value: T, alloc: A) -> (r: KernelResult<KBox<T, A>>)
        requires
            alloc.wf(),
        ensures
            size_of::<T>() == 0 || alloc.grants(size_of::<T>() as usize) ==> r is Ok,
            match r {
                Ok(b) => {
                    &&& b.wf()
                    &&& b@ == value
                    &&& size_of::<T>() == 0 ==> b.allocator() == alloc
                    &&& size_of::<T>() != 0 ==> !alloc.live().contains(b.address())
                        && b.allocator().live() == alloc.live().insert(b.address())
                },
                Err(e) => e == KernelError::ENOMEM && size_of::<T>() != 0,
            },
    {
        vstd::layout::layout_for_type_is_valid::<T>();
        let size = core::mem::size_of::<T>();
        let align = core::mem::align_of::<T>();
        if size == 0 {
            return Ok(KBox { value, addr: align, alloc });
        }
        let mut alloc = alloc;
        match alloc.allocate(size, align, GFP_KERNEL) {
            Ok(addr) => Ok(KBox { value, addr, alloc }),
            Err(e) => Err(e),
        }
    }

    /// Shared dereference: the owned value.
    pub fn as_ref(&self) -> (r: &T)
        ensures
            *r == self@,
    {
        &self.value
    }

    /// Exclusive dereference: the owned value, for in-place mutation. Only
    /// the value changes; address and capability stay as they are, so a
    /// well-formed handle stays well-formed.
    pub fn as_mut(&mut self) -> (r: &mut T)
        ensures
            *r == old(self)@,
            final(self)@ == *final(r),
            final(self).address() == old(self).address(),
            final(self).allocator() == old(self).allocator(),
            old(self).wf() ==> final(self).wf(),
    {
        &mut self.value
    }

    /// Destroys the handle: drops the owned value in place, then — unless
    /// `T` is zero-sized — releases the block through the capability,
    /// exactly once. Returns the capability, with the block no longer live.
    pub fn free(self) -> (a: A)
        requires
            self.wf(),
        ensures
            a.wf(),
            size_of::<T>() == 0 ==> a == self.allocator(),
            size_of::<T>() != 0 ==> a.live() == self.allocator().live().remove(self.address()),
    {
        let KBox { value: _, addr, alloc } = self;
        let mut alloc = alloc;
        if core::mem::size_of::<T>() != 0 {
            alloc.deallocate(addr);
        }
        alloc
    }
}

impl<T: Zeroable, A: KernelAllocator> KBox<T, A> {
    /// Creates a handle from a zeroed block: the capability guarantees the
    /// block is all zero, and for a `Zeroable` type those bytes already
    /// constitute the valid value `T::zero_spec()`, so nothing further is
    /// written. Zero-sized `T` again never invokes the allocator.
    pub fn new_zeroed(alloc: A) -> (r: KernelResult<KBox<T, A>>)
        requires
            alloc.wf(),
        ensures
            size_of::<T>() == 0 || alloc.grants(size_of::<T>() as usize) ==> r is Ok,
            match r {
                Ok(b) => {
                    &&& b.wf()
                    &&& b@ == T::zero_spec()
                    &&& size_of::<T>() == 0 ==> b.allocator() == alloc
                    &&& size_of::<T>() != 0 ==> !alloc.live().contains(b.address())
                        && b.allocator().live() == alloc.live().insert(b.address())
                },
                Err(e) => e == KernelError::ENOMEM && size_of::<T>() != 0,
            },
    {
        vstd::layout::layout_for_type_is_valid::<T>();
        let size = core::mem::size_of::<T>();
        let align = core::mem::align_of::<T>();
        if size == 0 {
            return Ok(KBox { value: T::zeroed(), addr: align, alloc });
        }
        let mut alloc = alloc;
        match alloc.allocate_zeroed(size, align, GFP_KERNEL) {
            Ok(addr) => Ok(KBox { value: T::zeroed(), addr, alloc }),
            Err(e) => Err(e),
        }
    }
}

} // verus!
