//! The allocator capability: the interface through which the owning
//! containers obtain and release heap memory, one capability backed by the
//! host heap, and one fixed-budget capability for exercising the
//! allocation-failure paths.
use crate::error::{KernelError, KernelResult};
use crate::mem::GfpFlags;
use vstd::prelude::*;

verus! {

/// The capability the containers request and release memory through.
///
/// Its model is `live()`: the set of addresses of blocks allocated through
/// this capability and not yet released. A grant always hands out a fresh
/// nonzero address, so a block can only be released once, and releasing
/// demands that the block is live — the caller discipline the design asks
/// for is enforced by these contracts. Out-of-memory is the sole failure
/// mode; zero-size requests are the caller's responsibility to avoid.
pub trait KernelAllocator: Sized {
    /// Addresses of the blocks currently allocated and not yet released.
    spec fn live(&self) -> Set<usize>;

    /// Well-formedness of the capability's own bookkeeping.
    spec fn wf(&self) -> bool;

    /// A sufficient condition under which a request of `size` bytes is owed
    /// a grant in the capability's current state. A capability whose
    /// provider may refuse unpredictably simply never promises a grant.
    spec fn grants(&self, size: usize) -> bool;

    /// Requests a block of at least `size` bytes for a value with the given
    /// alignment (alignment beyond the provider's natural heap alignment is
    /// not separately negotiated). `flags` is an opaque priority hint
    /// forwarded verbatim to the provider.
    fn allocate(&mut self, size: usize, align: usize, flags: GfpFlags) -> (r: KernelResult<usize>)
        requires
            old(self).wf(),
            size > 0,
        ensures
            final(self).wf(),
            old(self).grants(size) ==> r is Ok,
            match r {
                Ok(addr) => addr != 0 && !old(self).live().contains(addr) && final(self).live()
                    == old(self).live().insert(addr),
                Err(e) => e == KernelError::ENOMEM && final(self).live() == old(self).live(),
            },
    ;

    /// Releases a block previously obtained from this capability and not
    /// released since.
    fn deallocate(&mut self, addr: usize)
        requires
            old(self).wf(),
            old(self).live().contains(addr),
        ensures
            final(self).wf(),
            final(self).live() == old(self).live().remove(addr),
    ;

    /// Same contract as `allocate`, and every byte of the block is zero. The
    /// model carries no byte contents, so the two are indistinguishable
    /// here; `KBox::new_zeroed` accounts for the zeroed value itself.
    fn allocate_zeroed(&mut self, size: usize, align: usize, flags: GfpFlags) -> (r: KernelResult<
        usize,
    >)
        requires
            old(self).wf(),
            size > 0,
        ensures
            final(self).wf(),
            old(self).grants(size) ==> r is Ok,
            match r {
                Ok(addr) => addr != 0 && !old(self).live().contains(addr) && final(self).live()
                    == old(self).live().insert(addr),
                Err(e) => e == KernelError::ENOMEM && final(self).live() == old(self).live(),
            },
    {
        self.allocate(size, align, flags)
    }
}

/// The default capability: a model of the host heap. Each grant hands out a
/// fresh nonzero address; the two counters record how often the allocate and
/// release operations were invoked (saturating at `u64::MAX`).
pub struct GlobalAllocator {
    next_addr: usize,
    allocation_count: u64,
    release_count: u64,
    outstanding: Ghost<Set<usize>>,
}

impl GlobalAllocator {
    /// The next fresh address the model heap will hand out.
    pub closed spec fn next_address(&self) -> usize {
        self.next_addr
    }

    /// How often `allocate` or `allocate_zeroed` was invoked.
    pub closed spec fn allocations(&self) -> u64 {
        self.allocation_count
    }

    /// How often `deallocate` was invoked.
    pub closed spec fn releases(&self) -> u64 {
        self.release_count
    }

    /// A fresh capability: nothing allocated yet.
    pub fn new() -> (a: GlobalAllocator)
        ensures
            a.wf(),
            a.live() == Set::<usize>::empty(),
            a.next_address() == 1,
            a.allocations() == 0,
            a.releases() == 0,
    {
        GlobalAllocator {
            next_addr: 1,
            allocation_count: 0,
            release_count: 0,
            outstanding: Ghost(Set::empty()),
        }
    }

    /// How often the allocate operations were invoked.
    pub fn allocation_calls(&self) -> (n: u64)
        ensures
            n == self.allocations(),
    {
        self.allocation_count
    }

    /// How often the release operation was invoked.
    pub fn release_calls(&self) -> (n: u64)
        ensures
            n == self.releases(),
    {
        self.release_count
    }
}

impl KernelAllocator for GlobalAllocator {
    closed spec fn live(&self) -> Set<usize> {
        self.outstanding@
    }

    closed spec fn wf(&self) -> bool {
        &&& self.next_addr >= 1
        &&& forall|a: usize| self.outstanding@.contains(a) ==> 1 <= a < self.next_addr
    }

    open spec fn grants(&self, size: usize) -> bool {
        self.next_address() < usize::MAX
    }

    fn allocate(&mut self, size: usize, align: usize, flags: GfpFlags) -> (r: KernelResult<usize>)
        ensures
            old(self).allocations() < u64::MAX ==> final(self).allocations() == old(
                self,
            ).allocations() + 1,
            final(self).releases() == old(self).releases(),
    {
        self.allocation_count = if self.allocation_count < u64::MAX {
            self.allocation_count + 1
        } else {
            u64::MAX
        };
        if self.next_addr == usize::MAX {
            return Err(KernelError::ENOMEM);
        }
        let addr = self.next_addr;
        self.next_addr = self.next_addr + 1;
        self.outstanding = Ghost(self.outstanding@.insert(addr));
        Ok(addr)
    }

    fn deallocate(&mut self, addr: usize)
        ensures
            old(self).releases() < u64::MAX ==> final(self).releases() == old(self).releases() + 1,
            final(self).allocations() == old(self).allocations(),
    {
        self.release_count = if self.release_count < u64::MAX {
            self.release_count + 1
        } else {
            u64::MAX
        };
        self.outstanding = Ghost(self.outstanding@.remove(addr));
    }

    fn allocate_zeroed(&mut self, size: usize, align: usize, flags: GfpFlags) -> (r: KernelResult<
        usize,
    >)
        ensures
            old(self).allocations() < u64::MAX ==> final(self).allocations() == old(
                self,
            ).allocations() + 1,
            final(self).releases() == old(self).releases(),
    {
        self.allocate(size, align, flags)
    }
}

/// A fixed-budget capability: it grants at most `budget` bytes in total and
/// then deterministically fails with out-of-memory. Released bytes are not
/// returned to the budget, so the point of exhaustion is reproducible. Meant
/// for substituting the default capability where the failure paths of the
/// containers are exercised.
pub struct BoundedAllocator {
    remaining_bytes: usize,
    next_addr: usize,
    allocation_count: u64,
    release_count: u64,
    outstanding: Ghost<Set<usize>>,
}

impl BoundedAllocator {
    /// The next fresh address this capability will hand out.
    pub closed spec fn next_address(&self) -> usize {
        self.next_addr
    }

    /// Bytes this capability will still grant.
    pub closed spec fn remaining(&self) -> usize {
        self.remaining_bytes
    }

    /// How often `allocate` or `allocate_zeroed` was invoked.
    pub closed spec fn allocations(&self) -> u64 {
        self.allocation_count
    }

    /// How often `deallocate` was invoked.
    pub closed spec fn releases(&self) -> u64 {
        self.release_count
    }

    /// A fresh capability that will grant at most `budget` bytes.
    pub fn new(budget: usize) -> (a: BoundedAllocator)
        ensures
            a.wf(),
            a.live() == Set::<usize>::empty(),
            a.next_address() == 1,
            a.remaining() == budget,
            a.allocations() == 0,
            a.releases() == 0,
    {
        BoundedAllocator {
            remaining_bytes: budget,
            next_addr: 1,
            allocation_count: 0,
            release_count: 0,
            outstanding: Ghost(Set::empty()),
        }
    }

    /// Bytes this capability will still grant.
    pub fn remaining_budget(&self) -> (n: usize)
        ensures
            n == self.remaining(),
    {
        self.remaining_bytes
    }

    /// How often the allocate operations were invoked.
    pub fn allocation_calls(&self) -> (n: u64)
        ensures
            n == self.allocations(),
    {
        self.allocation_count
    }

    /// How often the release operation was invoked.
    pub fn release_calls(&self) -> (n: u64)
        ensures
            n == self.releases(),
    {
        self.release_count
    }
}

impl KernelAllocator for BoundedAllocator {
    closed spec fn live(&self) -> Set<usize> {
        self.outstanding@
    }

    closed spec fn wf(&self) -> bool {
        &&& self.next_addr >= 1
        &&& forall|a: usize| self.outstanding@.contains(a) ==> 1 <= a < self.next_addr
    }

    open spec fn grants(&self, size: usize) -> bool {
        size <= self.remaining() && self.next_address() < usize::MAX
    }

    fn allocate(&mut self, size: usize, align: usize, flags: GfpFlags) -> (r: KernelResult<usize>)
        ensures
            r is Ok <==> size <= old(self).remaining() && old(self).next_address() < usize::MAX,
            r is Ok ==> final(self).remaining() == old(self).remaining() - size,
            r is Err ==> final(self).remaining() == old(self).remaining(),
            old(self).allocations() < u64::MAX ==> final(self).allocations() == old(
                self,
            ).allocations() + 1,
            final(self).releases() == old(self).releases(),
    {
        self.allocation_count = if self.allocation_count < u64::MAX {
            self.allocation_count + 1
        } else {
            u64::MAX
        };
        if size <= self.remaining_bytes && self.next_addr < usize::MAX {
            let addr = self.next_addr;
            self.next_addr = self.next_addr + 1;
            self.remaining_bytes = self.remaining_bytes - size;
            self.outstanding = Ghost(self.outstanding@.insert(addr));
            Ok(addr)
        } else {
            Err(KernelError::ENOMEM)
        }
    }

    fn deallocate(&mut self, addr: usize)
        ensures
            old(self).releases() < u64::MAX ==> final(self).releases() == old(self).releases() + 1,
            final(self).allocations() == old(self).allocations(),
            final(self).remaining() == old(self).remaining(),
    {
        self.release_count = if self.release_count < u64::MAX {
            self.release_count + 1
        } else {
            u64::MAX
        };
        self.outstanding = Ghost(self.outstanding@.remove(addr));
    }

    fn allocate_zeroed(&mut self, size: usize, align: usize, flags: GfpFlags) -> (r: KernelResult<
        usize,
    >)
        ensures
            r is Ok <==> size <= old(self).remaining() && old(self).next_address() < usize::MAX,
            r is Ok ==> final(self).remaining() == old(self).remaining() - size,
            r is Err ==> final(self).remaining() == old(self).remaining(),
            old(self).allocations() < u64::MAX ==> final(self).allocations() == old(
                self,
            ).allocations() + 1,
            final(self).releases() == old(self).releases(),
    {
        self.allocate(size, align, flags)
    }
}

} // verus!
