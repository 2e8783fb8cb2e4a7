//! The owning sequence: a growable, contiguous sequence of values with
//! geometric growth, owned together with the capability that allocated its
//! block.
use crate::error::{KernelError, KernelResult};
use crate::mem::allocator::KernelAllocator;
use crate::mem::GFP_KERNEL;
use vstd::layout::size_of;
use vstd::prelude::*;

verus! {

/// Geometric growth: 4 slots the first time, then double the capacity.
pub open spec fn next_capacity(cap: int) -> int {
    if cap == 0 {
        4
    } else {
        2 * cap
    }
}

/// The byte size of the block that the next growth of a sequence with
/// capacity `cap` will request.
pub open spec fn grow_request_bytes<T>(cap: int) -> int {
    next_capacity(cap) * size_of::<T>()
}

/// An owning, contiguous, growable sequence of `T`, holding the capability
/// `A` that allocated its block. The initialized prefix of the block — the
/// slots `[0, length)` — is modeled by `data`; the slots `[length, capacity)`
/// are reserved, uninitialized memory, and relocation into a fresh block
/// during growth is modeled by `data` persisting unchanged. `capacity == 0`
/// means no allocation at all: `addr` is then a zero sentinel, never
/// dereferenced and never released. A zero-sized `T` needs no slots, so such
/// a sequence never touches the allocator and its capacity stays 0.
pub struct KVec<T, A: KernelAllocator> {
    data: Vec<T>,
    cap: usize,
    addr: usize,
    alloc: A,
}

impl<T, A: KernelAllocator> View for KVec<T, A> {
    type V = Seq<T>;

    closed spec fn view(&self) -> Seq<T> {
        self.data@
    }
}

impl<T, A: KernelAllocator> KVec<T, A> {
    /// Number of slots currently reserved.
    pub closed spec fn capacity_spec(&self) -> usize {
        self.cap
    }

    /// The address of the owned block (0 while nothing is allocated).
    pub closed spec fn address(&self) -> usize {
        self.addr
    }

    /// The capability owned by this sequence.
    pub closed spec fn allocator(&self) -> A {
        self.alloc
    }

    /// The sequence's invariant: the capability is well-formed; for a
    /// zero-sized `T` there is never an allocation; otherwise the length
    /// never exceeds the capacity, a block exists exactly while the capacity
    /// is nonzero, and that block is live in the owning capability.
    pub open spec fn wf(&self) -> bool {
        &&& self.allocator().wf()
        &&& if size_of::<T>() == 0 {
            self.capacity_spec() == 0 && self.address() == 0
        } else {
            &&& self@.len() <= self.capacity_spec()
            &&& (self.capacity_spec() == 0 <==> self.address() == 0)
            &&& (self.capacity_spec() != 0 ==> self.allocator().live().contains(self.address()))
        }
    }

    /// An empty sequence owning the given capability. No allocation is
    /// performed: capacity and length are zero.
    pub fn new(alloc: A) -> (v: KVec<T, A>)
        requires
            alloc.wf(),
        ensures
            v.wf(),
            v@ == Seq::<T>::empty(),
            v.capacity_spec() == 0,
            v.allocator() == alloc,
    {
        KVec { data: Vec::new(), cap: 0, addr: 0, alloc }
    }

    /// Number of initialized slots.
    pub fn len(&self) -> (n: usize)
        ensures
            n == self@.len(),
    {
        self.data.len()
    }

    /// Number of reserved slots.
    pub fn capacity(&self) -> (n: usize)
        ensures
            n == self.capacity_spec(),
    {
        self.cap
    }

    /// Replaces the block by a fresh one of the next capacity: requests the
    /// new block, relocates the `length` initialized elements into it
    /// bitwise, releases the previous block (only if one existed), and
    /// adopts the new block and capacity. The contents are untouched. If the
    /// request fails — or the new byte size cannot even be expressed — the
    /// prior state remains fully intact and out-of-memory is returned.
    fn grow(&mut self) -> (r: KernelResult<()>)
        requires
            old(self).wf(),
            size_of::<T>() != 0,
            old(self)@.len() == old(self).capacity_spec(),
        ensures
            final(self).wf(),
            final(self)@ == old(self)@,
            grow_request_bytes::<T>(old(self).capacity_spec() as int) <= usize::MAX
                && old(self).allocator().grants(
                grow_request_bytes::<T>(old(self).capacity_spec() as int) as usize,
            ) ==> r is Ok,
            match r {
                Ok(()) => {
                    &&& final(self).capacity_spec() == next_capacity(
                        old(self).capacity_spec() as int,
                    )
                    &&& final(self).address() != 0
                    &&& !old(self).allocator().live().contains(final(self).address())
                    &&& old(self).capacity_spec() == 0 ==> final(self).allocator().live()
                        == old(self).allocator().live().insert(final(self).address())
                    &&& old(self).capacity_spec() != 0 ==> final(self).allocator().live()
                        == old(self).allocator().live().insert(final(self).address()).remove(
                        old(self).address())
                },
                Err(e) => {
                    &&& e == KernelError::ENOMEM
                    &&& final(self).capacity_spec() == old(self).capacity_spec()
                    &&& final(self).address() == old(self).address()
                    &&& final(self).allocator().live() == old(self).allocator().live()
                },
            },
    {
        let new_cap: usize = if self.cap == 0 {
            4
        } else {
            match self.cap.checked_mul(2) {
                Some(c) => c,
                None => {
                    proof {
                        let c = self.cap as int;
                        let s = size_of::<T>() as int;
                        assert(2 * c * s >= 2 * c) by (nonlinear_arith)
                            requires
                                s >= 1,
                                c >= 0,
                        ;
                    }
                    return Err(KernelError::ENOMEM);
                },
            }
        };
        let elem_size = core::mem::size_of::<T>();
        let bytes = match new_cap.checked_mul(elem_size) {
            Some(b) => b,
            None => {
                return Err(KernelError::ENOMEM);
            },
        };
        proof {
            assert(new_cap as int * elem_size as int > 0) by (nonlinear_arith)
                requires
                    new_cap > 0,
                    elem_size > 0,
            ;
        }
        let align = core::mem::align_of::<T>();
        match self.alloc.allocate(bytes, align, GFP_KERNEL) {
            Ok(new_addr) => {
                if self.cap > 0 {
                    self.alloc.deallocate(self.addr);
                }
                self.addr = new_addr;
                self.cap = new_cap;
                Ok(())
            },
            Err(e) => Err(e),
        }
    }

    /// Appends `value`: grows first if length has reached capacity (never
    /// for a zero-sized `T`), then writes `value` into the next slot. On
    /// success the sequence is exactly the old one with `value` appended,
    /// and the capacity followed the geometric schedule; an append that
    /// needs no growth cannot fail, nor can one whose growth request the
    /// capability promises to grant. On failure — out-of-memory, only ever
    /// during growth — length, capacity, block and contents are left
    /// unchanged (strong exception safety).
    pub fn push(&mut self, value: T) -> (r: KernelResult<()>)
        requires
            old(self).wf(),
        ensures
            final(self).wf(),
            (size_of::<T>() == 0 || old(self)@.len() < old(self).capacity_spec()) ==> r is Ok,
            grow_request_bytes::<T>(old(self).capacity_spec() as int) <= usize::MAX
                && old(self).allocator().grants(
                grow_request_bytes::<T>(old(self).capacity_spec() as int) as usize,
            ) ==> r is Ok,
            match r {
                Ok(()) => {
                    &&& final(self)@ == old(self)@.push(value)
                    &&& (size_of::<T>() == 0 || old(self)@.len() < old(self).capacity_spec())
                        ==> final(self).capacity_spec() == old(self).capacity_spec()
                            && final(self).address() == old(self).address()
                            && final(self).allocator() == old(self).allocator()
                    &&& (size_of::<T>() != 0 && old(self)@.len() == old(self).capacity_spec())
                        ==> final(self).capacity_spec()
                            == next_capacity(old(self).capacity_spec() as int)
                },
                Err(e) => {
                    &&& e == KernelError::ENOMEM
                    &&& size_of::<T>() != 0 && old(self)@.len() == old(self).capacity_spec()
                    &&& final(self)@ == old(self)@
                    &&& final(self).capacity_spec() == old(self).capacity_spec()
                    &&& final(self).address() == old(self).address()
                    &&& final(self).allocator().live() == old(self).allocator().live()
                },
            },
    {
        if core::mem::size_of::<T>() == 0 {
            self.data.push(value);
            return Ok(());
        }
        if self.data.len() == self.cap {
            match self.grow() {
                Ok(()) => {},
                Err(e) => {
                    return Err(e);
                },
            }
        }
        self.data.push(value);
        Ok(())
    }

    /// Removes the last value, if any: returns nothing on an empty
    /// sequence, otherwise exactly the most recently appended value still
    /// present, leaving its slot uninitialized. Capacity and block are
    /// untouched.
    pub fn pop(&mut self) -> (r: Option<T>)
        requires
            old(self).wf(),
        ensures
            final(self).wf(),
            final(self).capacity_spec() == old(self).capacity_spec(),
            final(self).address() == old(self).address(),
            final(self).allocator() == old(self).allocator(),
            match r {
                Some(v) => old(self)@.len() > 0 && v == old(self)@.last()
                    && final(self)@ == old(self)@.drop_last(),
                None => old(self)@.len() == 0 && final(self)@ == old(self)@,
            },
    {
        self.data.pop()
    }

    /// Indexed read access; the index must lie within the initialized
    /// prefix (out-of-bounds access is the caller's to rule out).
    pub fn get(&self, index: usize) -> (r: &T)
        requires
            index < self@.len(),
        ensures
            *r == self@[index as int],
    {
        &self.data[index]
    }

    /// Indexed write access: an exclusive reference into the initialized
    /// prefix. Only the value at `index` changes; length, capacity, block
    /// and capability stay as they are.
    pub fn get_mut(&mut self, index: usize) -> (r: &mut T)
        requires
            old(self).wf(),
            index < old(self)@.len(),
        ensures
            *r == old(self)@[index as int],
            final(self)@ == old(self)@.update(index as int, *final(r)),
            final(self).capacity_spec() == old(self).capacity_spec(),
            final(self).address() == old(self).address(),
            final(self).allocator() == old(self).allocator(),
            final(self).wf(),
    {
        &mut self.data[index]
    }

    /// Read-only traversal of the initialized prefix, as a slice backed
    /// directly by the contiguous block.
    pub fn iter(&self) -> (r: &[T])
        ensures
            r@ == self@,
    {
        self.data.as_slice()
    }

    /// Mutable traversal of the initialized prefix, as a slice backed
    /// directly by the contiguous block. A slice cannot change its length,
    /// so element-wise writes through it leave the sequence well-formed.
    pub fn iter_mut(&mut self) -> (r: &mut [T])
        ensures
            r@ == old(self)@,
            final(self)@ == final(r)@,
            final(self).capacity_spec() == old(self).capacity_spec(),
            final(self).address() == old(self).address(),
            final(self).allocator() == old(self).allocator(),
            old(self).wf() && final(r)@.len() == old(self)@.len() ==> final(self).wf(),
    {
        self.data.as_mut_slice()
    }

    /// Destroys the sequence: drops the initialized elements in index
    /// order, then — only if a block exists — releases it through the
    /// capability, exactly once. Returns the capability, with the block no
    /// longer live.
    pub fn free(self) -> (a: A)
        requires
            self.wf(),
        ensures
            a.wf(),
            self.capacity_spec() == 0 ==> a == self.allocator(),
            self.capacity_spec() != 0 ==> a.live() == self.allocator().live().remove(
                self.address(),
            ),
    {
        let KVec { data: _, cap, addr, alloc } = self;
        let mut alloc = alloc;
        if cap > 0 {
            alloc.deallocate(addr);
        }
        alloc
    }
}

/// Growth preserves contents: appending one value leaves every value already
/// in the sequence at its original index, extends the length by one, and
/// puts the new value at the end.
pub proof fn lemma_append_preserves_existing<T>(s: Seq<T>, v: T)
    ensures
        s.push(v).len() == s.len() + 1,
        forall|i: int| 0 <= i < s.len() ==> s.push(v)[i] == s[i],
        s.push(v)[s.len() as int] == v,
{
}

/// Append and remove-last are a round trip over the model: removing the last
/// value after an append returns the appended value and restores the
/// sequence, so `n` appends followed by `k <= n` removals return the last
/// `k` values in reverse append order.
pub proof fn lemma_push_pop_round_trip<T>(s: Seq<T>, v: T)
    ensures
        s.push(v).last() == v,
        s.push(v).drop_last() == s,
{
    assert(s.push(v).drop_last() =~= s);
}

} // verus!
