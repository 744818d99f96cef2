//! The allocation bridge: raw, wholly uninitialized blocks and the accounting of their ends.
use vstd::prelude::*;

use crate::layout::ValueLayout;

verus! {

/// A failure while obtaining a raw block.
#[derive(Debug, PartialEq, Eq, Structural)]
pub enum AllocError {
    /// The allocator could not supply a block of the requested size.
    AllocFailure,
}

/// An allocated block of exactly one value's size. Its bytes carry no meaning until a
/// session has written them; nothing reads them before that.
pub struct RawBlock {
    bytes: Vec<u8>,
}

impl RawBlock {
    /// The current contents of the block.
    pub closed spec fn bytes(&self) -> Seq<u8> {
        self.bytes@
    }

    pub open spec fn size(&self) -> nat {
        self.bytes().len()
    }

    /// The block for a zero-sized value: it holds no storage and the allocator never
    /// sees it.
    pub(crate) fn empty() -> (r: RawBlock)
        ensures
            r.size() == 0,
    {
        RawBlock { bytes: Vec::new() }
    }

    /// A fresh zero-filled block of `size` bytes that the allocator does not count: the
    /// scratch place in which one array element is built before it is moved into the
    /// array's own counted storage.
    pub(crate) fn scratch(size: usize) -> (r: RawBlock)
        ensures
            r.size() == size,
    {
        let mut bytes: Vec<u8> = Vec::new();
        let mut k: usize = 0;
        while k < size
            invariant
                k <= size,
                bytes@.len() == k,
            decreases size - k,
        {
            bytes.push(0u8);
            k = k + 1;
        }
        RawBlock { bytes }
    }

    /// Writes `value` over the bytes `[offset, offset + value.len())`.
    pub(crate) fn write(&mut self, offset: usize, value: &Vec<u8>)
        requires
            offset + value@.len() <= old(self).size(),
        ensures
            final(self).bytes() == write_at(old(self).bytes(), offset as int, value@),
    {
        let n = value.len();
        let total = self.bytes.len();
        let mut k: usize = 0;
        while k < n
            invariant
                n == value@.len(),
                total == old(self).size(),
                offset + n <= old(self).size(),
                k <= n,
                self.bytes().len() == old(self).size(),
                forall|x: int|
                    0 <= x < self.bytes().len() ==> #[trigger] self.bytes()[x] == if offset <= x
                        < offset + k {
                        value@[x - offset]
                    } else {
                        old(self).bytes()[x]
                    },
            decreases n - k,
        {
            self.bytes.set(offset + k, value[k]);
            k = k + 1;
        }
        assert(self.bytes() =~= write_at(old(self).bytes(), offset as int, value@));
    }

    /// The block's bytes, for reading a finished value.
    pub(crate) fn contents(&self) -> (r: &Vec<u8>)
        ensures
            r@ == self.bytes(),
    {
        &self.bytes
    }

    /// Copies out the bytes `[offset, offset + len)`.
    pub(crate) fn read(&self, offset: usize, len: usize) -> (r: Vec<u8>)
        requires
            offset + len <= self.size(),
        ensures
            r@ == self.bytes().subrange(offset as int, offset + len),
    {
        let mut out: Vec<u8> = Vec::new();
        let total = self.bytes.len();
        let mut k: usize = 0;
        while k < len
            invariant
                total == self.size(),
                offset + len <= self.size(),
                k <= len,
                out@ == self.bytes().subrange(offset as int, offset + k),
            decreases len - k,
        {
            out.push(self.bytes[offset + k]);
            k = k + 1;
            assert(out@ =~= self.bytes().subrange(offset as int, offset + k));
        }
        out
    }
}

/// `bytes` with `value` written from position `offset` on.
pub open spec fn write_at(bytes: Seq<u8>, offset: int, value: Seq<u8>) -> Seq<u8> {
    Seq::new(
        bytes.len(),
        |x: int|
            if offset <= x < offset + value.len() {
                value[x - offset]
            } else {
                bytes[x]
            },
    )
}

/// Hands out raw blocks and counts each block's transitions. A block is born by an
/// allocation and ends exactly once: freed, or finalized into a value.
#[derive(Debug, PartialEq, Eq, Structural)]
pub struct Allocator {
    allocations: u64,
    deallocations: u64,
    finalizations: u64,
}

impl Allocator {
    /// Blocks handed out so far.
    pub closed spec fn allocations(&self) -> nat {
        self.allocations as nat
    }

    /// Blocks freed so far.
    pub closed spec fn deallocations(&self) -> nat {
        self.deallocations as nat
    }

    /// Blocks that became the storage of a finalized value so far.
    pub closed spec fn finalizations(&self) -> nat {
        self.finalizations as nat
    }

    /// Blocks handed out that have reached neither end yet.
    pub open spec fn in_flight(&self) -> int {
        self.allocations() - self.deallocations() - self.finalizations()
    }

    /// None of the counters is at its limit, so one more transition of each kind can be
    /// recorded.
    pub open spec fn has_room(&self) -> bool {
        &&& self.allocations() < u64::MAX
        &&& self.deallocations() < u64::MAX
        &&& self.finalizations() < u64::MAX
    }

    pub fn new() -> (r: Allocator)
        ensures
            r.allocations() == 0,
            r.deallocations() == 0,
            r.finalizations() == 0,
    {
        Allocator { allocations: 0, deallocations: 0, finalizations: 0 }
    }

    pub fn allocation_count(&self) -> (r: u64)
        ensures
            r == self.allocations(),
    {
        self.allocations
    }

    pub fn deallocation_count(&self) -> (r: u64)
        ensures
            r == self.deallocations(),
    {
        self.deallocations
    }

    pub fn finalization_count(&self) -> (r: u64)
        ensures
            r == self.finalizations(),
    {
        self.finalizations
    }

    /// Obtains a block of `layout.size` bytes from the process allocator. On failure the
    /// error is returned and nothing is counted.
    pub fn allocate(&mut self, layout: ValueLayout) -> (r: Result<RawBlock, AllocError>)
        requires
            layout.size > 0,
            old(self).has_room(),
        ensures
            match r {
                Ok(b) => {
                    &&& b.size() == layout.size
                    &&& final(self).allocations() == old(self).allocations() + 1
                    &&& final(self).deallocations() == old(self).deallocations()
                    &&& final(self).finalizations() == old(self).finalizations()
                },
                Err(e) => *final(self) == *old(self),
            },
    {
        let mut bytes: Vec<u8> = Vec::new();
        match bytes.try_reserve(layout.size) {
            Ok(()) => {},
            Err(_) => {
                return Err(AllocError::AllocFailure);
            },
        }
        let mut k: usize = 0;
        while k < layout.size
            invariant
                k <= layout.size,
                bytes@.len() == k,
            decreases layout.size - k,
        {
            bytes.push(0u8);
            k = k + 1;
        }
        self.allocations = self.allocations + 1;
        Ok(RawBlock { bytes })
    }

    /// Frees a block. The block is consumed, so it cannot be freed twice or finalized
    /// afterwards.
    pub fn deallocate(&mut self, block: RawBlock)
        requires
            old(self).deallocations() < u64::MAX,
        ensures
            final(self).allocations() == old(self).allocations(),
            final(self).deallocations() == old(self).deallocations() + 1,
            final(self).finalizations() == old(self).finalizations(),
    {
        let _ = block;
        self.deallocations = self.deallocations + 1;
    }

    /// Records that a block became the storage of a finalized value.
    pub(crate) fn note_finalized(&mut self)
        requires
            old(self).finalizations() < u64::MAX,
        ensures
            final(self).allocations() == old(self).allocations(),
            final(self).deallocations() == old(self).deallocations(),
            final(self).finalizations() == old(self).finalizations() + 1,
    {
        self.finalizations = self.finalizations + 1;
    }

    /// Records the allocation of a block that a session obtained by itself.
    pub(crate) fn note_allocated(&mut self)
        requires
            old(self).allocations() < u64::MAX,
        ensures
            final(self).allocations() == old(self).allocations() + 1,
            final(self).deallocations() == old(self).deallocations(),
            final(self).finalizations() == old(self).finalizations(),
    {
        self.allocations = self.allocations + 1;
    }

    /// Records the release of a block that a session frees by itself.
    pub(crate) fn note_deallocated(&mut self)
        requires
            old(self).deallocations() < u64::MAX,
        ensures
            final(self).allocations() == old(self).allocations(),
            final(self).deallocations() == old(self).deallocations() + 1,
            final(self).finalizations() == old(self).finalizations(),
    {
        self.deallocations = self.deallocations + 1;
    }
}

} // verus!
