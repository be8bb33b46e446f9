//! An owned, fixed-capacity byte buffer at an aligned address.
//!
//! The buffer offers no operation that changes its capacity: its bytes are
//! addressed only within `[0, capacity)`, and it is given up once, by
//! `release`, which hands back the exact layout it was allocated with.
use vstd::prelude::*;

use crate::align::{aligned_to, is_aligned};
use crate::layout::{AllocError, BufferLayout};

verus! {

/// The outcome `check_block` gives for a block at `addr` allocated with `layout`.
pub open spec fn block_outcome(layout: BufferLayout, addr: nat) -> Result<(), AllocError> {
    if addr == 0 {
        Err(AllocError::Exhausted)
    } else if !aligned_to(addr, layout.spec_align()) {
        Err(AllocError::Misaligned)
    } else {
        Ok(())
    }
}

/// Decides whether the block the system allocator returned at `addr` for
/// `layout` can back a buffer: a null address means the allocator is out of
/// memory, and the block must start at a multiple of the alignment.
pub fn check_block(layout: &BufferLayout, addr: usize) -> (r: Result<(), AllocError>)
    ensures
        r == block_outcome(*layout, addr as nat),
{
    if addr == 0 {
        return Err(AllocError::Exhausted);
    }
    let align = layout.align();
    if !is_aligned(addr, align) {
        return Err(AllocError::Misaligned);
    }
    Ok(())
}

/// A block that `check_block` accepts for a layout is non-null and starts at a
/// multiple of the layout's alignment.
pub proof fn lemma_accepted_block_aligned(layout: BufferLayout, addr: usize)
    requires
        block_outcome(layout, addr as nat) is Ok,
    ensures
        addr != 0,
        addr as nat % layout.spec_align() == 0,
{
}

/// A block of `capacity` bytes starting at an address that is a multiple of
/// the alignment, with the layout it must be released with.
pub struct AlignedBuffer {
    storage: Vec<u8>,
    layout: BufferLayout,
    addr: usize,
}

impl View for AlignedBuffer {
    type V = Seq<u8>;

    /// The bytes of the block, `capacity` of them.
    closed spec fn view(&self) -> Seq<u8> {
        self.storage@
    }
}

impl AlignedBuffer {
    /// The bytes fill the layout's capacity, and the block is one that
    /// `check_block` accepts for that layout.
    pub closed spec fn wf(&self) -> bool {
        &&& self.storage@.len() == self.layout.spec_capacity()
        &&& block_outcome(self.layout, self.addr as nat) == Ok::<(), AllocError>(())
    }

    /// The layout the block was allocated with.
    pub closed spec fn spec_layout(&self) -> BufferLayout {
        self.layout
    }

    /// The address the block starts at.
    pub closed spec fn spec_address(&self) -> nat {
        self.addr as nat
    }

    /// Takes over the block at `addr`, allocated with `layout`, whose bytes are
    /// `storage`. The buffer's capacity is the layout's, its length zero.
    pub fn from_block(layout: BufferLayout, addr: usize, storage: Vec<u8>) -> (r: AlignedBuffer)
        requires
            block_outcome(layout, addr as nat) is Ok,
            storage@.len() == layout.spec_capacity(),
        ensures
            r.wf(),
            r.spec_layout() == layout,
            r.spec_address() == addr,
            r@ == storage@,
    {
        AlignedBuffer { storage, layout, addr }
    }

    /// The number of bytes the block holds.
    pub fn capacity(&self) -> (r: usize)
        requires
            self.wf(),
        ensures
            r == self.spec_layout().spec_capacity(),
            r == self@.len(),
    {
        self.layout.capacity()
    }

    /// The length the buffer reports: no operation ever grows it.
    pub fn len(&self) -> (r: usize)
        ensures
            r == 0,
    {
        0
    }

    /// The alignment of the block's address.
    pub fn alignment(&self) -> (r: usize)
        ensures
            r == self.spec_layout().spec_align(),
    {
        self.layout.align()
    }

    /// The address the block starts at, always a multiple of the alignment.
    pub fn address(&self) -> (r: usize)
        requires
            self.wf(),
        ensures
            r == self.spec_address(),
            r != 0,
            aligned_to(r as nat, self.spec_layout().spec_align()),
    {
        self.addr
    }

    /// The layout the block was allocated with and must be released with.
    pub fn layout(&self) -> (r: BufferLayout)
        ensures
            r == self.spec_layout(),
    {
        self.layout
    }

    /// The byte at offset `i`.
    pub fn read(&self, i: usize) -> (r: u8)
        requires
            i < self@.len(),
        ensures
            r == self@[i as int],
    {
        self.storage[i]
    }

    /// Sets the byte at offset `i` to `b`; nothing else changes.
    pub fn write(&mut self, i: usize, b: u8)
        requires
            old(self).wf(),
            i < old(self)@.len(),
        ensures
            final(self).wf(),
            final(self)@ == old(self)@.update(i as int, b),
            final(self).spec_layout() == old(self).spec_layout(),
            final(self).spec_address() == old(self).spec_address(),
    {
        self.storage.set(i, b);
    }

    /// Overwrites every byte of the block with the bytes of `src`, which holds
    /// exactly `capacity` of them.
    pub fn copy_from(&mut self, src: &[u8])
        requires
            old(self).wf(),
            src@.len() == old(self)@.len(),
        ensures
            final(self).wf(),
            final(self)@ == src@,
            final(self).spec_layout() == old(self).spec_layout(),
            final(self).spec_address() == old(self).spec_address(),
    {
        let n = src.len();
        let mut i: usize = 0;
        while i < n
            invariant
                self.wf(),
                n == src@.len(),
                n == self@.len(),
                i <= n,
                self.spec_layout() == old(self).spec_layout(),
                self.spec_address() == old(self).spec_address(),
                forall|j: int| 0 <= j < i ==> self@[j] == src@[j],
            decreases n - i,
        {
            self.write(i, src[i]);
            i = i + 1;
        }
        assert(self@ =~= src@);
    }

    /// All `capacity` bytes of the block.
    pub fn as_slice(&self) -> (r: &[u8])
        ensures
            r@ == self@,
    {
        self.storage.as_slice()
    }

    /// Gives the block up: its bytes and the layout it was allocated with,
    /// which is the one it must be returned to the allocator with.
    pub fn release(self) -> (r: (Vec<u8>, BufferLayout))
        requires
            self.wf(),
        ensures
            r.0@.len() == r.1.spec_capacity(),
            r.0@ == self@,
            r.1 == self.spec_layout(),
    {
        (self.storage, self.layout)
    }
}

} // verus!
