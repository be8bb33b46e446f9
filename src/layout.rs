//! The `(capacity, alignment)` pair a buffer is allocated and released with.
use vstd::prelude::*;

use crate::align::{is_pow2, is_power_of_two, round_up, rounded_size_fits};

verus! {

/// Why an aligned buffer could not be had.
#[derive(Debug, Clone, Copy, PartialEq, Eq, Structural)]
pub enum AllocError {
    /// The alignment is not a power of two.
    BadAlignment,
    /// The capacity, rounded up to the alignment, exceeds `isize::MAX`.
    CapacityOverflow,
    /// The system allocator had no memory for the request.
    Exhausted,
    /// The system allocator returned a block that does not start at the alignment.
    Misaligned,
}

/// Whether `(cap, align)` describes a block the system allocator accepts.
pub open spec fn valid_layout(cap: nat, align: nat) -> bool {
    is_pow2(align) && round_up(cap, align) <= isize::MAX
}

/// The error `BufferLayout::from_size_align` reports for `(cap, align)`.
pub open spec fn layout_error(cap: nat, align: nat) -> AllocError {
    if !is_pow2(align) {
        AllocError::BadAlignment
    } else {
        AllocError::CapacityOverflow
    }
}

/// A byte capacity and a power-of-two alignment that the system allocator accepts.
#[derive(Debug, Clone, Copy)]
pub struct BufferLayout {
    cap: usize,
    align: usize,
}

impl BufferLayout {
    #[verifier::type_invariant]
    spec fn inv(&self) -> bool {
        valid_layout(self.cap as nat, self.align as nat)
    }

    /// The capacity in bytes.
    pub closed spec fn spec_capacity(&self) -> nat {
        self.cap as nat
    }

    /// The alignment in bytes.
    pub closed spec fn spec_align(&self) -> nat {
        self.align as nat
    }

    /// Builds the layout of a `cap`-byte block aligned to `align`, or says why
    /// there is none.
    pub fn from_size_align(cap: usize, align: usize) -> (r: Result<BufferLayout, AllocError>)
        ensures
            r is Ok <==> valid_layout(cap as nat, align as nat),
            r matches Ok(l) ==> l.spec_capacity() == cap && l.spec_align() == align,
            r matches Err(e) ==> e == layout_error(cap as nat, align as nat),
    {
        if !is_power_of_two(align) {
            return Err(AllocError::BadAlignment);
        }
        proof {
            assert(align > 0);
        }
        if !rounded_size_fits(cap, align) {
            return Err(AllocError::CapacityOverflow);
        }
        Ok(BufferLayout { cap, align })
    }

    /// The capacity in bytes.
    pub fn capacity(&self) -> (r: usize)
        ensures
            r == self.spec_capacity(),
    {
        self.cap
    }

    /// The alignment in bytes, a power of two.
    pub fn align(&self) -> (r: usize)
        ensures
            r == self.spec_align(),
            is_pow2(r as nat),
            r > 0,
            valid_layout(self.spec_capacity(), r as nat),
    {
        proof {
            use_type_invariant(self);
        }
        self.align
    }
}

} // verus!
