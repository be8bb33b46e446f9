//! Fixed-capacity byte buffers whose storage starts at a caller-chosen
//! power-of-two alignment.
//!
//! The library decides everything about such a buffer that can be decided on
//! plain values: whether a `(capacity, alignment)` pair forms a usable layout,
//! whether a block handed back by the system allocator is usable, which bytes
//! may be read and written, and which layout the block must be returned with.
pub mod align;
pub mod layout;
pub mod buffer;
pub mod ledger;
