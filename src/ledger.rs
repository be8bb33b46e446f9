//! A bookkeeping record of the blocks handed out and given back.
//!
//! The ledger stands beside an allocator: each block that is handed out is
//! entered with its `(capacity, alignment)` pair, and giving one back is
//! accepted only once, and only with the pair it was entered with.
use vstd::prelude::*;

use std::collections::HashMap;

use crate::layout::BufferLayout;

verus! {

broadcast use vstd::std_specs::hash::group_hash_axioms;

/// Why the ledger refused an entry.
#[derive(Debug, Clone, Copy, PartialEq, Eq, Structural)]
pub enum LedgerError {
    /// A block at this address is already live.
    AddressInUse,
    /// No live block starts at this address: it was never handed out, or it
    /// was already given back.
    NotLive,
    /// The block is given back with another `(capacity, alignment)` pair than
    /// the one it was handed out with.
    LayoutMismatch,
}

/// What a ledger holds: the live blocks by address, with the pair each was
/// handed out with, and how many blocks were handed out and given back.
pub struct LedgerView {
    pub live: Map<usize, (usize, usize)>,
    pub allocations: nat,
    pub releases: nat,
}

/// The outcome of entering a block at `addr` handed out with `pair`.
pub open spec fn after_alloc(v: LedgerView, addr: usize, pair: (usize, usize)) -> (
    Result<(), LedgerError>,
    LedgerView,
) {
    if v.live.contains_key(addr) {
        (Err(LedgerError::AddressInUse), v)
    } else {
        (
            Ok(()),
            LedgerView {
                live: v.live.insert(addr, pair),
                allocations: v.allocations + 1,
                releases: v.releases,
            },
        )
    }
}

/// The outcome of giving back the block at `addr` with `pair`.
pub open spec fn after_release(v: LedgerView, addr: usize, pair: (usize, usize)) -> (
    Result<(), LedgerError>,
    LedgerView,
) {
    if !v.live.contains_key(addr) {
        (Err(LedgerError::NotLive), v)
    } else if v.live[addr] != pair {
        (Err(LedgerError::LayoutMismatch), v)
    } else {
        (
            Ok(()),
            LedgerView {
                live: v.live.remove(addr),
                allocations: v.allocations,
                releases: v.releases + 1,
            },
        )
    }
}

/// The pair a layout is entered with.
pub open spec fn layout_pair(l: BufferLayout) -> (usize, usize) {
    (l.spec_capacity() as usize, l.spec_align() as usize)
}

/// A block handed out with `layout` and given back with the same layout is
/// accepted back exactly once: the first release succeeds, counts one
/// release and leaves the live blocks as they were before the block was
/// handed out; a second release of it is refused and changes nothing.
pub proof fn lemma_release_exactly_once(v: LedgerView, addr: usize, layout: BufferLayout)
    requires
        !v.live.contains_key(addr),
    ensures
        ({
            let pair = layout_pair(layout);
            let (r1, v1) = after_alloc(v, addr, pair);
            let (r2, v2) = after_release(v1, addr, pair);
            let (r3, v3) = after_release(v2, addr, pair);
            &&& r1 is Ok
            &&& r2 is Ok
            &&& v2.live == v.live
            &&& v2.releases == v.releases + 1
            &&& v2.allocations == v.allocations + 1
            &&& r3 == Err::<(), LedgerError>(LedgerError::NotLive)
            &&& v3 == v2
        }),
{
    let pair = layout_pair(layout);
    let v1 = after_alloc(v, addr, pair).1;
    assert(v1.live.remove(addr) =~= v.live);
}

/// A live block given back with a layout other than the one it was handed
/// out with is refused, and the ledger is left as it was.
pub proof fn lemma_release_needs_same_layout(
    v: LedgerView,
    addr: usize,
    layout: BufferLayout,
    other: BufferLayout,
)
    requires
        !v.live.contains_key(addr),
        layout_pair(layout) != layout_pair(other),
    ensures
        ({
            let (r1, v1) = after_alloc(v, addr, layout_pair(layout));
            let (r2, v2) = after_release(v1, addr, layout_pair(other));
            &&& r2 == Err::<(), LedgerError>(LedgerError::LayoutMismatch)
            &&& v2 == v1
            &&& v1.live.contains_key(addr)
        }),
{
}

/// The blocks live at any time have distinct addresses: a block is entered
/// only at an address that no live block holds, and entering it keeps every
/// other live block as it was.
pub proof fn lemma_live_addresses_distinct(v: LedgerView, addr: usize, pair: (usize, usize))
    ensures
        after_alloc(v, addr, pair).0 is Ok ==> {
            &&& forall|a: usize| v.live.contains_key(a) ==> a != addr
            &&& forall|a: usize| #[trigger]
                v.live.contains_key(a) ==> after_alloc(v, addr, pair).1.live.contains_key(a)
                && after_alloc(v, addr, pair).1.live[a] == v.live[a]
        },
{
}

/// The blocks handed out and given back so far.
pub struct AllocLedger {
    live: HashMap<usize, (usize, usize)>,
    allocations: u64,
    releases: u64,
}

impl View for AllocLedger {
    type V = LedgerView;

    closed spec fn view(&self) -> LedgerView {
        LedgerView {
            live: self.live@,
            allocations: self.allocations as nat,
            releases: self.releases as nat,
        }
    }
}

impl AllocLedger {
    /// A ledger with no block live and nothing counted.
    pub fn new() -> (r: AllocLedger)
        ensures
            r@.live == Map::<usize, (usize, usize)>::empty(),
            r@.allocations == 0,
            r@.releases == 0,
    {
        AllocLedger { live: HashMap::new(), allocations: 0, releases: 0 }
    }

    /// Whether a block at `addr` is live.
    pub fn is_live(&self, addr: usize) -> (r: bool)
        ensures
            r == self@.live.contains_key(addr),
    {
        self.live.contains_key(&addr)
    }

    /// How many blocks were handed out.
    pub fn allocations(&self) -> (r: u64)
        ensures
            r == self@.allocations,
    {
        self.allocations
    }

    /// How many blocks were given back.
    pub fn releases(&self) -> (r: u64)
        ensures
            r == self@.releases,
    {
        self.releases
    }

    /// Enters the block at `addr`, handed out with `layout`. A second live
    /// block at the same address is refused.
    pub fn record_alloc(&mut self, addr: usize, layout: &BufferLayout) -> (r: Result<(), LedgerError>)
        requires
            old(self)@.allocations < u64::MAX,
        ensures
            (r, final(self)@) == after_alloc(old(self)@, addr, layout_pair(*layout)),
    {
        if self.live.contains_key(&addr) {
            return Err(LedgerError::AddressInUse);
        }
        let pair: (usize, usize) = (layout.capacity(), layout.align());
        self.live.insert(addr, pair);
        self.allocations = self.allocations + 1;
        Ok(())
    }

    /// Gives back the block at `addr` with `layout`: accepted once for each
    /// block handed out, and only with the layout it was handed out with.
    pub fn record_release(&mut self, addr: usize, layout: &BufferLayout) -> (r: Result<(), LedgerError>)
        requires
            old(self)@.releases < u64::MAX,
        ensures
            (r, final(self)@) == after_release(old(self)@, addr, layout_pair(*layout)),
    {
        let pair: (usize, usize) = (layout.capacity(), layout.align());
        match self.live.get(&addr) {
            None => {
                return Err(LedgerError::NotLive);
            },
            Some(p) => {
                if p.0 != pair.0 || p.1 != pair.1 {
                    return Err(LedgerError::LayoutMismatch);
                }
            },
        }
        self.live.remove(&addr);
        self.releases = self.releases + 1;
        Ok(())
    }
}

} // verus!
