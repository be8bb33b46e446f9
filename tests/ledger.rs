use aligned_mem::layout::BufferLayout;
use aligned_mem::ledger::{AllocLedger, LedgerError};

fn layout(cap: usize, align: usize) -> BufferLayout {
    BufferLayout::from_size_align(cap, align).unwrap()
}

#[test]
fn release_happens_exactly_once() {
    let mut g = AllocLedger::new();
    let l = layout(128, 32);
    assert_eq!(g.record_alloc(4096, &l), Ok(()));
    assert!(g.is_live(4096));
    assert_eq!(g.record_release(4096, &l), Ok(()));
    assert!(!g.is_live(4096));
    assert_eq!(g.record_release(4096, &l), Err(LedgerError::NotLive));
    assert_eq!(g.allocations(), 1);
    assert_eq!(g.releases(), 1);
}

#[test]
fn release_with_another_layout_is_refused() {
    let mut g = AllocLedger::new();
    assert_eq!(g.record_alloc(4096, &layout(128, 32)), Ok(()));
    assert_eq!(
        g.record_release(4096, &layout(128, 16)),
        Err(LedgerError::LayoutMismatch)
    );
    assert_eq!(
        g.record_release(4096, &layout(64, 32)),
        Err(LedgerError::LayoutMismatch)
    );
    assert!(g.is_live(4096));
    assert_eq!(g.releases(), 0);
    assert_eq!(g.record_release(4096, &layout(128, 32)), Ok(()));
}

#[test]
fn unknown_block_is_not_live() {
    let mut g = AllocLedger::new();
    assert_eq!(g.record_release(64, &layout(8, 8)), Err(LedgerError::NotLive));
    assert_eq!(g.releases(), 0);
}

#[test]
fn live_blocks_have_distinct_addresses() {
    let mut g = AllocLedger::new();
    let blocks = [(1024usize, 64usize, 8192usize), (16, 16, 16384), (0, 8, 24576), (4096, 4096, 40960)];
    for (cap, align, addr) in blocks {
        assert_eq!(g.record_alloc(addr, &layout(cap, align)), Ok(()));
    }
    assert_eq!(
        g.record_alloc(16384, &layout(32, 32)),
        Err(LedgerError::AddressInUse)
    );
    assert_eq!(g.allocations(), 4);
    for (cap, align, addr) in blocks {
        assert_eq!(g.record_release(addr, &layout(cap, align)), Ok(()));
    }
    assert_eq!(g.releases(), 4);
    assert_eq!(g.record_alloc(16384, &layout(32, 32)), Ok(()));
}
