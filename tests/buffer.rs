use aligned_mem::buffer::{check_block, AlignedBuffer};
use aligned_mem::layout::{AllocError, BufferLayout};

fn buffer(cap: usize, align: usize, addr: usize) -> AlignedBuffer {
    let l = BufferLayout::from_size_align(cap, align).unwrap();
    assert!(check_block(&l, addr).is_ok());
    AlignedBuffer::from_block(l, addr, vec![0u8; cap])
}

#[test]
fn accepted_block_is_aligned() {
    let l = BufferLayout::from_size_align(100, 64).unwrap();
    assert_eq!(check_block(&l, 4096), Ok(()));
    let b = AlignedBuffer::from_block(l, 4096, vec![0u8; 100]);
    assert_eq!(b.address(), 4096);
    assert_eq!(b.address() % b.alignment(), 0);
}

#[test]
fn null_block_means_exhausted() {
    let l = BufferLayout::from_size_align(100, 64).unwrap();
    assert_eq!(check_block(&l, 0), Err(AllocError::Exhausted));
}

#[test]
fn misaligned_block_is_refused() {
    let l = BufferLayout::from_size_align(100, 64).unwrap();
    assert_eq!(check_block(&l, 4096 + 32), Err(AllocError::Misaligned));
    let l1 = BufferLayout::from_size_align(100, 1).unwrap();
    assert_eq!(check_block(&l1, 4097), Ok(()));
}

#[test]
fn capacity_is_requested_and_length_zero() {
    let b = buffer(1024, 16, 16 * 1000);
    assert_eq!(b.capacity(), 1024);
    assert_eq!(b.len(), 0);
    assert_eq!(b.alignment(), 16);
    assert_eq!(b.as_slice().len(), 1024);
}

#[test]
fn zero_capacity_buffer() {
    let b = buffer(0, 16, 64);
    assert_eq!(b.capacity(), 0);
    assert_eq!(b.len(), 0);
    assert_eq!(b.address() % 16, 0);
    assert!(b.as_slice().is_empty());
}

#[test]
fn every_byte_reads_back_what_was_written() {
    let cap = 300usize;
    let mut b = buffer(cap, 32, 32 * 7);
    for i in 0..cap {
        b.write(i, (i * 7 % 256) as u8);
    }
    for i in 0..cap {
        assert_eq!(b.read(i), (i * 7 % 256) as u8);
    }
}

#[test]
fn copy_from_fills_the_whole_block() {
    let src: Vec<u8> = (0..64u8).map(|x| 255 - x).collect();
    let mut b = buffer(64, 8, 8 * 3);
    b.copy_from(&src);
    assert_eq!(b.as_slice(), &src[..]);
    assert_eq!(b.read(0), 255);
    assert_eq!(b.read(63), 192);
    assert_eq!(b.capacity(), 64);
    assert_eq!(b.len(), 0);
}

#[test]
fn release_returns_the_allocation_layout() {
    let mut b = buffer(48, 16, 16 * 5);
    b.write(47, 9);
    let (bytes, layout) = b.release();
    assert_eq!(layout.capacity(), 48);
    assert_eq!(layout.align(), 16);
    assert_eq!(bytes.len(), 48);
    assert_eq!(bytes[47], 9);
}
