//! The generic ring: handshake, cursor, and the declined-offer path.

use stm32h7_eth::desc::TxDescriptor;
use stm32h7_eth::ring::{Commit, Ring};

const DESC_BASE: u32 = 0x3000_0000;
const BUF_BASE: u32 = 0x3000_4000;

fn tx_ring(n: usize) -> Ring<TxDescriptor> {
    Ring::new(n, 64, DESC_BASE, BUF_BASE)
}

#[test]
fn new_ring_layout() {
    let r = tx_ring(4);
    assert_eq!(r.len(), 4);
    assert_eq!(r.buffer_len(), 64);
    assert_eq!(r.base_ptr(), DESC_BASE);
    assert_eq!(r.next_ptr(), DESC_BASE);
    assert_eq!(r.next_buffer_ptr(), BUF_BASE);
    assert!(!r.is_next_owned_by_hw());
}

#[test]
fn commit_advances_cursor_and_ownership() {
    let mut r = tx_ring(2);
    let d = r.read_next_descriptor();
    let buf = vec![7u8; 64];
    r.commit_next(d, buf);
    assert_eq!(r.next_ptr(), DESC_BASE + 16);
    assert_eq!(r.next_buffer_ptr(), BUF_BASE + 64);
    assert!(!r.is_next_owned_by_hw());
    let d1 = r.read_next_descriptor();
    r.commit_next_descriptor(d1);
    // The cursor wraps and now points at the first, committed slot.
    assert_eq!(r.next_ptr(), DESC_BASE);
    assert!(r.is_next_owned_by_hw());
}

#[test]
fn with_next_slot_yes_hands_slot_to_hardware() {
    let mut r = tx_ring(2);
    let res = r.with_next_slot(|d, mut b: Vec<u8>| {
        b[0] = 0x55;
        (d, b, Commit::Yes)
    });
    assert_eq!(res, Some(Commit::Yes));
    assert_eq!(r.next_ptr(), DESC_BASE + 16);
    // The committed slot belongs to hardware: releasing it hands it back
    // with the buffer as the body left it.
    r.hw_release(0);
    assert_eq!(r.read_slot_buffer(0)[0], 0x55);
    assert!(r.read_slot_descriptor(0).des3 & 0x8000_0000 == 0);
}

#[test]
fn with_next_slot_no_keeps_cursor_and_ownership() {
    let mut r = tx_ring(2);
    for _ in 0..5 {
        let res = r.with_next_slot(|d, mut b: Vec<u8>| {
            b[1] = 0x66;
            (d, b, Commit::No)
        });
        assert_eq!(res, Some(Commit::No));
        // Ownership and cursor are untouched; the write-back is visible.
        assert_eq!(r.next_ptr(), DESC_BASE);
        assert!(!r.is_next_owned_by_hw());
        assert_eq!(r.read_slot_buffer(0)[1], 0x66);
    }
}

#[test]
fn with_next_slot_refuses_hardware_owned_slot() {
    let mut r = tx_ring(1);
    let d = r.read_next_descriptor();
    r.commit_next_descriptor(d);
    let mut called = false;
    let res = r.with_next_slot(|d, b| {
        called = true;
        (d, b, Commit::Yes)
    });
    assert!(res.is_none());
    assert!(!called);
}

#[test]
fn hw_write_and_release_replaces_slot() {
    let mut r = tx_ring(2);
    let d = r.read_next_descriptor();
    r.commit_next(d, vec![1u8; 64]);
    let mut nd = TxDescriptor::default();
    nd.write_buf2_address(0xdead_0000);
    r.hw_write_and_release(0, nd, vec![9u8; 64]);
    assert_eq!(r.read_slot_descriptor(0).des1, 0xdead_0000);
    assert_eq!(r.read_slot_buffer(0)[63], 9);
}
