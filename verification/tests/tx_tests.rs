//! The transmit ring: capacity, poisoning, and the published descriptor.

use stm32h7_eth::ring::Commit;
use stm32h7_eth::desc::Tdes2;
use stm32h7_eth::tx_ring::{TxRing, MTU, POISON_BYTE};

const DESC_BASE: u32 = 0x3000_0000;
const BUF_BASE: u32 = 0x3010_0000;

#[test]
fn fresh_ring_accepts_exactly_capacity() {
    let n = 4;
    let mut tx = TxRing::new(n, DESC_BASE, BUF_BASE);
    for _ in 0..n {
        let r = tx.transmit(100, |mut w| {
            for b in w.iter_mut() {
                *b = 1;
            }
            (w, Commit::Yes)
        });
        assert_eq!(r, Some(Commit::Yes));
    }
    // Every slot is now in flight: the next attempt finds no slot.
    let r = tx.transmit(100, |w| (w, Commit::Yes));
    assert!(r.is_none());
}

#[test]
fn declined_commit_changes_nothing() {
    let mut tx = TxRing::new(2, DESC_BASE, BUF_BASE);
    for _ in 0..7 {
        let r = tx.transmit(32, |w| (w, Commit::No));
        assert_eq!(r, Some(Commit::No));
        assert_eq!(tx.next_ptr(), DESC_BASE);
    }
    // The ring is still empty: both slots accept a frame afterwards.
    assert_eq!(tx.transmit(32, |w| (w, Commit::Yes)), Some(Commit::Yes));
    assert_eq!(tx.transmit(32, |w| (w, Commit::Yes)), Some(Commit::Yes));
    assert!(tx.transmit(32, |w| (w, Commit::Yes)).is_none());
}

#[test]
fn round_trip_publishes_frame_length_and_fragment_flags() {
    let size = 64;
    let mut tx = TxRing::new(2, DESC_BASE, BUF_BASE);
    let r = tx.transmit(size, |mut w| {
        for (i, b) in w.iter_mut().enumerate() {
            *b = i as u8;
        }
        (w, Commit::Yes)
    });
    assert_eq!(r, Some(Commit::Yes));
    // Simulate the hardware completing the transmission: it hands the slot
    // back by clearing the ownership bit.
    tx.ring_mut().hw_release(0);
    let d = tx.ring().read_slot_descriptor(0);
    let t3 = d.read_tdes3();
    assert_eq!(t3.fl(), size as u32);
    assert!(t3.fd());
    assert!(t3.ld());
    assert!(!t3.ctxt());
    assert!(!t3.own());
    assert_eq!(d.des0, BUF_BASE);
    let t2 = Tdes2(d.des2);
    assert_eq!(t2.buf1_len(), size as u32);
    let buf = tx.ring().read_slot_buffer(0);
    for i in 0..size {
        assert_eq!(buf[i], i as u8);
    }
}

#[test]
fn window_starts_poisoned_and_untouched_suffix_stays_poison() {
    let size = 16;
    let mut tx = TxRing::new(2, DESC_BASE, BUF_BASE);
    let r = tx.transmit(size, |mut w| {
        // The window arrives fully poisoned.
        assert_eq!(w.len(), size);
        for b in w.iter() {
            assert_eq!(*b, POISON_BYTE);
        }
        // Fill only the first three bytes.
        w[0] = 0x11;
        w[1] = 0x22;
        w[2] = 0x33;
        (w, Commit::Yes)
    });
    assert_eq!(r, Some(Commit::Yes));
    tx.ring_mut().hw_release(0);
    let buf = tx.ring().read_slot_buffer(0);
    assert_eq!(&buf[..3], &[0x11, 0x22, 0x33]);
    // The suffix the body never wrote is the poison byte, not stale memory.
    for i in 3..size {
        assert_eq!(buf[i], POISON_BYTE);
    }
}

#[test]
fn transmit_walks_slots_in_order() {
    let mut tx = TxRing::new(3, DESC_BASE, BUF_BASE);
    assert_eq!(tx.base_ptr(), DESC_BASE);
    assert_eq!(tx.next_ptr(), DESC_BASE);
    tx.transmit(8, |w| (w, Commit::Yes)).unwrap();
    assert_eq!(tx.next_ptr(), DESC_BASE + 16);
    tx.transmit(8, |w| (w, Commit::Yes)).unwrap();
    assert_eq!(tx.next_ptr(), DESC_BASE + 32);
    tx.transmit(8, |w| (w, Commit::Yes)).unwrap();
    // Wrapped around.
    assert_eq!(tx.next_ptr(), DESC_BASE);
    assert_eq!(tx.len(), 3);
}

#[test]
fn second_transmission_reuses_released_slot_with_fresh_poison() {
    let mut tx = TxRing::new(1, DESC_BASE, BUF_BASE);
    tx.transmit(8, |mut w| {
        for b in w.iter_mut() {
            *b = 0xFF;
        }
        (w, Commit::Yes)
    })
    .unwrap();
    assert!(tx.transmit(8, |w| (w, Commit::Yes)).is_none());
    tx.ring_mut().hw_release(0);
    // The slot is usable again, and its window is poisoned afresh, not the
    // previous frame's bytes.
    let r = tx.transmit(4, |w| {
        for b in w.iter() {
            assert_eq!(*b, POISON_BYTE);
        }
        (w, Commit::Yes)
    });
    assert_eq!(r, Some(Commit::Yes));
}

#[test]
fn mtu_bounds_the_window() {
    assert_eq!(MTU, 1536);
}
