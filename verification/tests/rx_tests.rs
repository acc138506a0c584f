//! The receive ring: arrival, classification, re-arming and backpressure.

use stm32h7_eth::desc::{Rdes3, RxDescriptor};
use stm32h7_eth::ring::Commit;
use stm32h7_eth::rx_ring::{RxPoll, RxRing, MTU, RX_ARMED_RDES3};

const DESC_BASE: u32 = 0x3000_0000;
const BUF_BASE: u32 = 0x3010_0000;

// RDES3 status words as the engine writes them back (ownership bit clear).
const FD: u32 = 1 << 29;
const LD: u32 = 1 << 28;
const CTXT: u32 = 1 << 30;
const ES: u32 = 1 << 15;
const OE: u32 = 1 << 21;

fn status_descriptor(word: u32) -> RxDescriptor {
    let mut d = RxDescriptor::default();
    d.write_rdes3(Rdes3(word));
    d
}

fn deliver(rx: &mut RxRing, slot: usize, word: u32, frame: &[u8]) {
    let mut buf = vec![0u8; MTU];
    buf[..frame.len()].copy_from_slice(frame);
    rx.ring_mut().hw_write_and_release(slot, status_descriptor(word), buf);
}

#[test]
fn fresh_ring_reports_no_frame() {
    let mut rx = RxRing::new(4, DESC_BASE, BUF_BASE);
    for _ in 0..3 {
        let mut called = false;
        let r = rx.receive(|_f| {
            called = true;
            Commit::Yes
        });
        assert!(r.is_none());
        assert!(!called);
    }
    // Until ownership of the cursor slot is flipped from outside.
    deliver(&mut rx, 0, FD | LD | 5, b"hello");
    let mut got = Vec::new();
    let r = rx.receive(|f| {
        got = f;
        Commit::Yes
    });
    assert_eq!(r, Some(Commit::Yes));
    assert_eq!(&got, b"hello");
}

#[test]
fn context_descriptor_auto_commits_without_body() {
    classification_case(CTXT | FD | LD | 10);
}

#[test]
fn missing_fragment_flag_auto_commits_without_body() {
    classification_case(FD | 10);
    classification_case(LD | 10);
}

#[test]
fn error_or_overflow_auto_commits_without_body() {
    classification_case(FD | LD | ES | 10);
    classification_case(FD | LD | OE | 10);
}

/// A slot carrying `word` is consumed without the body running, and the slot
/// is re-armed: another delivery through it is received normally.
fn classification_case(word: u32) {
    let mut rx = RxRing::new(2, DESC_BASE, BUF_BASE);
    deliver(&mut rx, 0, word, &[0xEE; 10]);
    let mut called = false;
    let r = rx.receive(|_f| {
        called = true;
        Commit::No
    });
    assert_eq!(r, Some(Commit::Yes));
    assert!(!called);
    // The slot was re-armed for hardware: deliver a good frame through the
    // ring again (slot 1 first, then the re-armed slot 0) and receive both.
    deliver(&mut rx, 1, FD | LD | 3, b"abc");
    deliver(&mut rx, 0, FD | LD | 2, b"xy");
    let mut frames: Vec<Vec<u8>> = Vec::new();
    while let Some(c) = rx.receive(|f| {
        frames.push(f);
        Commit::Yes
    }) {
        assert_eq!(c, Commit::Yes);
    }
    assert_eq!(frames, vec![b"abc".to_vec(), b"xy".to_vec()]);
}

#[test]
fn commit_no_leaves_frame_queued() {
    let mut rx = RxRing::new(2, DESC_BASE, BUF_BASE);
    deliver(&mut rx, 0, FD | LD | 4, b"data");
    // Decline the frame twice: it stays queued, ownership and cursor
    // untouched.
    for _ in 0..2 {
        let r = rx.receive(|f| {
            assert_eq!(&f, b"data");
            Commit::No
        });
        assert_eq!(r, Some(Commit::No));
        assert_eq!(rx.next_ptr(), DESC_BASE);
    }
    // Accepting it afterwards consumes it.
    let r = rx.receive(|_f| Commit::Yes);
    assert_eq!(r, Some(Commit::Yes));
    assert!(rx.receive(|_f| Commit::Yes).is_none());
}

#[test]
fn reported_length_is_trusted_but_clamped_to_the_buffer() {
    let mut rx = RxRing::new(1, DESC_BASE, BUF_BASE);
    // The engine claims 0x7fff bytes; only the buffer's MTU exist.
    deliver(&mut rx, 0, FD | LD | 0x7fff, b"x");
    let r = rx.receive(|f| {
        assert_eq!(f.len(), MTU);
        Commit::Yes
    });
    assert_eq!(r, Some(Commit::Yes));
}

#[test]
fn poll_returns_frames_and_classifies() {
    let mut rx = RxRing::new(3, DESC_BASE, BUF_BASE);
    assert!(matches!(rx.poll(), RxPoll::NoFrame));
    deliver(&mut rx, 0, FD | LD | 2, b"ab");
    deliver(&mut rx, 1, CTXT | FD | LD, &[]);
    match rx.poll() {
        RxPoll::Frame(f) => assert_eq!(&f, b"ab"),
        _ => panic!("expected a frame"),
    }
    assert!(matches!(rx.poll(), RxPoll::Discarded));
    assert!(matches!(rx.poll(), RxPoll::NoFrame));
}

#[test]
fn armed_word_has_ioc_and_buf1v() {
    let r = Rdes3(RX_ARMED_RDES3);
    assert!(!r.own());
    assert!(r.ioc());
    assert!(r.buf1v());
    assert!(!r.buf2v());
}
