//! The event-loop decisions: one timer tick, one interrupt.

use stm32h7_eth::desc::{Rdes3, RxDescriptor};
use stm32h7_eth::driver::{Action, DmaStatus, Driver};
use stm32h7_eth::rx_ring::{RxRing, MTU};
use stm32h7_eth::tx_ring::TxRing;

const TX_DESC: u32 = 0x3000_0000;
const TX_BUF: u32 = 0x3001_0000;
const RX_DESC: u32 = 0x3008_0000;
const RX_BUF: u32 = 0x3009_0000;
const INTERVAL: u64 = 500;

const FD: u32 = 1 << 29;
const LD: u32 = 1 << 28;
const RX_COMPLETE: u32 = 1 << 6;

fn driver(n: usize) -> Driver {
    let tx = TxRing::new(n, TX_DESC, TX_BUF);
    let rx = RxRing::new(n, RX_DESC, RX_BUF);
    Driver::new(tx, rx, INTERVAL, INTERVAL)
}

fn deliver(d: &mut Driver, slot: usize, word: u32, frame: &[u8]) {
    let mut buf = vec![0u8; MTU];
    buf[..frame.len()].copy_from_slice(frame);
    let mut desc = RxDescriptor::default();
    desc.write_rdes3(Rdes3(word));
    d.rx_ring_mut().ring_mut().hw_write_and_release(slot, desc, buf);
}

#[test]
fn timer_transmits_and_drifts_the_deadline() {
    let mut d = driver(2);
    let payload = vec![0xA5u8; 60];
    let acts = d.on_timer(&payload);
    // A slot was free: program the tail pointer to the new cursor, then
    // re-arm the timer one interval past the previous deadline.
    assert_eq!(
        acts,
        vec![Action::ProgramTxTail(TX_DESC + 16), Action::ArmTimer(2 * INTERVAL)]
    );
    assert_eq!(d.deadline(), 2 * INTERVAL);
    // The frame went out as given.
    d.tx_ring_mut().ring_mut().hw_release(0);
    let buf = d.tx_ring().ring().read_slot_buffer(0);
    assert_eq!(&buf[..60], &payload[..]);
}

#[test]
fn timer_drifts_even_when_no_slot_is_free() {
    let mut d = driver(1);
    let payload = vec![1u8; 10];
    let acts = d.on_timer(&payload);
    assert_eq!(
        acts,
        vec![Action::ProgramTxTail(TX_DESC), Action::ArmTimer(2 * INTERVAL)]
    );
    // The single slot is now in flight: the next tick only re-arms the
    // timer, and the deadline still drifts forward.
    let acts = d.on_timer(&payload);
    assert_eq!(acts, vec![Action::ArmTimer(3 * INTERVAL)]);
    assert_eq!(d.deadline(), 3 * INTERVAL);
}

#[test]
fn interrupt_without_rx_complete_does_nothing_but_rearm() {
    let mut d = driver(2);
    deliver(&mut d, 0, FD | LD | 3, b"abc");
    let (acts, frames) = d.on_interrupt(DmaStatus(0));
    assert_eq!(acts, vec![Action::RearmInterrupt]);
    assert!(frames.is_empty());
}

#[test]
fn interrupt_drains_all_available_frames() {
    let mut d = driver(4);
    deliver(&mut d, 0, FD | LD | 3, b"one");
    deliver(&mut d, 1, FD | LD | 3, b"two");
    let (acts, frames) = d.on_interrupt(DmaStatus(RX_COMPLETE));
    assert_eq!(frames, vec![b"one".to_vec(), b"two".to_vec()]);
    assert_eq!(
        acts,
        vec![
            Action::ClearRxComplete,
            Action::ProgramRxTail(RX_DESC + 16),
            Action::ProgramRxTail(RX_DESC + 32),
            Action::RearmInterrupt,
        ]
    );
    // One pass drained everything: until more hardware activity, a further
    // pass finds no frame.
    let (acts, frames) = d.on_interrupt(DmaStatus(RX_COMPLETE));
    assert!(frames.is_empty());
    assert_eq!(
        acts,
        vec![Action::ClearRxComplete, Action::RearmInterrupt]
    );
}

#[test]
fn interrupt_discards_classified_slots_while_draining() {
    let mut d = driver(4);
    const CTXT: u32 = 1 << 30;
    deliver(&mut d, 0, FD | LD | 2, b"ok");
    deliver(&mut d, 1, CTXT | FD | LD, &[]);
    deliver(&mut d, 2, FD | LD | 4, b"more");
    let (acts, frames) = d.on_interrupt(DmaStatus(RX_COMPLETE));
    // The context descriptor is consumed silently; both real frames arrive.
    assert_eq!(frames, vec![b"ok".to_vec(), b"more".to_vec()]);
    assert_eq!(acts.len(), 5);
    assert_eq!(acts[0], Action::ClearRxComplete);
    assert_eq!(acts[4], Action::RearmInterrupt);
}
