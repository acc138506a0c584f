//! The event-loop decisions of the driver task.
//!
//! The task blocks on exactly two stimuli — a periodic timer and the DMA
//! completion interrupt — and every ring operation is non-blocking, so the
//! whole loop reduces to two decision functions: what one timer tick does,
//! and what one interrupt does. Both are pure state transitions over the two
//! rings plus a list of register/kernel [`Action`]s for the caller to
//! perform; the blocking wait, the register pokes and the interrupt plumbing
//! stay outside this crate.

use vstd::prelude::*;
use crate::desc::{bit_set, RxDescriptor, TxDescriptor};
use crate::ring::{lemma_sw_owned_count_update, sw_owned_count, Commit, RingView};
use crate::rx_ring::{drain_step, rx_wf, spec_drain, RxPoll, RxRing};
use crate::tx_ring::{tx_frame_published, tx_wf, TxRing, MTU};

verus! {

/// The top-level DMA interrupt-status word, as read from the engine's
/// status register.
#[derive(Clone, Copy)]
pub struct DmaStatus(pub u32);

impl DmaStatus {
    /// Receive-complete: the engine finished a reception and raised the
    /// receive interrupt bit.
    pub open spec fn spec_rx_complete(self) -> bool {
        bit_set(self.0, 6)
    }

    /// Transmit-complete, observed but currently producing no action.
    pub open spec fn spec_tx_complete(self) -> bool {
        self.0 & 1u32 == 1u32
    }

    /// Receive-complete as a runtime value.
    pub fn rx_complete(&self) -> (b: bool)
        ensures
            b == self.spec_rx_complete(),
    {
        (self.0 >> 6) & 1 == 1
    }

    /// Transmit-complete as a runtime value.
    pub fn tx_complete(&self) -> (b: bool)
        ensures
            b == self.spec_tx_complete(),
    {
        self.0 & 1 == 1
    }
}

/// One outward step the event loop asks its caller to perform: a hardware
/// register poke or a kernel service.
#[derive(Clone, Copy, Debug, PartialEq, Eq, Structural)]
pub enum Action {
    /// Program the transmit tail-pointer register with this address.
    ProgramTxTail(u32),
    /// Program the receive tail-pointer register with this address.
    ProgramRxTail(u32),
    /// Clear the receive-complete bit in the DMA interrupt-status register.
    ClearRxComplete,
    /// Arm the timer for this absolute deadline.
    ArmTimer(u64),
    /// Re-arm interrupt delivery before blocking again.
    RearmInterrupt,
}

/// Abstract state of the driver: both rings plus the timer bookkeeping.
pub struct DriverView {
    /// The transmit ring.
    pub tx: RingView<TxDescriptor>,
    /// The receive ring.
    pub rx: RingView<RxDescriptor>,
    /// The absolute deadline the timer is armed for.
    pub deadline: u64,
    /// The fixed timer interval.
    pub interval: u64,
}

/// Well-formedness of the driver: both rings well formed.
pub open spec fn driver_wf(v: DriverView) -> bool {
    &&& tx_wf(v.tx)
    &&& rx_wf(v.rx)
}

/// The byte contents of a list of frames.
pub open spec fn frames_view(fs: Seq<Vec<u8>>) -> Seq<Seq<u8>> {
    Seq::new(fs.len(), |i: int| fs[i]@)
}

/// The single task coordinating the periodic timer and the DMA interrupt
/// against the two rings.
pub struct Driver {
    tx: TxRing,
    rx: RxRing,
    deadline: u64,
    interval: u64,
}

impl View for Driver {
    type V = DriverView;

    closed spec fn view(&self) -> DriverView {
        DriverView { tx: self.tx@, rx: self.rx@, deadline: self.deadline, interval: self.interval }
    }
}

impl Driver {
    /// Assembles the driver over its two rings, with the timer to be armed
    /// first for `first_deadline` and then every `interval` ticks.
    pub fn new(tx: TxRing, rx: RxRing, interval: u64, first_deadline: u64) -> (d: Self)
        requires
            tx_wf(tx@),
            rx_wf(rx@),
        ensures
            driver_wf(d@),
            d@.tx == tx@,
            d@.rx == rx@,
            d@.interval == interval,
            d@.deadline == first_deadline,
    {
        Driver { tx, rx, deadline: first_deadline, interval }
    }

    /// The deadline the timer is currently armed for.
    pub fn deadline(&self) -> (d: u64)
        ensures
            d == self@.deadline,
    {
        self.deadline
    }

    /// One timer tick: attempt one transmission of `payload`, and re-arm the
    /// timer one interval past the previous deadline — the deadline drifts
    /// forward unconditionally, whether or not a slot was free.
    ///
    /// When the cursor slot was free the payload is committed and the
    /// returned actions ask the caller to program the transmit tail pointer
    /// to the new cursor before re-arming the timer; when every slot is in
    /// flight the only action is re-arming the timer.
    pub fn on_timer(&mut self, payload: &Vec<u8>) -> (acts: Vec<Action>)
        requires
            driver_wf(old(self)@),
            payload@.len() < MTU as int,
            old(self)@.deadline + old(self)@.interval <= u64::MAX,
        ensures
            driver_wf(final(self)@),
            final(self)@.rx == old(self)@.rx,
            final(self)@.interval == old(self)@.interval,
            final(self)@.deadline == old(self)@.deadline + old(self)@.interval,
            final(self)@.tx.descs.len() == old(self)@.tx.descs.len(),
            old(self)@.tx.owners()[old(self)@.tx.next] ==> {
                &&& final(self)@.tx == old(self)@.tx
                &&& acts@ == seq![Action::ArmTimer((old(self)@.deadline + old(self)@.interval) as u64)]
            },
            !old(self)@.tx.owners()[old(self)@.tx.next] ==> {
                let i = old(self)@.tx.next;
                let size = payload@.len() as int;
                &&& final(self)@.tx.owners() == old(self)@.tx.owners().update(i, true)
                &&& final(self)@.tx.next == crate::ring::next_cursor(
                    i,
                    old(self)@.tx.descs.len() as int,
                )
                &&& final(self)@.tx.bufs[i] == payload@ + old(self)@.tx.bufs[i].skip(size)
                &&& tx_frame_published(
                    final(self)@.tx.descs[i],
                    old(self)@.tx.slot_buf_addr(i),
                    size,
                )
                &&& acts@ == seq![
                    Action::ProgramTxTail(
                        final(self)@.tx.slot_desc_addr(final(self)@.tx.next) as u32,
                    ),
                    Action::ArmTimer((old(self)@.deadline + old(self)@.interval) as u64),
                ]
            },
    {
        let size = payload.len();
        let body = |w: Vec<u8>| -> (r: (Vec<u8>, Commit))
            ensures
                r.0@ == payload@,
                r.1 == Commit::Yes,
            {
                let mut out: Vec<u8> = Vec::new();
                let mut j: usize = 0;
                while j < payload.len()
                    invariant
                        j <= payload.len(),
                        out@ == payload@.take(j as int),
                    decreases payload.len() - j,
                {
                    out.push(payload[j]);
                    proof {
                        assert(out@ =~= payload@.take(j as int + 1));
                    }
                    j += 1;
                }
                proof {
                    assert(out@ =~= payload@);
                }
                (out, Commit::Yes)
            };
        let r = self.tx.transmit(size, body);
        let mut acts: Vec<Action> = Vec::new();
        match r {
            Some(Commit::Yes) => {
                acts.push(Action::ProgramTxTail(self.tx.next_ptr()));
            },
            Some(Commit::No) => {
                // The body above always commits, so this cannot be reached;
                // nothing to do if it were.
            },
            None => {},
        }
        let nd = self.deadline + self.interval;
        self.deadline = nd;
        acts.push(Action::ArmTimer(nd));
        acts
    }

    /// One DMA interrupt: when the status word reports receive-complete,
    /// clear that bit, then drain every available received frame —
    /// reprogramming the receive tail pointer after each consumed slot —
    /// and re-arm interrupt delivery; any other cause is observed without
    /// action. Returns the actions for the caller and the drained frames.
    pub fn on_interrupt(&mut self, status: DmaStatus) -> (out: (Vec<Action>, Vec<Vec<u8>>))
        requires
            driver_wf(old(self)@),
        ensures
            driver_wf(final(self)@),
            final(self)@.tx == old(self)@.tx,
            final(self)@.deadline == old(self)@.deadline,
            final(self)@.interval == old(self)@.interval,
            final(self)@.rx.descs.len() == old(self)@.rx.descs.len(),
            !status.spec_rx_complete() ==> {
                &&& final(self)@.rx == old(self)@.rx
                &&& out.1@.len() == 0
                &&& out.0@ == seq![Action::RearmInterrupt]
            },
            status.spec_rx_complete() ==> {
                &&& out.0@.len() >= 2
                &&& out.0@[0] == Action::ClearRxComplete
                &&& out.0@.last() == Action::RearmInterrupt
                &&& final(self)@.rx == spec_drain(old(self)@.rx).0
                &&& frames_view(out.1@) == spec_drain(old(self)@.rx).1
                &&& final(self)@.rx.owners()[final(self)@.rx.next]
            },
    {
        let mut acts: Vec<Action> = Vec::new();
        let mut frames: Vec<Vec<u8>> = Vec::new();
        if status.rx_complete() {
            acts.push(Action::ClearRxComplete);
            loop
                invariant
                    rx_wf(self@.rx),
                    self@.tx == old(self)@.tx,
                    self@.deadline == old(self)@.deadline,
                    self@.interval == old(self)@.interval,
                    self@.rx.descs.len() == old(self)@.rx.descs.len(),
                    acts@.len() >= 1,
                    acts@[0] == Action::ClearRxComplete,
                    spec_drain(old(self)@.rx).0 == spec_drain(self@.rx).0,
                    spec_drain(old(self)@.rx).1 == frames_view(frames@) + spec_drain(self@.rx).1,
                ensures
                    rx_wf(self@.rx),
                    self@.tx == old(self)@.tx,
                    self@.deadline == old(self)@.deadline,
                    self@.interval == old(self)@.interval,
                    self@.rx.descs.len() == old(self)@.rx.descs.len(),
                    acts@.len() >= 1,
                    acts@[0] == Action::ClearRxComplete,
                    self@.rx.owners()[self@.rx.next],
                    self@.rx == spec_drain(old(self)@.rx).0,
                    frames_view(frames@) == spec_drain(old(self)@.rx).1,
                decreases sw_owned_count(self@.rx.owners()),
            {
                let ghost pre = self@.rx;
                let ghost preframes = frames@;
                let p = self.rx.poll();
                match p {
                    RxPoll::NoFrame => {
                        proof {
                            assert(spec_drain(pre) == (pre, Seq::<Seq<u8>>::empty()));
                            assert(frames_view(frames@) + Seq::<Seq<u8>>::empty() =~= frames_view(
                                frames@,
                            ));
                        }
                        break;
                    },
                    RxPoll::Discarded => {
                        proof {
                            lemma_sw_owned_count_update(pre.owners(), pre.next);
                            assert(self@.rx == drain_step(pre));
                        }
                        acts.push(Action::ProgramRxTail(self.rx.next_ptr()));
                    },
                    RxPoll::Frame(f) => {
                        proof {
                            lemma_sw_owned_count_update(pre.owners(), pre.next);
                            assert(self@.rx == drain_step(pre));
                        }
                        let ghost gf: Vec<u8> = f;
                        frames.push(f);
                        proof {
                            assert(frames_view(frames@) =~= frames_view(preframes) + seq![gf@]);
                            assert(frames_view(preframes) + (seq![gf@] + spec_drain(
                                self@.rx,
                            ).1) =~= (frames_view(preframes) + seq![gf@]) + spec_drain(
                                self@.rx,
                            ).1);
                        }
                        acts.push(Action::ProgramRxTail(self.rx.next_ptr()));
                    },
                }
            }
        }
        acts.push(Action::RearmInterrupt);
        (acts, frames)
    }

    /// The transmit ring.
    pub fn tx_ring(&self) -> (r: &TxRing)
        ensures
            r@ == self@.tx,
    {
        &self.tx
    }

    /// The receive ring.
    pub fn rx_ring(&self) -> (r: &RxRing)
        ensures
            r@ == self@.rx,
    {
        &self.rx
    }

    /// Mutable access to the receive ring, used to play the hardware's half
    /// of the handshake when no DMA engine is present.
    pub fn rx_ring_mut(&mut self) -> (r: &mut RxRing)
        ensures
            r@ == old(self)@.rx,
            final(self)@.rx == final(r)@,
            final(self)@.tx == old(self)@.tx,
            final(self)@.deadline == old(self)@.deadline,
            final(self)@.interval == old(self)@.interval,
    {
        &mut self.rx
    }

    /// Mutable access to the transmit ring, used to play the hardware's half
    /// of the handshake when no DMA engine is present.
    pub fn tx_ring_mut(&mut self) -> (r: &mut TxRing)
        ensures
            r@ == old(self)@.tx,
            final(self)@.tx == final(r)@,
            final(self)@.rx == old(self)@.rx,
            final(self)@.deadline == old(self)@.deadline,
            final(self)@.interval == old(self)@.interval,
    {
        &mut self.tx
    }
}

} // verus!
