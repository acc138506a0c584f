//! The receive-specialised descriptor/buffer ring.
//!
//! Fixes the descriptor type and the buffer size at the MTU. A receive slot
//! starts under hardware ownership: the engine fills the buffer and hands the
//! slot back with a status word. Before a caller sees a frame the slot is
//! classified: context descriptors, partial packets and errored frames are
//! consumed and the slot re-armed without involving the caller; only a whole,
//! error-free frame reaches the caller's body.

use vstd::prelude::*;
use crate::desc::{bit_set, Rdes3, Rdes3Fields, Rdes3Status, RxDescriptor};
use crate::ring::{
    lemma_sw_owned_count_update, next_cursor, sw_owned_count, Commit, Descriptor, Ring, RingView,
    DESC_BYTES,
};

verus! {

/// Maximum size of packet that can be received. Raising this requires MAC
/// settings for jumbo frames, which nothing in this crate programs.
pub const MTU: usize = 1536;

/// The RDES3 word a freshly armed receive descriptor carries: interrupt on
/// completion (bit 30) and buffer 1 address valid (bit 24); the ownership bit
/// is left clear for the ring to set.
pub const RX_ARMED_RDES3: u32 = 0x4100_0000;

impl Descriptor for RxDescriptor {
    /// Receive slots start with hardware, which waits to fill the buffer.
    open spec fn spec_initially_owned_by_hw() -> bool {
        true
    }

    open spec fn spec_owned_by_hw(self) -> bool {
        bit_set(self.des3, 31)
    }

    /// The buffer length is not stored per descriptor: the DMA engine is
    /// programmed with one central buffer size and assumes every buffer has
    /// at least that much room.
    open spec fn spec_len_ok(len: usize) -> bool {
        len >= MTU
    }

    /// A receive descriptor begins life bound to a buffer and waiting for a
    /// frame, so the buffer address and the armed flags are filled in from
    /// the start.
    open spec fn spec_initial(buffer_addr: u32, len: usize) -> Self {
        RxDescriptor { des0: buffer_addr, des1: 0, des2: 0, des3: RX_ARMED_RDES3 }
    }

    open spec fn spec_with_hw_owned(self) -> Self {
        RxDescriptor { des3: self.des3 | 0x8000_0000, ..self }
    }

    open spec fn spec_with_sw_owned(self) -> Self {
        RxDescriptor { des3: self.des3 & 0x7fff_ffff, ..self }
    }

    fn initially_owned_by_hw() -> (b: bool) {
        true
    }

    fn initial_state(buffer_addr: u32, len: usize) -> (d: Self) {
        proof {
            assert((0x4100_0000u32 >> 31) & 1 == 0) by (bit_vector);
        }
        RxDescriptor { des0: buffer_addr, des1: 0, des2: 0, des3: RX_ARMED_RDES3 }
    }

    fn is_owned_by_hw(&self) -> (b: bool) {
        (self.des3 >> 31) & 1 == 1
    }

    fn set_owned_by_hw(&mut self) {
        let w = self.des3;
        proof {
            assert(((w | 0x8000_0000u32) >> 31) & 1 == 1) by (bit_vector);
        }
        self.des3 = w | 0x8000_0000;
    }

    fn clear_owned_by_hw(&mut self) {
        let w = self.des3;
        proof {
            assert(((w & 0x7fff_ffffu32) >> 31) & 1 == 0) by (bit_vector);
        }
        self.des3 = w & 0x7fff_ffff;
    }
}

/// The armed RDES3 word decodes to: not hardware-owned yet, interrupt on
/// completion, no second buffer, first buffer valid.
pub proof fn lemma_rx_armed_fields()
    ensures
        Rdes3(RX_ARMED_RDES3)@ == (Rdes3Fields { own: false, ioc: true, buf2v: false, buf1v: true }),
{
    assert((0x4100_0000u32 >> 31) & 1 == 0 && (0x4100_0000u32 >> 30) & 1 == 1 && (0x4100_0000u32
        >> 25) & 1 == 0 && (0x4100_0000u32 >> 24) & 1 == 1) by (bit_vector);
}

/// Whether a handed-back receive slot is consumed without reaching the
/// caller: a context descriptor, a partial packet (either fragment flag
/// missing — multi-buffer receive is unsupported), or a frame the engine
/// reported an error or an overflow for.
pub open spec fn frame_discard(w: u32) -> bool {
    ||| Rdes3Status(w)@.ctxt
    ||| !Rdes3Status(w)@.fd
    ||| !Rdes3Status(w)@.ld
    ||| Rdes3Status(w)@.es
    ||| Rdes3Status(w)@.oe
}

/// The number of frame bytes handed to a receive body: the packet length the
/// hardware reported, bounded by the buffer length. The hardware-reported
/// length is trusted as far as it goes, but never past the buffer's end.
pub open spec fn frame_len(w: u32, buf_len: int) -> int {
    if Rdes3Status(w)@.pl <= buf_len {
        Rdes3Status(w)@.pl as int
    } else {
        buf_len
    }
}

/// One consumed slot of a drain pass: the cursor slot re-armed in its
/// initial state and handed to hardware, the cursor advanced, everything
/// else untouched.
pub open spec fn drain_step(v: RingView<RxDescriptor>) -> RingView<RxDescriptor> {
    RingView {
        descs: v.descs.update(v.next, v.initial_slot(v.next)),
        next: next_cursor(v.next, v.descs.len() as int),
        ..v
    }
}

/// A drain step hands exactly the cursor slot to hardware and preserves
/// well-formedness.
pub proof fn lemma_drain_step_owners(v: RingView<RxDescriptor>)
    requires
        rx_wf(v),
    ensures
        drain_step(v).owners() == v.owners().update(v.next, true),
        rx_wf(drain_step(v)),
{
    assert(((0x4100_0000u32 | 0x8000_0000u32) >> 31) & 1 == 1) by (bit_vector);
    assert(drain_step(v).owners() =~= v.owners().update(v.next, true));
}

/// A whole drain pass over the ring: the state it leaves — slots consumed
/// and re-armed one by one until the cursor slot is hardware's — and the
/// whole, error-free frames it yields, in arrival order.
pub open spec fn spec_drain(v: RingView<RxDescriptor>) -> (RingView<RxDescriptor>, Seq<Seq<u8>>)
    decreases sw_owned_count(v.owners()),
    when rx_wf(v)
    via spec_drain_decreases
{
    if v.owners()[v.next] {
        (v, Seq::empty())
    } else {
        let w = v.descs[v.next].des3;
        let rest = spec_drain(drain_step(v));
        if frame_discard(w) {
            rest
        } else {
            (rest.0, seq![v.bufs[v.next].take(frame_len(w, v.buf_len))] + rest.1)
        }
    }
}

#[via_fn]
proof fn spec_drain_decreases(v: RingView<RxDescriptor>) {
    if !v.owners()[v.next] {
        lemma_drain_step_owners(v);
        lemma_sw_owned_count_update(v.owners(), v.next);
    }
}

/// What one drain step found: nothing yet, a slot consumed without a frame,
/// or a whole error-free frame.
pub enum RxPoll {
    /// The cursor slot is still with hardware: no frame has arrived.
    NoFrame,
    /// The cursor slot was handed back but classified away — context
    /// descriptor, partial packet, or receive error — and has been re-armed.
    Discarded,
    /// A whole, error-free frame; its slot has been re-armed.
    Frame(Vec<u8>),
}

/// A receive-specialised descriptor and buffer ring: the generic [`Ring`]
/// with the descriptor type fixed and every buffer one MTU long.
pub struct RxRing(Ring<RxDescriptor>);

/// Well-formedness of a receive ring: the ring invariant with the buffer
/// size pinned at the MTU.
pub open spec fn rx_wf(v: RingView<RxDescriptor>) -> bool {
    &&& v.wf()
    &&& v.buf_len == MTU as int
}

impl View for RxRing {
    type V = RingView<RxDescriptor>;

    closed spec fn view(&self) -> RingView<RxDescriptor> {
        self.0@
    }
}

impl RxRing {
    /// Builds a receive ring of `n` slots, descriptors at `desc_base` and
    /// buffers at `buf_base`, every slot armed and handed to hardware.
    pub fn new(n: usize, desc_base: u32, buf_base: u32) -> (r: Self)
        requires
            0 < n,
            desc_base as int + DESC_BYTES as int * n as int <= u32::MAX as int + 1,
            buf_base as int + MTU as int * n as int <= u32::MAX as int + 1,
        ensures
            rx_wf(r@),
            r@.next == 0,
            r@.descs.len() == n as int,
            r@.desc_base == desc_base,
            r@.buf_base == buf_base,
            forall|i: int| 0 <= i < n as int ==> #[trigger] r@.owners()[i],
            forall|i: int| 0 <= i < n as int ==> #[trigger] r@.descs[i] == r@.initial_slot(i),
            forall|i: int|
                0 <= i < n as int ==> #[trigger] r@.bufs[i] == Seq::new(MTU as nat, |j: int| 0u8),
    {
        let r = RxRing(Ring::new(n, MTU, desc_base, buf_base));
        proof {
            assert forall|i: int| 0 <= i < n as int implies #[trigger] r@.owners()[i] by {
                assert(r@.owners()[i] == RxDescriptor::spec_initially_owned_by_hw());
            }
        }
        r
    }

    /// Re-arms the cursor slot for another reception: the descriptor is
    /// rebuilt in its initial state — buffer address and armed flags — and
    /// handed back to hardware, advancing the cursor. The slot's buffer
    /// bytes are left as they are; the engine overwrites them on the next
    /// reception.
    fn rearm_next(&mut self)
        requires
            rx_wf(old(self)@),
            !old(self)@.owners()[old(self)@.next],
        ensures
            rx_wf(final(self)@),
            final(self)@.descs == old(self)@.descs.update(
                old(self)@.next,
                old(self)@.initial_slot(old(self)@.next),
            ),
            final(self)@.bufs == old(self)@.bufs,
            final(self)@.next == next_cursor(old(self)@.next, old(self)@.descs.len() as int),
            final(self)@.owners() == old(self)@.owners().update(old(self)@.next, true),
            final(self)@.desc_base == old(self)@.desc_base,
            final(self)@.buf_base == old(self)@.buf_base,
            final(self)@.buf_len == old(self)@.buf_len,
    {
        let addr = self.0.next_buffer_ptr();
        let len = self.0.buffer_len();
        let d = RxDescriptor::initial_state(addr, len);
        self.0.commit_next_descriptor(d);
    }

    /// Attempts to dequeue an incoming frame.
    ///
    /// Returns `None` while the cursor slot is still with hardware: no frame
    /// has arrived. Once hardware has handed the slot back, the slot is
    /// classified: a context descriptor, a partial packet or an errored
    /// frame is consumed and the slot re-armed without invoking `body`, and
    /// the call returns `Some(Commit::Yes)`. Otherwise `body` receives the
    /// frame — the first packet-length bytes of the slot's buffer — and its
    /// decision is followed: `Commit::Yes` consumes the frame and re-arms
    /// the slot; `Commit::No` leaves the slot untouched, to be offered again
    /// on the next call — the backpressure path.
    pub fn receive<F: FnOnce(Vec<u8>) -> Commit>(&mut self, body: F) -> (r: Option<Commit>)
        requires
            rx_wf(old(self)@),
            forall|f: Vec<u8>| f@.len() <= MTU as int ==> call_requires(body, (f,)),
        ensures
            rx_wf(final(self)@),
            final(self)@.descs.len() == old(self)@.descs.len(),
            final(self)@.desc_base == old(self)@.desc_base,
            final(self)@.buf_base == old(self)@.buf_base,
            (r == None::<Commit>) <==> old(self)@.owners()[old(self)@.next],
            r == None::<Commit> ==> final(self)@ == old(self)@,
            r == Some(Commit::No) ==> final(self)@ == old(self)@,
            ({
                let i = old(self)@.next;
                let w = old(self)@.descs[i].des3;
                &&& (r is Some && frame_discard(w)) ==> r == Some(Commit::Yes)
                &&& r matches Some(c) ==> (!frame_discard(w) ==> exists|f: Vec<u8>|
                    {
                        &&& f@ == old(self)@.bufs[i].take(frame_len(w, old(self)@.buf_len))
                        &&& #[trigger] call_ensures(body, (f,), c)
                    })
                &&& r == Some(Commit::Yes) ==> {
                    &&& final(self)@.descs == old(self)@.descs.update(i, old(self)@.initial_slot(i))
                    &&& final(self)@.bufs == old(self)@.bufs
                    &&& final(self)@.next == next_cursor(i, old(self)@.descs.len() as int)
                    &&& final(self)@.owners() == old(self)@.owners().update(i, true)
                }
            }),
    {
        if self.0.is_next_owned_by_hw() {
            return None;
        }
        // The hardware has handed this slot back. It always writes the
        // descriptor when it does so, but it writes the packet buffer only
        // when it actually received a frame, as opposed to, say, using the
        // descriptor to report an error.
        let d = self.0.read_next_descriptor();
        let status = d.read_rdes3_status();
        if status.ctxt() {
            // Context descriptors are unsupported: consume and re-arm.
            self.rearm_next();
            return Some(Commit::Yes);
        }
        if !status.fd() || !status.ld() {
            // A partial packet: multi-buffer receive is unsupported.
            self.rearm_next();
            return Some(Commit::Yes);
        }
        if status.es() || status.oe() {
            // The engine reported an error receiving this frame: discard.
            self.rearm_next();
            return Some(Commit::Yes);
        }
        // The engine claims to have written this many bytes of the buffer;
        // trust it as far as the buffer reaches.
        let pl = status.pl();
        let buf = self.0.read_next_buffer();
        let total = buf.len();
        let len = if (pl as usize) <= total {
            pl as usize
        } else {
            total
        };
        let mut f: Vec<u8> = Vec::new();
        let mut j: usize = 0;
        while j < len
            invariant
                j <= len,
                len <= buf@.len(),
                f@ == buf@.take(j as int),
            decreases len - j,
        {
            f.push(buf[j]);
            proof {
                assert(f@ =~= buf@.take(j as int + 1));
            }
            j += 1;
        }
        let ghost gf: Vec<u8> = f;
        let c = body(f);
        proof {
            assert(call_ensures(body, (gf,), c));
            assert(gf@ == old(self)@.bufs[old(self)@.next].take(
                frame_len(old(self)@.descs[old(self)@.next].des3, old(self)@.buf_len),
            ));
        }
        match c {
            Commit::No => Some(Commit::No),
            Commit::Yes => {
                self.rearm_next();
                Some(Commit::Yes)
            },
        }
    }

    /// One step of a drain pass: like [`RxRing::receive`] with a body that
    /// always commits, but handing the frame back to the caller. A separate
    /// entry point because a frame must leave the ring by value for the slot
    /// to be re-armed immediately.
    pub fn poll(&mut self) -> (r: RxPoll)
        requires
            rx_wf(old(self)@),
        ensures
            rx_wf(final(self)@),
            final(self)@.descs.len() == old(self)@.descs.len(),
            final(self)@.desc_base == old(self)@.desc_base,
            final(self)@.buf_base == old(self)@.buf_base,
            (r is NoFrame) <==> old(self)@.owners()[old(self)@.next],
            r is NoFrame ==> final(self)@ == old(self)@,
            ({
                let i = old(self)@.next;
                let w = old(self)@.descs[i].des3;
                &&& r is Discarded ==> frame_discard(w)
                &&& r matches RxPoll::Frame(f) ==> {
                    &&& !frame_discard(w)
                    &&& f@ == old(self)@.bufs[i].take(frame_len(w, old(self)@.buf_len))
                }
                &&& (r is Discarded || r is Frame) ==> {
                    &&& final(self)@.descs == old(self)@.descs.update(i, old(self)@.initial_slot(i))
                    &&& final(self)@.bufs == old(self)@.bufs
                    &&& final(self)@.next == next_cursor(i, old(self)@.descs.len() as int)
                    &&& final(self)@.owners() == old(self)@.owners().update(i, true)
                }
            }),
    {
        if self.0.is_next_owned_by_hw() {
            return RxPoll::NoFrame;
        }
        let d = self.0.read_next_descriptor();
        let status = d.read_rdes3_status();
        if status.ctxt() || !status.fd() || !status.ld() || status.es() || status.oe() {
            self.rearm_next();
            return RxPoll::Discarded;
        }
        let pl = status.pl();
        let buf = self.0.read_next_buffer();
        let total = buf.len();
        let len = if (pl as usize) <= total {
            pl as usize
        } else {
            total
        };
        let mut f: Vec<u8> = Vec::new();
        let mut j: usize = 0;
        while j < len
            invariant
                j <= len,
                len <= buf@.len(),
                f@ == buf@.take(j as int),
            decreases len - j,
        {
            f.push(buf[j]);
            proof {
                assert(f@ =~= buf@.take(j as int + 1));
            }
            j += 1;
        }
        self.rearm_next();
        RxPoll::Frame(f)
    }

    /// Address of slot 0's descriptor, for the hardware's ring-base register.
    pub fn base_ptr(&self) -> (a: u32)
        ensures
            a == self@.desc_base,
    {
        self.0.base_ptr()
    }

    /// Address of the cursor slot's descriptor, for the hardware's receive
    /// tail-pointer register.
    pub fn next_ptr(&self) -> (a: u32)
        requires
            self@.wf(),
        ensures
            a as int == self@.slot_desc_addr(self@.next),
    {
        self.0.next_ptr()
    }

    /// The number of slots.
    pub fn len(&self) -> (n: usize)
        ensures
            n as int == self@.descs.len(),
    {
        self.0.len()
    }

    /// The underlying generic ring.
    pub fn ring(&self) -> (r: &Ring<RxDescriptor>)
        ensures
            r@ == self@,
    {
        &self.0
    }

    /// Mutable access to the underlying generic ring, used to play the
    /// hardware's half of the handshake when no DMA engine is present.
    pub fn ring_mut(&mut self) -> (r: &mut Ring<RxDescriptor>)
        ensures
            r@ == old(self)@,
            final(self)@ == final(r)@,
    {
        &mut self.0
    }
}

} // verus!

