//! The transmit-specialised descriptor/buffer ring.
//!
//! Fixes the descriptor type and the buffer size at the MTU, and adds the
//! hardware-facing field population rules: a committed transmit descriptor
//! carries the buffer address, the frame length, and both fragment flags
//! (multi-buffer packets are unsupported), with checksum and segmentation
//! offload left disabled.

use vstd::prelude::*;
use crate::desc::{bit_set, Tdes2, Tdes2Fields, Tdes3, Tdes3Fields, TxDescriptor};
use crate::ring::{next_cursor, Commit, Descriptor, Ring, RingView, DESC_BYTES};

verus! {

/// Maximum size of packet that can be transmitted. Raising this requires MAC
/// settings for jumbo frames, which nothing in this crate programs.
pub const MTU: usize = 1536;

/// The byte written over a transmit window before the caller fills it, so
/// that bytes the caller fails to overwrite are detectable rather than a
/// leak of a previous packet's contents.
pub const POISON_BYTE: u8 = 0xAA;

/// The window handed to a transmit body: `size` poison bytes.
pub open spec fn poison_window(size: int) -> Seq<u8> {
    Seq::new(size as nat, |j: int| POISON_BYTE)
}

impl Descriptor for TxDescriptor {
    /// Transmit slots start with software: nothing is in flight until
    /// software publishes a frame.
    open spec fn spec_initially_owned_by_hw() -> bool {
        false
    }

    open spec fn spec_owned_by_hw(self) -> bool {
        bit_set(self.des3, 31)
    }

    /// Transmit descriptors are bound to a buffer per transmission, so any
    /// buffer length is acceptable at construction.
    open spec fn spec_len_ok(len: usize) -> bool {
        true
    }

    /// A transmit descriptor starts zeroed; address, length and flags are
    /// filled in per transmission instead.
    open spec fn spec_initial(buffer_addr: u32, len: usize) -> Self {
        TxDescriptor { des0: 0, des1: 0, des2: 0, des3: 0 }
    }

    open spec fn spec_with_hw_owned(self) -> Self {
        TxDescriptor { des3: self.des3 | 0x8000_0000, ..self }
    }

    open spec fn spec_with_sw_owned(self) -> Self {
        TxDescriptor { des3: self.des3 & 0x7fff_ffff, ..self }
    }

    fn initially_owned_by_hw() -> (b: bool) {
        false
    }

    fn initial_state(buffer_addr: u32, len: usize) -> (d: Self) {
        proof {
            assert((0u32 >> 31) & 1 == 0) by (bit_vector);
        }
        TxDescriptor { des0: 0, des1: 0, des2: 0, des3: 0 }
    }

    fn is_owned_by_hw(&self) -> (b: bool) {
        (self.des3 >> 31) & 1 == 1
    }

    fn set_owned_by_hw(&mut self) {
        let w = self.des3;
        proof {
            assert(((w | 0x8000_0000u32) >> 31) & 1 == 1) by (bit_vector);
        }
        self.des3 = w | 0x8000_0000;
    }

    fn clear_owned_by_hw(&mut self) {
        let w = self.des3;
        proof {
            assert(((w & 0x7fff_ffffu32) >> 31) & 1 == 0) by (bit_vector);
        }
        self.des3 = w & 0x7fff_ffff;
    }
}

/// Setting the ownership bit of a TDES3 word changes no other field; and on a
/// word whose ownership bit was clear, clearing it again restores the word
/// exactly.
pub proof fn lemma_t3_own_set(w: u32)
    ensures
        Tdes3(w | 0x8000_0000u32)@ == (Tdes3Fields { own: true, ..Tdes3(w)@ }),
        !bit_set(w, 31) ==> (w | 0x8000_0000u32) & 0x7fff_ffffu32 == w,
{
    assert((((w | 0x8000_0000u32) >> 31) & 1 == 1
        && ((w | 0x8000_0000u32) >> 30) & 1 == (w >> 30) & 1
        && ((w | 0x8000_0000u32) >> 29) & 1 == (w >> 29) & 1
        && ((w | 0x8000_0000u32) >> 28) & 1 == (w >> 28) & 1
        && ((w | 0x8000_0000u32) >> 26) & 0x3 == (w >> 26) & 0x3
        && ((w | 0x8000_0000u32) >> 23) & 0x7 == (w >> 23) & 0x7
        && ((w | 0x8000_0000u32) >> 19) & 0xf == (w >> 19) & 0xf
        && ((w | 0x8000_0000u32) >> 18) & 1 == (w >> 18) & 1
        && ((w | 0x8000_0000u32) >> 16) & 0x3 == (w >> 16) & 0x3
        && (w | 0x8000_0000u32) & 0x7fff == w & 0x7fff) && ((w >> 31) & 1 != 1 ==> (w
        | 0x8000_0000u32) & 0x7fff_ffffu32 == w)) by (bit_vector);
}

/// What a committed transmit descriptor says to the hardware: bound to the
/// slot's buffer, one whole frame of `size` bytes in a single descriptor,
/// hardware-owned, with checksum and segmentation offload disabled.
pub open spec fn tx_frame_published(d: TxDescriptor, buf_addr: int, size: int) -> bool {
    &&& d.des0 == buf_addr
    &&& Tdes2(d.des2)@ == (Tdes2Fields {
        ioc: false,
        ttse: false,
        buf2_len: 0,
        vtir: 0,
        buf1_len: size as u32,
    })
    &&& Tdes3(d.des3)@ == (Tdes3Fields {
        own: true,
        ctxt: false,
        fd: true,
        ld: true,
        cpc: 0,
        saic: 0,
        thl: 0,
        tse: false,
        cic: 0,
        fl: size as u32,
    })
}

/// A buffer of `size` poison bytes.
fn poison_buffer(size: usize) -> (b: Vec<u8>)
    ensures
        b@ == poison_window(size as int),
{
    let mut b: Vec<u8> = Vec::new();
    let mut j: usize = 0;
    while j < size
        invariant
            j <= size,
            b@.len() == j as int,
            forall|k: int| 0 <= k < j as int ==> b@[k] == POISON_BYTE,
        decreases size - j,
    {
        b.push(POISON_BYTE);
        j += 1;
    }
    proof {
        assert(b@ =~= poison_window(size as int));
    }
    b
}

/// A transmit-specialised descriptor and buffer ring: the generic [`Ring`]
/// with the descriptor type fixed and every buffer one MTU long.
pub struct TxRing(Ring<TxDescriptor>);

/// Well-formedness of a transmit ring: the ring invariant with the buffer
/// size pinned at the MTU.
pub open spec fn tx_wf(v: RingView<TxDescriptor>) -> bool {
    &&& v.wf()
    &&& v.buf_len == MTU as int
}

impl View for TxRing {
    type V = RingView<TxDescriptor>;

    closed spec fn view(&self) -> RingView<TxDescriptor> {
        self.0@
    }
}

impl TxRing {
    /// Builds a transmit ring of `n` slots, descriptors at `desc_base` and
    /// buffers at `buf_base`, every slot starting under software ownership.
    pub fn new(n: usize, desc_base: u32, buf_base: u32) -> (r: Self)
        requires
            0 < n,
            desc_base as int + DESC_BYTES as int * n as int <= u32::MAX as int + 1,
            buf_base as int + MTU as int * n as int <= u32::MAX as int + 1,
        ensures
            tx_wf(r@),
            r@.next == 0,
            r@.descs.len() == n as int,
            r@.desc_base == desc_base,
            r@.buf_base == buf_base,
            forall|i: int| 0 <= i < n as int ==> !(#[trigger] r@.owners()[i]),
            forall|i: int| 0 <= i < n as int ==> #[trigger] r@.descs[i] == r@.initial_slot(i),
            forall|i: int|
                0 <= i < n as int ==> #[trigger] r@.bufs[i] == Seq::new(MTU as nat, |j: int| 0u8),
    {
        let r = TxRing(Ring::new(n, MTU, desc_base, buf_base));
        proof {
            assert forall|i: int| 0 <= i < n as int implies !(#[trigger] r@.owners()[i]) by {
                assert(r@.owners()[i] == TxDescriptor::spec_initially_owned_by_hw());
            }
        }
        r
    }

    /// Prepares to transmit a packet of `size` bytes if a slot is available.
    ///
    /// When the cursor slot is free, its `size`-byte window is first filled
    /// with the poison byte and handed to `body`, which either fills all
    /// `size` bytes and returns `Commit::Yes`, or returns `Commit::No`, in
    /// which case its changes are discarded and the ring is left untouched.
    /// On `Commit::Yes` the descriptor is populated — buffer address, frame
    /// length `size`, first- and last-fragment flags set, offloads disabled —
    /// and handed to hardware through the ring's handoff, advancing the
    /// cursor. Returns `None` when every slot is in flight.
    pub fn transmit<F: FnOnce(Vec<u8>) -> (Vec<u8>, Commit)>(&mut self, size: usize, body: F) -> (r:
        Option<Commit>)
        requires
            tx_wf(old(self)@),
            size < MTU,
            forall|w: Vec<u8>| w@ == poison_window(size as int) ==> call_requires(body, (w,)),
            forall|w: Vec<u8>, ret: (Vec<u8>, Commit)|
                #[trigger] call_ensures(body, (w,), ret) && w@.len() == size as int
                    ==> ret.0@.len() == w@.len(),
        ensures
            tx_wf(final(self)@),
            final(self)@.descs.len() == old(self)@.descs.len(),
            final(self)@.desc_base == old(self)@.desc_base,
            final(self)@.buf_base == old(self)@.buf_base,
            (r == None::<Commit>) <==> old(self)@.owners()[old(self)@.next],
            r == None::<Commit> ==> final(self)@ == old(self)@,
            r == Some(Commit::No) ==> final(self)@ == old(self)@,
            r matches Some(c) ==> exists|w1: Vec<u8>, w2: Vec<u8>|
                {
                    &&& w1@ == poison_window(size as int)
                    &&& #[trigger] call_ensures(body, (w1,), (w2, c))
                    &&& c == Commit::Yes ==> {
                        &&& final(self)@.next == next_cursor(
                            old(self)@.next,
                            old(self)@.descs.len() as int,
                        )
                        &&& final(self)@.owners() == old(self)@.owners().update(
                            old(self)@.next,
                            true,
                        )
                        &&& forall|k: int|
                            0 <= k < old(self)@.descs.len() && k != old(self)@.next ==> (
                            #[trigger] final(self)@.descs[k]) == old(self)@.descs[k]
                        &&& forall|k: int|
                            0 <= k < old(self)@.descs.len() && k != old(self)@.next ==> (
                            #[trigger] final(self)@.bufs[k]) == old(self)@.bufs[k]
                        &&& final(self)@.bufs[old(self)@.next] == w2@ + old(self)@.bufs[old(
                            self,
                        )@.next].skip(size as int)
                        &&& tx_frame_published(
                            final(self)@.descs[old(self)@.next],
                            old(self)@.slot_buf_addr(old(self)@.next),
                            size as int,
                        )
                        &&& final(self)@.descs[old(self)@.next].des1 == old(self)@.descs[old(
                            self,
                        )@.next].des1
                    }
                },
    {
        if self.0.is_next_owned_by_hw() {
            return None;
        }
        // Defensively fill the window the caller asked for, so that anything
        // it fails to overwrite is the poison byte and not another packet's
        // bytes.
        let w = poison_buffer(size);
        let ghost gw: Vec<u8> = w;
        let (w2, c) = body(w);
        proof {
            assert(call_ensures(body, (gw,), (w2, c)));
        }
        match c {
            Commit::No => Some(Commit::No),
            Commit::Yes => {
                let addr = self.0.next_buffer_ptr();
                let mut d = self.0.read_next_descriptor();
                d.write_buf1_address(addr);
                proof {
                    // Field values of an all-zero word, for the fields the
                    // builders below leave untouched.
                    assert((0u32 >> 31) & 1 == 0 && (0u32 >> 30) & 1 == 0 && (0u32 >> 19) & 0xf
                        == 0 && (0u32 >> 16) & 0x3fff == 0 && (0u32 >> 14) & 0x3 == 0) by (
                    bit_vector);
                }
                let mut t2 = Tdes2(0);
                t2.set_buf1_len(size as u32);
                d.write_tdes2(t2);
                let mut t3 = Tdes3(0);
                // A data descriptor, not a context descriptor.
                t3.set_ctxt(false);
                // One whole frame of this length in this one buffer.
                t3.set_fl(size as u32);
                t3.set_fd(true);
                t3.set_ld(true);
                // CRC insertion and padding.
                t3.set_cpc(0);
                // No source address insertion.
                t3.set_saic(0);
                // No segmentation offload, no checksum insertion.
                t3.set_tse(false);
                t3.set_cic(0);
                d.write_tdes3(t3);
                // The committed buffer: the window as the caller left it,
                // then the rest of the slot's buffer unchanged.
                let mut nb = w2;
                let cur = self.0.read_next_buffer();
                let total = cur.len();
                let mut j: usize = size;
                while j < total
                    invariant
                        size <= j <= total,
                        total == cur@.len(),
                        nb@ == w2@ + cur@.subrange(size as int, j as int),
                    decreases total - j,
                {
                    nb.push(cur[j]);
                    proof {
                        assert(nb@ =~= w2@ + cur@.subrange(size as int, j as int + 1));
                    }
                    j += 1;
                }
                proof {
                    assert(cur@.subrange(size as int, total as int) =~= cur@.skip(size as int));
                }
                proof {
                    lemma_t3_own_set(d.des3);
                }
                self.0.commit_next(d, nb);
                Some(Commit::Yes)
            },
        }
    }

    /// Address of slot 0's descriptor, for the hardware's ring-base register.
    pub fn base_ptr(&self) -> (a: u32)
        ensures
            a == self@.desc_base,
    {
        self.0.base_ptr()
    }

    /// Address of the cursor slot's descriptor, for the hardware's transmit
    /// tail-pointer register.
    pub fn next_ptr(&self) -> (a: u32)
        requires
            self@.wf(),
        ensures
            a as int == self@.slot_desc_addr(self@.next),
    {
        self.0.next_ptr()
    }

    /// The number of slots.
    pub fn len(&self) -> (n: usize)
        ensures
            n as int == self@.descs.len(),
    {
        self.0.len()
    }

    /// The underlying generic ring.
    pub fn ring(&self) -> (r: &Ring<TxDescriptor>)
        ensures
            r@ == self@,
    {
        &self.0
    }

    /// Mutable access to the underlying generic ring, used to play the
    /// hardware's half of the handshake when no DMA engine is present.
    pub fn ring_mut(&mut self) -> (r: &mut Ring<TxDescriptor>)
        ensures
            r@ == old(self)@,
            final(self)@ == final(r)@,
    {
        &mut self.0
    }
}

} // verus!
