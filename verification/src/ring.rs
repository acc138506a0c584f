//! The generic descriptor/buffer ring and its ownership handshake.
//!
//! A ring owns a fixed number of descriptor/buffer pairs and a single
//! round-robin cursor. Each slot is owned either by software or by the DMA
//! engine, never both and never neither; the ownership bit in the descriptor's
//! status word is the only coordination signal between the two sides. The
//! hardware walks the same slots in the same order with its own pointer, so
//! software offers slots strictly in cursor order and a slot handed to
//! hardware is off-limits until its ownership bit reverts.
//!
//! The hardware's half of the protocol — mutating a slot it owns and handing
//! it back — is modelled by the `hw_`-prefixed operations, so that the whole
//! handshake can be exercised and reasoned about without a DMA engine.

use vstd::prelude::*;

verus! {

/// A caller's decision on an offered slot: `Yes` transfers ownership of the
/// slot to hardware and advances the cursor, `No` leaves both untouched.
#[derive(Clone, Copy, Debug, PartialEq, Eq, Structural)]
pub enum Commit {
    Yes,
    No,
}

/// The operations a descriptor must provide for the ring to run the
/// ownership handshake over it, implemented once per transfer direction.
pub trait Descriptor: Sized + Copy {
    /// Whether a freshly constructed ring starts its slots under hardware
    /// ownership: true for receive (hardware waits to fill the buffer), false
    /// for transmit (software waits to fill the buffer).
    spec fn spec_initially_owned_by_hw() -> bool;

    /// The ownership bit as decoded from the status word.
    spec fn spec_owned_by_hw(self) -> bool;

    /// Which per-slot buffer lengths `initial_state` accepts.
    spec fn spec_len_ok(len: usize) -> bool;

    /// The value `initial_state` builds.
    spec fn spec_initial(buffer_addr: u32, len: usize) -> Self;

    /// This descriptor with the ownership bit set and every other field kept.
    spec fn spec_with_hw_owned(self) -> Self;

    /// This descriptor with the ownership bit cleared and every other field
    /// kept.
    spec fn spec_with_sw_owned(self) -> Self;

    /// [`Descriptor::spec_initially_owned_by_hw`] as a runtime value.
    fn initially_owned_by_hw() -> (b: bool)
        ensures
            b == Self::spec_initially_owned_by_hw(),
    ;

    /// Builds a fresh descriptor bound to the buffer at `buffer_addr` of
    /// `len` bytes. The ownership bit is left clear: the ring decides the
    /// starting owner.
    fn initial_state(buffer_addr: u32, len: usize) -> (d: Self)
        requires
            Self::spec_len_ok(len),
        ensures
            d == Self::spec_initial(buffer_addr, len),
            !d.spec_owned_by_hw(),
    ;

    /// Decodes the ownership bit from the status word.
    fn is_owned_by_hw(&self) -> (b: bool)
        ensures
            b == self.spec_owned_by_hw(),
    ;

    /// Sets the ownership bit: control of the descriptor and its buffer
    /// leaves the software domain. No further software access is permitted
    /// until ownership reverts; the ring layer enforces that discipline.
    fn set_owned_by_hw(&mut self)
        ensures
            *final(self) == old(self).spec_with_hw_owned(),
            final(self).spec_owned_by_hw(),
    ;

    /// Clears the ownership bit. This is the hardware's half of the
    /// handshake — software never calls it on a live ring — and exists so
    /// that hardware completions can be simulated.
    fn clear_owned_by_hw(&mut self)
        ensures
            *final(self) == old(self).spec_with_sw_owned(),
            !final(self).spec_owned_by_hw(),
    ;
}

/// Abstract state of a ring: the descriptor and buffer contents slot by slot,
/// the cursor, and the fixed layout parameters.
pub struct RingView<D> {
    /// Descriptor of each slot, in slot order.
    pub descs: Seq<D>,
    /// Buffer contents of each slot, in slot order.
    pub bufs: Seq<Seq<u8>>,
    /// The slot software will offer next.
    pub next: int,
    /// Address of slot 0's descriptor, as programmed into the ring-base
    /// register.
    pub desc_base: u32,
    /// Address of slot 0's buffer.
    pub buf_base: u32,
    /// Fixed byte length of every buffer.
    pub buf_len: int,
}

/// Bytes occupied by one descriptor: four 32-bit words.
pub const DESC_BYTES: usize = 16;

/// The cursor that follows `i` in a ring of `n` slots: one step of the
/// round-robin walk, wrapping at `n`.
pub open spec fn next_cursor(i: int, n: int) -> int {
    if i + 1 == n {
        0
    } else {
        i + 1
    }
}

impl<D: Descriptor> RingView<D> {
    /// Well-formedness: one buffer per descriptor, a cursor inside the ring,
    /// uniform buffer lengths, and both storage areas within the 32-bit
    /// address space.
    pub open spec fn wf(self) -> bool {
        &&& self.descs.len() == self.bufs.len()
        &&& 0 < self.descs.len()
        &&& 0 <= self.next < self.descs.len()
        &&& (forall|i: int|
            0 <= i < self.bufs.len() ==> (#[trigger] self.bufs[i]).len() == self.buf_len)
        &&& 0 < self.buf_len
        &&& D::spec_len_ok(self.buf_len as usize)
        &&& self.buf_len <= usize::MAX as int
        &&& self.desc_base as int + DESC_BYTES as int * self.descs.len() <= u32::MAX as int + 1
        &&& self.buf_base as int + self.buf_len * self.descs.len() <= u32::MAX as int + 1
    }

    /// The owner of each slot: true where the hardware holds it.
    pub open spec fn owners(self) -> Seq<bool> {
        Seq::new(self.descs.len(), |i: int| self.descs[i].spec_owned_by_hw())
    }

    /// Address of slot `i`'s descriptor.
    pub open spec fn slot_desc_addr(self, i: int) -> int {
        self.desc_base as int + DESC_BYTES as int * i
    }

    /// Address of slot `i`'s buffer.
    pub open spec fn slot_buf_addr(self, i: int) -> int {
        self.buf_base as int + self.buf_len * i
    }

    /// The descriptor a freshly constructed ring places in slot `i`: the
    /// direction's initial state, handed to hardware where the direction
    /// starts hardware-owned.
    pub open spec fn initial_slot(self, i: int) -> D {
        if D::spec_initially_owned_by_hw() {
            D::spec_initial(self.slot_buf_addr(i) as u32, self.buf_len as usize).spec_with_hw_owned()
        } else {
            D::spec_initial(self.slot_buf_addr(i) as u32, self.buf_len as usize)
        }
    }
}

/// How many slots software currently holds: each handoff hands one of them
/// to hardware, so a run of handoffs without hardware activity is bounded by
/// this count.
pub open spec fn sw_owned_count(owners: Seq<bool>) -> nat
    decreases owners.len(),
{
    if owners.len() == 0 {
        0
    } else {
        (if owners[0] {
            0nat
        } else {
            1nat
        }) + sw_owned_count(owners.drop_first())
    }
}

/// Handing a software-owned slot to hardware lowers the software-owned count
/// by exactly one.
pub proof fn lemma_sw_owned_count_update(owners: Seq<bool>, i: int)
    requires
        0 <= i < owners.len(),
        !owners[i],
    ensures
        sw_owned_count(owners.update(i, true)) + 1 == sw_owned_count(owners),
    decreases owners.len(),
{
    if i == 0 {
        assert(owners.update(0, true).drop_first() =~= owners.drop_first());
    } else {
        lemma_sw_owned_count_update(owners.drop_first(), i - 1);
        assert(owners.update(i, true).drop_first() =~= owners.drop_first().update(i - 1, true));
    }
}

/// A fixed-capacity ring of descriptor/buffer pairs with a single round-robin
/// cursor, implementing the ownership handshake.
pub struct Ring<D: Descriptor> {
    descs: Vec<D>,
    bufs: Vec<Vec<u8>>,
    next: usize,
    desc_base: u32,
    buf_base: u32,
    buf_len: usize,
}

impl<D: Descriptor> View for Ring<D> {
    type V = RingView<D>;

    closed spec fn view(&self) -> RingView<D> {
        RingView {
            descs: self.descs@,
            bufs: Seq::new(self.bufs@.len(), |i: int| self.bufs@[i]@),
            next: self.next as int,
            desc_base: self.desc_base,
            buf_base: self.buf_base,
            buf_len: self.buf_len as int,
        }
    }
}

/// Offsets of in-range slots stay within the storage area: for slot `i` of
/// `n` with stride `b`, the slot's offset and one further stride fit under
/// `n * b`.
proof fn lemma_slot_offset_bounds(i: int, n: int, b: int)
    requires
        0 <= i < n,
        0 < b,
    ensures
        0 <= i * b,
        i * b + b <= n * b,
        i * b == b * i,
        n * b == b * n,
{
    assert(0 <= i * b && i * b + b <= n * b && i * b == b * i && n * b == b * n) by (
    nonlinear_arith)
        requires
            0 <= i < n && 0 < b,
    ;
}

/// A buffer of `len` zero bytes.
fn zero_buffer(len: usize) -> (b: Vec<u8>)
    ensures
        b@ == Seq::new(len as nat, |j: int| 0u8),
{
    let mut b: Vec<u8> = Vec::new();
    let mut j: usize = 0;
    while j < len
        invariant
            j <= len,
            b@.len() == j as int,
            forall|k: int| 0 <= k < j as int ==> b@[k] == 0u8,
        decreases len - j,
    {
        b.push(0u8);
        j += 1;
    }
    proof {
        assert(b@ =~= Seq::new(len as nat, |j: int| 0u8));
    }
    b
}

impl<D: Descriptor> Ring<D> {
    /// Builds a ring of `n` slots with `buf_len`-byte buffers, the descriptor
    /// area starting at `desc_base` and the buffer area at `buf_base`.
    ///
    /// Every slot is initialised through the direction's initial state and
    /// given its starting owner; buffers start zeroed; the cursor starts at
    /// slot 0. The ring owns its slots outright, so no second ring can ever
    /// alias the same storage.
    pub fn new(n: usize, buf_len: usize, desc_base: u32, buf_base: u32) -> (r: Self)
        requires
            0 < n,
            0 < buf_len,
            D::spec_len_ok(buf_len),
            desc_base as int + DESC_BYTES as int * n as int <= u32::MAX as int + 1,
            buf_base as int + buf_len as int * n as int <= u32::MAX as int + 1,
        ensures
            r@.wf(),
            r@.next == 0,
            r@.descs.len() == n as int,
            r@.buf_len == buf_len as int,
            r@.desc_base == desc_base,
            r@.buf_base == buf_base,
            forall|i: int| 0 <= i < n as int ==> #[trigger] r@.descs[i] == r@.initial_slot(i),
            forall|i: int|
                0 <= i < n as int ==> (#[trigger] r@.owners()[i]) == D::spec_initially_owned_by_hw(),
            forall|i: int|
                0 <= i < n as int ==> #[trigger] r@.bufs[i] == Seq::new(
                    buf_len as nat,
                    |j: int| 0u8,
                ),
    {
        let mut descs: Vec<D> = Vec::new();
        let mut bufs: Vec<Vec<u8>> = Vec::new();
        let hw = D::initially_owned_by_hw();
        let mut i: usize = 0;
        while i < n
            invariant
                i <= n,
                0 < buf_len,
                D::spec_len_ok(buf_len),
                buf_base as int + buf_len as int * n as int <= u32::MAX as int + 1,
                hw == D::spec_initially_owned_by_hw(),
                descs@.len() == i as int,
                bufs@.len() == i as int,
                forall|k: int|
                    0 <= k < i as int ==> #[trigger] descs@[k] == (if D::spec_initially_owned_by_hw() {
                        D::spec_initial(
                            (buf_base as int + buf_len as int * k) as u32,
                            buf_len,
                        ).spec_with_hw_owned()
                    } else {
                        D::spec_initial((buf_base as int + buf_len as int * k) as u32, buf_len)
                    }),
                forall|k: int|
                    0 <= k < i as int ==> (#[trigger] descs@[k]).spec_owned_by_hw()
                        == D::spec_initially_owned_by_hw(),
                forall|k: int|
                    0 <= k < i as int ==> (#[trigger] bufs@[k])@ == Seq::new(
                        buf_len as nat,
                        |j: int| 0u8,
                    ),
            decreases n - i,
        {
            proof {
                lemma_slot_offset_bounds(i as int, n as int, buf_len as int);
            }
            let offset = i * buf_len;
            let addr = buf_base + (offset as u32);
            let mut d = D::initial_state(addr, buf_len);
            if hw {
                d.set_owned_by_hw();
            }
            descs.push(d);
            bufs.push(zero_buffer(buf_len));
            i += 1;
        }
        let r = Ring { descs, bufs, next: 0, desc_base, buf_base, buf_len };
        proof {
            assert forall|k: int| 0 <= k < n as int implies #[trigger] r@.descs[k]
                == r@.initial_slot(k) by {
                assert(r@.slot_buf_addr(k) == buf_base as int + buf_len as int * k);
            }
            assert forall|k: int| 0 <= k < n as int implies (#[trigger] r@.owners()[k])
                == D::spec_initially_owned_by_hw() by {
                assert(r@.descs[k].spec_owned_by_hw() == D::spec_initially_owned_by_hw());
            }
        }
        r
    }

    /// The number of slots, fixed for the ring's lifetime.
    pub fn len(&self) -> (n: usize)
        ensures
            n as int == self@.descs.len(),
    {
        self.descs.len()
    }

    /// The byte length of every buffer, fixed for the ring's lifetime.
    pub fn buffer_len(&self) -> (n: usize)
        ensures
            n as int == self@.buf_len,
    {
        self.buf_len
    }

    /// Address of slot 0's descriptor, as programmed once into the
    /// hardware's ring-base register.
    pub fn base_ptr(&self) -> (a: u32)
        ensures
            a as int == self@.slot_desc_addr(0),
            a == self@.desc_base,
    {
        self.desc_base
    }

    /// Address of the cursor slot's descriptor, as programmed into the
    /// hardware's tail-pointer register after each handoff.
    pub fn next_ptr(&self) -> (a: u32)
        requires
            self@.wf(),
        ensures
            a as int == self@.slot_desc_addr(self@.next),
    {
        self.desc_base + (self.next as u32) * (DESC_BYTES as u32)
    }

    /// Address of the cursor slot's buffer.
    pub fn next_buffer_ptr(&self) -> (a: u32)
        requires
            self@.wf(),
        ensures
            a as int == self@.slot_buf_addr(self@.next),
    {
        proof {
            lemma_slot_offset_bounds(self@.next, self@.descs.len() as int, self@.buf_len);
        }
        let offset = self.next * self.buf_len;
        self.buf_base + (offset as u32)
    }

    /// True when the cursor slot is currently claimed by hardware — a
    /// transmission in flight, or a buffer awaiting an inbound frame.
    pub fn is_next_owned_by_hw(&self) -> (b: bool)
        requires
            self@.wf(),
        ensures
            b == self@.owners()[self@.next],
    {
        self.descs[self.next].is_owned_by_hw()
    }

    /// The descriptor at the cursor slot.
    pub fn read_next_descriptor(&self) -> (d: D)
        requires
            self@.wf(),
        ensures
            d == self@.descs[self@.next],
    {
        self.descs[self.next]
    }

    /// The buffer of the cursor slot. Software may only look at a buffer it
    /// owns: while hardware holds the slot the contents are changing under
    /// it.
    pub fn read_next_buffer(&self) -> (b: &Vec<u8>)
        requires
            self@.wf(),
            !self@.owners()[self@.next],
        ensures
            b@ == self@.bufs[self@.next],
    {
        &self.bufs[self.next]
    }

    /// The software→hardware handoff: stores `buf` as the cursor slot's
    /// buffer, publishes `d` with its ownership bit set as the slot's
    /// descriptor, and advances the cursor. The slot is off-limits to
    /// software from this point until hardware hands it back.
    pub fn commit_next(&mut self, d: D, buf: Vec<u8>)
        requires
            old(self)@.wf(),
            !old(self)@.owners()[old(self)@.next],
            !d.spec_owned_by_hw(),
            buf@.len() == old(self)@.buf_len,
        ensures
            final(self)@.wf(),
            final(self)@.descs == old(self)@.descs.update(
                old(self)@.next,
                d.spec_with_hw_owned(),
            ),
            final(self)@.bufs == old(self)@.bufs.update(old(self)@.next, buf@),
            final(self)@.next == next_cursor(old(self)@.next, old(self)@.descs.len() as int),
            final(self)@.owners() == old(self)@.owners().update(old(self)@.next, true),
            final(self)@.desc_base == old(self)@.desc_base,
            final(self)@.buf_base == old(self)@.buf_base,
            final(self)@.buf_len == old(self)@.buf_len,
    {
        let i = self.next;
        let mut d2 = d;
        d2.set_owned_by_hw();
        self.descs[i] = d2;
        self.bufs[i] = buf;
        self.next = if i + 1 == self.descs.len() {
            0
        } else {
            i + 1
        };
        proof {
            assert(self@.bufs =~= old(self)@.bufs.update(old(self)@.next, buf@));
            assert(self@.owners() =~= old(self)@.owners().update(old(self)@.next, true));
        }
    }

    /// The handoff with the slot's buffer kept as it is: publishes `d` with
    /// its ownership bit set and advances the cursor.
    pub fn commit_next_descriptor(&mut self, d: D)
        requires
            old(self)@.wf(),
            !old(self)@.owners()[old(self)@.next],
            !d.spec_owned_by_hw(),
        ensures
            final(self)@.wf(),
            final(self)@.descs == old(self)@.descs.update(
                old(self)@.next,
                d.spec_with_hw_owned(),
            ),
            final(self)@.bufs == old(self)@.bufs,
            final(self)@.next == next_cursor(old(self)@.next, old(self)@.descs.len() as int),
            final(self)@.owners() == old(self)@.owners().update(old(self)@.next, true),
            final(self)@.desc_base == old(self)@.desc_base,
            final(self)@.buf_base == old(self)@.buf_base,
            final(self)@.buf_len == old(self)@.buf_len,
    {
        let i = self.next;
        let mut d2 = d;
        d2.set_owned_by_hw();
        self.descs[i] = d2;
        self.next = if i + 1 == self.descs.len() {
            0
        } else {
            i + 1
        };
        proof {
            assert(self@.bufs =~= old(self)@.bufs);
            assert(self@.owners() =~= old(self)@.owners().update(old(self)@.next, true));
        }
    }

    /// The handshake core: offers the cursor slot to `body` if software owns
    /// it.
    ///
    /// When the cursor slot is claimed by hardware the call returns `None`
    /// without invoking `body`. Otherwise `body` receives the slot's
    /// descriptor and buffer and returns their new values with a commit
    /// decision: on `Commit::Yes` the descriptor is published with its
    /// ownership bit set and the cursor advances — the slot is off-limits to
    /// software from that point; on `Commit::No` the new values are written
    /// back but ownership and cursor stay untouched, so the same slot is
    /// offered again on the next call.
    ///
    /// `body` must leave the ownership bit clear — setting it is the ring's
    /// decision alone — and must keep the buffer's length.
    pub fn with_next_slot<F: FnOnce(D, Vec<u8>) -> (D, Vec<u8>, Commit)>(&mut self, body: F) -> (r:
        Option<Commit>)
        requires
            old(self)@.wf(),
            forall|b1: Vec<u8>|
                b1@ == old(self)@.bufs[old(self)@.next] ==> call_requires(
                    body,
                    (old(self)@.descs[old(self)@.next], b1),
                ),
            forall|b1: Vec<u8>, ret: (D, Vec<u8>, Commit)|
                b1@ == old(self)@.bufs[old(self)@.next] && #[trigger] call_ensures(
                    body,
                    (old(self)@.descs[old(self)@.next], b1),
                    ret,
                ) ==> !ret.0.spec_owned_by_hw() && ret.1@.len() == b1@.len(),
        ensures
            final(self)@.wf(),
            final(self)@.descs.len() == old(self)@.descs.len(),
            final(self)@.desc_base == old(self)@.desc_base,
            final(self)@.buf_base == old(self)@.buf_base,
            final(self)@.buf_len == old(self)@.buf_len,
            (r == None::<Commit>) <==> old(self)@.owners()[old(self)@.next],
            r == None::<Commit> ==> final(self)@ == old(self)@,
            r matches Some(c) ==> exists|b1: Vec<u8>, d2: D, b2: Vec<u8>|
                {
                    &&& b1@ == old(self)@.bufs[old(self)@.next]
                    &&& #[trigger] call_ensures(
                        body,
                        (old(self)@.descs[old(self)@.next], b1),
                        (d2, b2, c),
                    )
                    &&& c == Commit::No ==> {
                        &&& final(self)@.descs == old(self)@.descs.update(old(self)@.next, d2)
                        &&& final(self)@.bufs == old(self)@.bufs.update(old(self)@.next, b2@)
                        &&& final(self)@.next == old(self)@.next
                        &&& final(self)@.owners() == old(self)@.owners()
                    }
                    &&& c == Commit::Yes ==> {
                        &&& final(self)@.descs == old(self)@.descs.update(
                            old(self)@.next,
                            d2.spec_with_hw_owned(),
                        )
                        &&& final(self)@.bufs == old(self)@.bufs.update(old(self)@.next, b2@)
                        &&& final(self)@.next == next_cursor(
                            old(self)@.next,
                            old(self)@.descs.len() as int,
                        )
                        &&& final(self)@.owners() == old(self)@.owners().update(
                            old(self)@.next,
                            true,
                        )
                    }
                },
    {
        let i = self.next;
        let d = self.descs[i];
        if d.is_owned_by_hw() {
            return None;
        }
        let b = self.bufs.remove(i);
        let ghost gb: Vec<u8> = b;
        proof {
            assert(gb@ == old(self)@.bufs[old(self)@.next]);
            assert(call_requires(body, (old(self)@.descs[old(self)@.next], gb)));
        }
        let (d2, b2, c) = body(d, b);
        proof {
            assert(call_ensures(body, (d, gb), (d2, b2, c)));
        }
        self.bufs.insert(i, b2);
        match c {
            Commit::No => {
                self.descs[i] = d2;
                proof {
                    assert(self@.bufs =~= old(self)@.bufs.update(old(self)@.next, b2@));
                    assert(self@.owners() =~= old(self)@.owners());
                }
            },
            Commit::Yes => {
                let mut d3 = d2;
                d3.set_owned_by_hw();
                self.descs[i] = d3;
                self.next = if i + 1 == self.descs.len() {
                    0
                } else {
                    i + 1
                };
                proof {
                    assert(self@.bufs =~= old(self)@.bufs.update(old(self)@.next, b2@));
                    assert(self@.owners() =~= old(self)@.owners().update(old(self)@.next, true));
                }
            },
        }
        Some(c)
    }

    /// The descriptor of slot `i`, for a slot software owns.
    pub fn read_slot_descriptor(&self, i: usize) -> (d: D)
        requires
            self@.wf(),
            i < self@.descs.len(),
            !self@.owners()[i as int],
        ensures
            d == self@.descs[i as int],
    {
        self.descs[i]
    }

    /// The buffer of slot `i`, for a slot software owns.
    pub fn read_slot_buffer(&self, i: usize) -> (b: &Vec<u8>)
        requires
            self@.wf(),
            i < self@.descs.len(),
            !self@.owners()[i as int],
        ensures
            b@ == self@.bufs[i as int],
    {
        &self.bufs[i]
    }

    /// Models the hardware handing slot `i` back unchanged: the ownership
    /// bit is cleared and every other descriptor field and the buffer are
    /// kept. Only a slot the hardware owns can be handed back.
    pub fn hw_release(&mut self, i: usize)
        requires
            old(self)@.wf(),
            i < old(self)@.descs.len(),
            old(self)@.owners()[i as int],
        ensures
            final(self)@.wf(),
            final(self)@.descs == old(self)@.descs.update(
                i as int,
                old(self)@.descs[i as int].spec_with_sw_owned(),
            ),
            final(self)@.bufs == old(self)@.bufs,
            final(self)@.next == old(self)@.next,
            final(self)@.owners() == old(self)@.owners().update(i as int, false),
            final(self)@.desc_base == old(self)@.desc_base,
            final(self)@.buf_base == old(self)@.buf_base,
            final(self)@.buf_len == old(self)@.buf_len,
    {
        let mut d = self.descs[i];
        d.clear_owned_by_hw();
        self.descs[i] = d;
        proof {
            assert(self@.bufs =~= old(self)@.bufs);
            assert(self@.owners() =~= old(self)@.owners().update(i as int, false));
        }
    }

    /// Models the hardware writing slot `i` — status words and buffer bytes —
    /// and handing it back in the same step, as it does when it completes a
    /// reception.
    pub fn hw_write_and_release(&mut self, i: usize, d: D, buf: Vec<u8>)
        requires
            old(self)@.wf(),
            i < old(self)@.descs.len(),
            old(self)@.owners()[i as int],
            !d.spec_owned_by_hw(),
            buf@.len() == old(self)@.buf_len,
        ensures
            final(self)@.wf(),
            final(self)@.descs == old(self)@.descs.update(i as int, d),
            final(self)@.bufs == old(self)@.bufs.update(i as int, buf@),
            final(self)@.next == old(self)@.next,
            final(self)@.owners() == old(self)@.owners().update(i as int, false),
            final(self)@.desc_base == old(self)@.desc_base,
            final(self)@.buf_base == old(self)@.buf_base,
            final(self)@.buf_len == old(self)@.buf_len,
    {
        self.descs[i] = d;
        self.bufs[i] = buf;
        proof {
            assert(self@.bufs =~= old(self)@.bufs.update(i as int, buf@));
            assert(self@.owners() =~= old(self)@.owners().update(i as int, false));
        }
    }
}

} // verus!
