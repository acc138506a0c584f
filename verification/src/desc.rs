//! Typed bitfield views over the four 32-bit words of a DMA descriptor.
//!
//! A descriptor is a four-word record physically shared with the DMA engine.
//! Each direction (transmit, receive) interprets word 2 and word 3 through a
//! small set of named fields; the most significant bit of word 3 is always the
//! ownership bit. The wrapper types below carry one raw word each and expose
//! the named fields; their abstract value is a record of field values, so a
//! setter's contract states exactly which field changed and that every other
//! field kept its value.

use vstd::prelude::*;

verus! {

/// True when bit `i` of `w` is set.
pub open spec fn bit_set(w: u32, i: u32) -> bool
    recommends
        i < 32,
{
    (w >> i) & 1u32 == 1u32
}

/// The value of the field of `w` that starts at bit `lo` and is covered by
/// `mask` once shifted down.
pub open spec fn field(w: u32, lo: u32, mask: u32) -> u32
    recommends
        lo < 32,
{
    (w >> lo) & mask
}

// ---------------------------------------------------------------------------
// TDES2: second word of a transmit descriptor as published to the DMA engine.
// ---------------------------------------------------------------------------

/// Contents of the TDES2 word in descriptors published to the DMA engine.
#[derive(Clone, Copy)]
pub struct Tdes2(pub u32);

/// Abstract value of a [`Tdes2`] word: one entry per named field.
pub struct Tdes2Fields {
    /// Interrupt on completion.
    pub ioc: bool,
    /// Transmit timestamp enable.
    pub ttse: bool,
    /// Number of valid bytes at the buffer 2 address.
    pub buf2_len: u32,
    /// VLAN tag insertion/replacement.
    pub vtir: u32,
    /// Number of valid bytes at the buffer 1 address.
    pub buf1_len: u32,
}

impl View for Tdes2 {
    type V = Tdes2Fields;

    open spec fn view(&self) -> Tdes2Fields {
        Tdes2Fields {
            ioc: bit_set(self.0, 31),
            ttse: bit_set(self.0, 30),
            buf2_len: field(self.0, 16, 0x3fff),
            vtir: field(self.0, 14, 0x3),
            buf1_len: self.0 & 0x3fff,
        }
    }
}

impl Tdes2 {
    /// Interrupt on completion: when the descriptor completes, the transmit
    /// interrupt status bit is raised.
    pub fn ioc(&self) -> (b: bool)
        ensures
            b == self@.ioc,
    {
        (self.0 >> 31) & 1 == 1
    }

    /// Transmit timestamp enable.
    pub fn ttse(&self) -> (b: bool)
        ensures
            b == self@.ttse,
    {
        (self.0 >> 30) & 1 == 1
    }

    /// Buffer 2 length.
    pub fn buf2_len(&self) -> (v: u32)
        ensures
            v == self@.buf2_len,
    {
        (self.0 >> 16) & 0x3fff
    }

    /// VLAN tag insertion/replacement.
    pub fn vtir(&self) -> (v: u32)
        ensures
            v == self@.vtir,
    {
        (self.0 >> 14) & 0x3
    }

    /// Buffer 1 length.
    pub fn buf1_len(&self) -> (v: u32)
        ensures
            v == self@.buf1_len,
    {
        self.0 & 0x3fff
    }

    /// Sets the interrupt-on-completion flag, leaving every other field as it
    /// was.
    pub fn set_ioc(&mut self, v: bool)
        ensures
            final(self)@ == (Tdes2Fields { ioc: v, ..old(self)@ }),
    {
        let w = self.0;
        let c: u32 = if v { 0x8000_0000 } else { 0 };
        let nw = (w & !0x8000_0000u32) | c;
        proof {
            assert((((w & !0x8000_0000u32) | c) >> 31) & 1 == (if c == 0 { 0u32 } else { 1u32 })
                && (((w & !0x8000_0000u32) | c) >> 30) & 1 == (w >> 30) & 1
                && (((w & !0x8000_0000u32) | c) >> 16) & 0x3fff == (w >> 16) & 0x3fff
                && (((w & !0x8000_0000u32) | c) >> 14) & 0x3 == (w >> 14) & 0x3
                && ((w & !0x8000_0000u32) | c) & 0x3fff == w & 0x3fff) by (bit_vector)
                requires
                    c == 0 || c == 0x8000_0000u32,
            ;
        }
        self.0 = nw;
    }

    /// Sets the timestamp-enable flag, leaving every other field as it was.
    pub fn set_ttse(&mut self, v: bool)
        ensures
            final(self)@ == (Tdes2Fields { ttse: v, ..old(self)@ }),
    {
        let w = self.0;
        let c: u32 = if v { 0x4000_0000 } else { 0 };
        let nw = (w & !0x4000_0000u32) | c;
        proof {
            assert((((w & !0x4000_0000u32) | c) >> 31) & 1 == (w >> 31) & 1
                && (((w & !0x4000_0000u32) | c) >> 30) & 1 == (if c == 0 { 0u32 } else { 1u32 })
                && (((w & !0x4000_0000u32) | c) >> 16) & 0x3fff == (w >> 16) & 0x3fff
                && (((w & !0x4000_0000u32) | c) >> 14) & 0x3 == (w >> 14) & 0x3
                && ((w & !0x4000_0000u32) | c) & 0x3fff == w & 0x3fff) by (bit_vector)
                requires
                    c == 0 || c == 0x4000_0000u32,
            ;
        }
        self.0 = nw;
    }

    /// Sets the buffer 2 length, leaving every other field as it was.
    pub fn set_buf2_len(&mut self, v: u32)
        requires
            v <= 0x3fff,
        ensures
            final(self)@ == (Tdes2Fields { buf2_len: v, ..old(self)@ }),
    {
        let w = self.0;
        let nw = (w & !0x3fff_0000u32) | (v << 16);
        proof {
            assert((((w & !0x3fff_0000u32) | (v << 16)) >> 31) & 1 == (w >> 31) & 1
                && (((w & !0x3fff_0000u32) | (v << 16)) >> 30) & 1 == (w >> 30) & 1
                && (((w & !0x3fff_0000u32) | (v << 16)) >> 16) & 0x3fff == v
                && (((w & !0x3fff_0000u32) | (v << 16)) >> 14) & 0x3 == (w >> 14) & 0x3
                && ((w & !0x3fff_0000u32) | (v << 16)) & 0x3fff == w & 0x3fff) by (bit_vector)
                requires
                    v <= 0x3fff,
            ;
        }
        self.0 = nw;
    }

    /// Sets the VLAN tag control field, leaving every other field as it was.
    pub fn set_vtir(&mut self, v: u32)
        requires
            v <= 0x3,
        ensures
            final(self)@ == (Tdes2Fields { vtir: v, ..old(self)@ }),
    {
        let w = self.0;
        let nw = (w & !0x0000_c000u32) | (v << 14);
        proof {
            assert((((w & !0x0000_c000u32) | (v << 14)) >> 31) & 1 == (w >> 31) & 1
                && (((w & !0x0000_c000u32) | (v << 14)) >> 30) & 1 == (w >> 30) & 1
                && (((w & !0x0000_c000u32) | (v << 14)) >> 16) & 0x3fff == (w >> 16) & 0x3fff
                && (((w & !0x0000_c000u32) | (v << 14)) >> 14) & 0x3 == v
                && ((w & !0x0000_c000u32) | (v << 14)) & 0x3fff == w & 0x3fff) by (bit_vector)
                requires
                    v <= 0x3,
            ;
        }
        self.0 = nw;
    }

    /// Sets the buffer 1 length, leaving every other field as it was.
    pub fn set_buf1_len(&mut self, v: u32)
        requires
            v <= 0x3fff,
        ensures
            final(self)@ == (Tdes2Fields { buf1_len: v, ..old(self)@ }),
    {
        let w = self.0;
        let nw = (w & !0x0000_3fffu32) | v;
        proof {
            assert((((w & !0x0000_3fffu32) | v) >> 31) & 1 == (w >> 31) & 1
                && (((w & !0x0000_3fffu32) | v) >> 30) & 1 == (w >> 30) & 1
                && (((w & !0x0000_3fffu32) | v) >> 16) & 0x3fff == (w >> 16) & 0x3fff
                && (((w & !0x0000_3fffu32) | v) >> 14) & 0x3 == (w >> 14) & 0x3
                && ((w & !0x0000_3fffu32) | v) & 0x3fff == v) by (bit_vector)
                requires
                    v <= 0x3fff,
            ;
        }
        self.0 = nw;
    }
}

/// Contents of the TDES3 word in descriptors published to the DMA engine.
///
/// With segmentation offload on, the low bits would instead carry a TCP
/// payload length overlapping `cic` and `fl`; this driver keeps segmentation
/// off, so only that layout is modelled.
#[derive(Clone, Copy)]
pub struct Tdes3(pub u32);

/// Abstract value of a [`Tdes3`] word: one entry per named field.
pub struct Tdes3Fields {
    /// The "owned" bit: the descriptor belongs to the DMA engine and is pending processing.
    pub own: bool,
    /// Context type (a data descriptor keeps this clear).
    pub ctxt: bool,
    /// First-descriptor flag: this descriptor begins a packet.
    pub fd: bool,
    /// Last-descriptor flag: this descriptor ends a packet and will carry its transmission status.
    pub ld: bool,
    /// CRC pad control.
    pub cpc: u32,
    /// Source address insertion control.
    pub saic: u32,
    /// TCP header length, used only with segmentation offload.
    pub thl: u32,
    /// TCP segmentation enable.
    pub tse: bool,
    /// Checksum insertion control, valid only when segmentation is off.
    pub cic: u32,
    /// Frame length, valid only when segmentation is off.
    pub fl: u32,
}

impl View for Tdes3 {
    type V = Tdes3Fields;

    open spec fn view(&self) -> Tdes3Fields {
        Tdes3Fields {
            own: bit_set(self.0, 31),
            ctxt: bit_set(self.0, 30),
            fd: bit_set(self.0, 29),
            ld: bit_set(self.0, 28),
            cpc: field(self.0, 26, 0x3),
            saic: field(self.0, 23, 0x7),
            thl: field(self.0, 19, 0xf),
            tse: bit_set(self.0, 18),
            cic: field(self.0, 16, 0x3),
            fl: self.0 & 0x7fff,
        }
    }
}

impl Tdes3 {
    /// The "owned" bit: the descriptor belongs to the DMA engine and is pending processing.
    pub fn own(&self) -> (b: bool)
        ensures
            b == self@.own,
    {
        (self.0 >> 31) & 1 == 1
    }

    /// Context type (a data descriptor keeps this clear).
    pub fn ctxt(&self) -> (b: bool)
        ensures
            b == self@.ctxt,
    {
        (self.0 >> 30) & 1 == 1
    }

    /// First-descriptor flag: this descriptor begins a packet.
    pub fn fd(&self) -> (b: bool)
        ensures
            b == self@.fd,
    {
        (self.0 >> 29) & 1 == 1
    }

    /// Last-descriptor flag: this descriptor ends a packet and will carry its transmission status.
    pub fn ld(&self) -> (b: bool)
        ensures
            b == self@.ld,
    {
        (self.0 >> 28) & 1 == 1
    }

    /// CRC pad control.
    pub fn cpc(&self) -> (v: u32)
        ensures
            v == self@.cpc,
    {
        (self.0 >> 26) & 0x3
    }

    /// Source address insertion control.
    pub fn saic(&self) -> (v: u32)
        ensures
            v == self@.saic,
    {
        (self.0 >> 23) & 0x7
    }

    /// TCP header length, used only with segmentation offload.
    pub fn thl(&self) -> (v: u32)
        ensures
            v == self@.thl,
    {
        (self.0 >> 19) & 0xf
    }

    /// TCP segmentation enable.
    pub fn tse(&self) -> (b: bool)
        ensures
            b == self@.tse,
    {
        (self.0 >> 18) & 1 == 1
    }

    /// Checksum insertion control, valid only when segmentation is off.
    pub fn cic(&self) -> (v: u32)
        ensures
            v == self@.cic,
    {
        (self.0 >> 16) & 0x3
    }

    /// Frame length, valid only when segmentation is off.
    pub fn fl(&self) -> (v: u32)
        ensures
            v == self@.fl,
    {
        self.0 & 0x7fff
    }

    /// Sets this field, leaving every other field as it was.
    pub fn set_own(&mut self, v: bool)
        ensures
            final(self)@ == (Tdes3Fields { own: v, ..old(self)@ }),
    {
        let w = self.0;
        let c: u32 = if v { 0x80000000 } else { 0 };
        let nw = ((w & !0x80000000u32) | c);
        proof {
            assert(((((w & !0x80000000u32) | c)) >> 31) & 1 == (if c == 0 { 0u32 } else { 1u32 })
                && ((((w & !0x80000000u32) | c)) >> 30) & 1 == (w >> 30) & 1
                && ((((w & !0x80000000u32) | c)) >> 29) & 1 == (w >> 29) & 1
                && ((((w & !0x80000000u32) | c)) >> 28) & 1 == (w >> 28) & 1
                && ((((w & !0x80000000u32) | c)) >> 26) & 0x3 == (w >> 26) & 0x3
                && ((((w & !0x80000000u32) | c)) >> 23) & 0x7 == (w >> 23) & 0x7
                && ((((w & !0x80000000u32) | c)) >> 19) & 0xf == (w >> 19) & 0xf
                && ((((w & !0x80000000u32) | c)) >> 18) & 1 == (w >> 18) & 1
                && ((((w & !0x80000000u32) | c)) >> 16) & 0x3 == (w >> 16) & 0x3
                && (((w & !0x80000000u32) | c)) & 0x7fff == w & 0x7fff) by (bit_vector)
                requires
                    c == 0 || c == 0x80000000u32,
            ;
        }
        self.0 = nw;
    }

    /// Sets this field, leaving every other field as it was.
    pub fn set_ctxt(&mut self, v: bool)
        ensures
            final(self)@ == (Tdes3Fields { ctxt: v, ..old(self)@ }),
    {
        let w = self.0;
        let c: u32 = if v { 0x40000000 } else { 0 };
        let nw = ((w & !0x40000000u32) | c);
        proof {
            assert(((((w & !0x40000000u32) | c)) >> 31) & 1 == (w >> 31) & 1
                && ((((w & !0x40000000u32) | c)) >> 30) & 1 == (if c == 0 { 0u32 } else { 1u32 })
                && ((((w & !0x40000000u32) | c)) >> 29) & 1 == (w >> 29) & 1
                && ((((w & !0x40000000u32) | c)) >> 28) & 1 == (w >> 28) & 1
                && ((((w & !0x40000000u32) | c)) >> 26) & 0x3 == (w >> 26) & 0x3
                && ((((w & !0x40000000u32) | c)) >> 23) & 0x7 == (w >> 23) & 0x7
                && ((((w & !0x40000000u32) | c)) >> 19) & 0xf == (w >> 19) & 0xf
                && ((((w & !0x40000000u32) | c)) >> 18) & 1 == (w >> 18) & 1
                && ((((w & !0x40000000u32) | c)) >> 16) & 0x3 == (w >> 16) & 0x3
                && (((w & !0x40000000u32) | c)) & 0x7fff == w & 0x7fff) by (bit_vector)
                requires
                    c == 0 || c == 0x40000000u32,
            ;
        }
        self.0 = nw;
    }

    /// Sets this field, leaving every other field as it was.
    pub fn set_fd(&mut self, v: bool)
        ensures
            final(self)@ == (Tdes3Fields { fd: v, ..old(self)@ }),
    {
        let w = self.0;
        let c: u32 = if v { 0x20000000 } else { 0 };
        let nw = ((w & !0x20000000u32) | c);
        proof {
            assert(((((w & !0x20000000u32) | c)) >> 31) & 1 == (w >> 31) & 1
                && ((((w & !0x20000000u32) | c)) >> 30) & 1 == (w >> 30) & 1
                && ((((w & !0x20000000u32) | c)) >> 29) & 1 == (if c == 0 { 0u32 } else { 1u32 })
                && ((((w & !0x20000000u32) | c)) >> 28) & 1 == (w >> 28) & 1
                && ((((w & !0x20000000u32) | c)) >> 26) & 0x3 == (w >> 26) & 0x3
                && ((((w & !0x20000000u32) | c)) >> 23) & 0x7 == (w >> 23) & 0x7
                && ((((w & !0x20000000u32) | c)) >> 19) & 0xf == (w >> 19) & 0xf
                && ((((w & !0x20000000u32) | c)) >> 18) & 1 == (w >> 18) & 1
                && ((((w & !0x20000000u32) | c)) >> 16) & 0x3 == (w >> 16) & 0x3
                && (((w & !0x20000000u32) | c)) & 0x7fff == w & 0x7fff) by (bit_vector)
                requires
                    c == 0 || c == 0x20000000u32,
            ;
        }
        self.0 = nw;
    }

    /// Sets this field, leaving every other field as it was.
    pub fn set_ld(&mut self, v: bool)
        ensures
            final(self)@ == (Tdes3Fields { ld: v, ..old(self)@ }),
    {
        let w = self.0;
        let c: u32 = if v { 0x10000000 } else { 0 };
        let nw = ((w & !0x10000000u32) | c);
        proof {
            assert(((((w & !0x10000000u32) | c)) >> 31) & 1 == (w >> 31) & 1
                && ((((w & !0x10000000u32) | c)) >> 30) & 1 == (w >> 30) & 1
                && ((((w & !0x10000000u32) | c)) >> 29) & 1 == (w >> 29) & 1
                && ((((w & !0x10000000u32) | c)) >> 28) & 1 == (if c == 0 { 0u32 } else { 1u32 })
                && ((((w & !0x10000000u32) | c)) >> 26) & 0x3 == (w >> 26) & 0x3
                && ((((w & !0x10000000u32) | c)) >> 23) & 0x7 == (w >> 23) & 0x7
                && ((((w & !0x10000000u32) | c)) >> 19) & 0xf == (w >> 19) & 0xf
                && ((((w & !0x10000000u32) | c)) >> 18) & 1 == (w >> 18) & 1
                && ((((w & !0x10000000u32) | c)) >> 16) & 0x3 == (w >> 16) & 0x3
                && (((w & !0x10000000u32) | c)) & 0x7fff == w & 0x7fff) by (bit_vector)
                requires
                    c == 0 || c == 0x10000000u32,
            ;
        }
        self.0 = nw;
    }

    /// Sets this field, leaving every other field as it was.
    pub fn set_cpc(&mut self, v: u32)
        requires
            v <= 0x3,
        ensures
            final(self)@ == (Tdes3Fields { cpc: v, ..old(self)@ }),
    {
        let w = self.0;
        let c: u32 = v << 26;
        let nw = ((w & !0x0c000000u32) | c);
        proof {
            assert(((((w & !0x0c000000u32) | c)) >> 31) & 1 == (w >> 31) & 1
                && ((((w & !0x0c000000u32) | c)) >> 30) & 1 == (w >> 30) & 1
                && ((((w & !0x0c000000u32) | c)) >> 29) & 1 == (w >> 29) & 1
                && ((((w & !0x0c000000u32) | c)) >> 28) & 1 == (w >> 28) & 1
                && ((((w & !0x0c000000u32) | c)) >> 26) & 0x3 == v
                && ((((w & !0x0c000000u32) | c)) >> 23) & 0x7 == (w >> 23) & 0x7
                && ((((w & !0x0c000000u32) | c)) >> 19) & 0xf == (w >> 19) & 0xf
                && ((((w & !0x0c000000u32) | c)) >> 18) & 1 == (w >> 18) & 1
                && ((((w & !0x0c000000u32) | c)) >> 16) & 0x3 == (w >> 16) & 0x3
                && (((w & !0x0c000000u32) | c)) & 0x7fff == w & 0x7fff) by (bit_vector)
                requires
                    c == v << 26 && v <= 0x3,
            ;
        }
        self.0 = nw;
    }

    /// Sets this field, leaving every other field as it was.
    pub fn set_saic(&mut self, v: u32)
        requires
            v <= 0x7,
        ensures
            final(self)@ == (Tdes3Fields { saic: v, ..old(self)@ }),
    {
        let w = self.0;
        let c: u32 = v << 23;
        let nw = ((w & !0x03800000u32) | c);
        proof {
            assert(((((w & !0x03800000u32) | c)) >> 31) & 1 == (w >> 31) & 1
                && ((((w & !0x03800000u32) | c)) >> 30) & 1 == (w >> 30) & 1
                && ((((w & !0x03800000u32) | c)) >> 29) & 1 == (w >> 29) & 1
                && ((((w & !0x03800000u32) | c)) >> 28) & 1 == (w >> 28) & 1
                && ((((w & !0x03800000u32) | c)) >> 26) & 0x3 == (w >> 26) & 0x3
                && ((((w & !0x03800000u32) | c)) >> 23) & 0x7 == v
                && ((((w & !0x03800000u32) | c)) >> 19) & 0xf == (w >> 19) & 0xf
                && ((((w & !0x03800000u32) | c)) >> 18) & 1 == (w >> 18) & 1
                && ((((w & !0x03800000u32) | c)) >> 16) & 0x3 == (w >> 16) & 0x3
                && (((w & !0x03800000u32) | c)) & 0x7fff == w & 0x7fff) by (bit_vector)
                requires
                    c == v << 23 && v <= 0x7,
            ;
        }
        self.0 = nw;
    }

    /// Sets this field, leaving every other field as it was.
    pub fn set_thl(&mut self, v: u32)
        requires
            v <= 0xf,
        ensures
            final(self)@ == (Tdes3Fields { thl: v, ..old(self)@ }),
    {
        let w = self.0;
        let c: u32 = v << 19;
        let nw = ((w & !0x00780000u32) | c);
        proof {
            assert(((((w & !0x00780000u32) | c)) >> 31) & 1 == (w >> 31) & 1
                && ((((w & !0x00780000u32) | c)) >> 30) & 1 == (w >> 30) & 1
                && ((((w & !0x00780000u32) | c)) >> 29) & 1 == (w >> 29) & 1
                && ((((w & !0x00780000u32) | c)) >> 28) & 1 == (w >> 28) & 1
                && ((((w & !0x00780000u32) | c)) >> 26) & 0x3 == (w >> 26) & 0x3
                && ((((w & !0x00780000u32) | c)) >> 23) & 0x7 == (w >> 23) & 0x7
                && ((((w & !0x00780000u32) | c)) >> 19) & 0xf == v
                && ((((w & !0x00780000u32) | c)) >> 18) & 1 == (w >> 18) & 1
                && ((((w & !0x00780000u32) | c)) >> 16) & 0x3 == (w >> 16) & 0x3
                && (((w & !0x00780000u32) | c)) & 0x7fff == w & 0x7fff) by (bit_vector)
                requires
                    c == v << 19 && v <= 0xf,
            ;
        }
        self.0 = nw;
    }

    /// Sets this field, leaving every other field as it was.
    pub fn set_tse(&mut self, v: bool)
        ensures
            final(self)@ == (Tdes3Fields { tse: v, ..old(self)@ }),
    {
        let w = self.0;
        let c: u32 = if v { 0x00040000 } else { 0 };
        let nw = ((w & !0x00040000u32) | c);
        proof {
            assert(((((w & !0x00040000u32) | c)) >> 31) & 1 == (w >> 31) & 1
                && ((((w & !0x00040000u32) | c)) >> 30) & 1 == (w >> 30) & 1
                && ((((w & !0x00040000u32) | c)) >> 29) & 1 == (w >> 29) & 1
                && ((((w & !0x00040000u32) | c)) >> 28) & 1 == (w >> 28) & 1
                && ((((w & !0x00040000u32) | c)) >> 26) & 0x3 == (w >> 26) & 0x3
                && ((((w & !0x00040000u32) | c)) >> 23) & 0x7 == (w >> 23) & 0x7
                && ((((w & !0x00040000u32) | c)) >> 19) & 0xf == (w >> 19) & 0xf
                && ((((w & !0x00040000u32) | c)) >> 18) & 1 == (if c == 0 { 0u32 } else { 1u32 })
                && ((((w & !0x00040000u32) | c)) >> 16) & 0x3 == (w >> 16) & 0x3
                && (((w & !0x00040000u32) | c)) & 0x7fff == w & 0x7fff) by (bit_vector)
                requires
                    c == 0 || c == 0x00040000u32,
            ;
        }
        self.0 = nw;
    }

    /// Sets this field, leaving every other field as it was.
    pub fn set_cic(&mut self, v: u32)
        requires
            v <= 0x3,
        ensures
            final(self)@ == (Tdes3Fields { cic: v, ..old(self)@ }),
    {
        let w = self.0;
        let c: u32 = v << 16;
        let nw = ((w & !0x00030000u32) | c);
        proof {
            assert(((((w & !0x00030000u32) | c)) >> 31) & 1 == (w >> 31) & 1
                && ((((w & !0x00030000u32) | c)) >> 30) & 1 == (w >> 30) & 1
                && ((((w & !0x00030000u32) | c)) >> 29) & 1 == (w >> 29) & 1
                && ((((w & !0x00030000u32) | c)) >> 28) & 1 == (w >> 28) & 1
                && ((((w & !0x00030000u32) | c)) >> 26) & 0x3 == (w >> 26) & 0x3
                && ((((w & !0x00030000u32) | c)) >> 23) & 0x7 == (w >> 23) & 0x7
                && ((((w & !0x00030000u32) | c)) >> 19) & 0xf == (w >> 19) & 0xf
                && ((((w & !0x00030000u32) | c)) >> 18) & 1 == (w >> 18) & 1
                && ((((w & !0x00030000u32) | c)) >> 16) & 0x3 == v
                && (((w & !0x00030000u32) | c)) & 0x7fff == w & 0x7fff) by (bit_vector)
                requires
                    c == v << 16 && v <= 0x3,
            ;
        }
        self.0 = nw;
    }

    /// Sets this field, leaving every other field as it was.
    pub fn set_fl(&mut self, v: u32)
        requires
            v <= 0x7fff,
        ensures
            final(self)@ == (Tdes3Fields { fl: v, ..old(self)@ }),
    {
        let w = self.0;
        let c: u32 = v;
        let nw = ((w & !0x00007fffu32) | c);
        proof {
            assert(((((w & !0x00007fffu32) | c)) >> 31) & 1 == (w >> 31) & 1
                && ((((w & !0x00007fffu32) | c)) >> 30) & 1 == (w >> 30) & 1
                && ((((w & !0x00007fffu32) | c)) >> 29) & 1 == (w >> 29) & 1
                && ((((w & !0x00007fffu32) | c)) >> 28) & 1 == (w >> 28) & 1
                && ((((w & !0x00007fffu32) | c)) >> 26) & 0x3 == (w >> 26) & 0x3
                && ((((w & !0x00007fffu32) | c)) >> 23) & 0x7 == (w >> 23) & 0x7
                && ((((w & !0x00007fffu32) | c)) >> 19) & 0xf == (w >> 19) & 0xf
                && ((((w & !0x00007fffu32) | c)) >> 18) & 1 == (w >> 18) & 1
                && ((((w & !0x00007fffu32) | c)) >> 16) & 0x3 == (w >> 16) & 0x3
                && (((w & !0x00007fffu32) | c)) & 0x7fff == v) by (bit_vector)
                requires
                    c == v && v <= 0x7fff,
            ;
        }
        self.0 = nw;
    }
}

/// Contents of the TDES3 word in descriptors processed and written back by the DMA engine.
#[derive(Clone, Copy)]
pub struct Tdes3Status(pub u32);

/// Abstract value of a [`Tdes3Status`] word: one entry per named field.
pub struct Tdes3StatusFields {
    /// The "owned" bit: the descriptor belongs to the DMA engine and is pending processing.
    pub own: bool,
    /// Context type.
    pub ctxt: bool,
    /// First-descriptor flag.
    pub fd: bool,
    /// Last-descriptor flag; the status bits below are valid only when it is set.
    pub ld: bool,
    /// Transmit timestamp status: a timestamp was captured in words 0 and 1.
    pub ttss: bool,
    /// Error summary: set when any error flag below is set.
    pub es: bool,
    /// Jabber timeout.
    pub jt: bool,
    /// Packet flushed.
    pub ff: bool,
    /// Payload checksum error.
    pub pce: bool,
    /// Loss of carrier.
    pub loc: bool,
    /// No carrier.
    pub nc: bool,
    /// Late collision.
    pub lc: bool,
    /// Excessive collision.
    pub ec: bool,
    /// Collision count.
    pub cc: u32,
    /// Excessive deferral.
    pub ed: bool,
    /// Underflow.
    pub uf: bool,
    /// Deferred bit.
    pub db: bool,
    /// IP header error.
    pub ihe: bool,
}

impl View for Tdes3Status {
    type V = Tdes3StatusFields;

    open spec fn view(&self) -> Tdes3StatusFields {
        Tdes3StatusFields {
            own: bit_set(self.0, 31),
            ctxt: bit_set(self.0, 30),
            fd: bit_set(self.0, 29),
            ld: bit_set(self.0, 28),
            ttss: bit_set(self.0, 17),
            es: bit_set(self.0, 15),
            jt: bit_set(self.0, 14),
            ff: bit_set(self.0, 13),
            pce: bit_set(self.0, 12),
            loc: bit_set(self.0, 11),
            nc: bit_set(self.0, 10),
            lc: bit_set(self.0, 9),
            ec: bit_set(self.0, 8),
            cc: field(self.0, 4, 0xf),
            ed: bit_set(self.0, 3),
            uf: bit_set(self.0, 2),
            db: bit_set(self.0, 1),
            ihe: self.0 & 1u32 == 1u32,
        }
    }
}

impl Tdes3Status {
    /// The "owned" bit: the descriptor belongs to the DMA engine and is pending processing.
    pub fn own(&self) -> (b: bool)
        ensures
            b == self@.own,
    {
        (self.0 >> 31) & 1 == 1
    }

    /// Context type.
    pub fn ctxt(&self) -> (b: bool)
        ensures
            b == self@.ctxt,
    {
        (self.0 >> 30) & 1 == 1
    }

    /// First-descriptor flag.
    pub fn fd(&self) -> (b: bool)
        ensures
            b == self@.fd,
    {
        (self.0 >> 29) & 1 == 1
    }

    /// Last-descriptor flag; the status bits below are valid only when it is set.
    pub fn ld(&self) -> (b: bool)
        ensures
            b == self@.ld,
    {
        (self.0 >> 28) & 1 == 1
    }

    /// Transmit timestamp status: a timestamp was captured in words 0 and 1.
    pub fn ttss(&self) -> (b: bool)
        ensures
            b == self@.ttss,
    {
        (self.0 >> 17) & 1 == 1
    }

    /// Error summary: set when any error flag below is set.
    pub fn es(&self) -> (b: bool)
        ensures
            b == self@.es,
    {
        (self.0 >> 15) & 1 == 1
    }

    /// Jabber timeout.
    pub fn jt(&self) -> (b: bool)
        ensures
            b == self@.jt,
    {
        (self.0 >> 14) & 1 == 1
    }

    /// Packet flushed.
    pub fn ff(&self) -> (b: bool)
        ensures
            b == self@.ff,
    {
        (self.0 >> 13) & 1 == 1
    }

    /// Payload checksum error.
    pub fn pce(&self) -> (b: bool)
        ensures
            b == self@.pce,
    {
        (self.0 >> 12) & 1 == 1
    }

    /// Loss of carrier.
    pub fn loc(&self) -> (b: bool)
        ensures
            b == self@.loc,
    {
        (self.0 >> 11) & 1 == 1
    }

    /// No carrier.
    pub fn nc(&self) -> (b: bool)
        ensures
            b == self@.nc,
    {
        (self.0 >> 10) & 1 == 1
    }

    /// Late collision.
    pub fn lc(&self) -> (b: bool)
        ensures
            b == self@.lc,
    {
        (self.0 >> 9) & 1 == 1
    }

    /// Excessive collision.
    pub fn ec(&self) -> (b: bool)
        ensures
            b == self@.ec,
    {
        (self.0 >> 8) & 1 == 1
    }

    /// Collision count.
    pub fn cc(&self) -> (v: u32)
        ensures
            v == self@.cc,
    {
        (self.0 >> 4) & 0xf
    }

    /// Excessive deferral.
    pub fn ed(&self) -> (b: bool)
        ensures
            b == self@.ed,
    {
        (self.0 >> 3) & 1 == 1
    }

    /// Underflow.
    pub fn uf(&self) -> (b: bool)
        ensures
            b == self@.uf,
    {
        (self.0 >> 2) & 1 == 1
    }

    /// Deferred bit.
    pub fn db(&self) -> (b: bool)
        ensures
            b == self@.db,
    {
        (self.0 >> 1) & 1 == 1
    }

    /// IP header error.
    pub fn ihe(&self) -> (b: bool)
        ensures
            b == self@.ihe,
    {
        self.0 & 1 == 1
    }
}

/// Contents of the RDES3 word in descriptors published to the DMA engine.
#[derive(Clone, Copy)]
pub struct Rdes3(pub u32);

/// Abstract value of a [`Rdes3`] word: one entry per named field.
pub struct Rdes3Fields {
    /// The "owned" bit: the descriptor belongs to the DMA engine and is pending processing.
    pub own: bool,
    /// Interrupt on completion.
    pub ioc: bool,
    /// Buffer 2 address valid.
    pub buf2v: bool,
    /// Buffer 1 address valid.
    pub buf1v: bool,
}

impl View for Rdes3 {
    type V = Rdes3Fields;

    open spec fn view(&self) -> Rdes3Fields {
        Rdes3Fields {
            own: bit_set(self.0, 31),
            ioc: bit_set(self.0, 30),
            buf2v: bit_set(self.0, 25),
            buf1v: bit_set(self.0, 24),
        }
    }
}

impl Rdes3 {
    /// The "owned" bit: the descriptor belongs to the DMA engine and is pending processing.
    pub fn own(&self) -> (b: bool)
        ensures
            b == self@.own,
    {
        (self.0 >> 31) & 1 == 1
    }

    /// Interrupt on completion.
    pub fn ioc(&self) -> (b: bool)
        ensures
            b == self@.ioc,
    {
        (self.0 >> 30) & 1 == 1
    }

    /// Buffer 2 address valid.
    pub fn buf2v(&self) -> (b: bool)
        ensures
            b == self@.buf2v,
    {
        (self.0 >> 25) & 1 == 1
    }

    /// Buffer 1 address valid.
    pub fn buf1v(&self) -> (b: bool)
        ensures
            b == self@.buf1v,
    {
        (self.0 >> 24) & 1 == 1
    }

    /// Sets this field, leaving every other field as it was.
    pub fn set_own(&mut self, v: bool)
        ensures
            final(self)@ == (Rdes3Fields { own: v, ..old(self)@ }),
    {
        let w = self.0;
        let c: u32 = if v { 0x80000000 } else { 0 };
        let nw = ((w & !0x80000000u32) | c);
        proof {
            assert(((((w & !0x80000000u32) | c)) >> 31) & 1 == (if c == 0 { 0u32 } else { 1u32 })
                && ((((w & !0x80000000u32) | c)) >> 30) & 1 == (w >> 30) & 1
                && ((((w & !0x80000000u32) | c)) >> 25) & 1 == (w >> 25) & 1
                && ((((w & !0x80000000u32) | c)) >> 24) & 1 == (w >> 24) & 1) by (bit_vector)
                requires
                    c == 0 || c == 0x80000000u32,
            ;
        }
        self.0 = nw;
    }

    /// Sets this field, leaving every other field as it was.
    pub fn set_ioc(&mut self, v: bool)
        ensures
            final(self)@ == (Rdes3Fields { ioc: v, ..old(self)@ }),
    {
        let w = self.0;
        let c: u32 = if v { 0x40000000 } else { 0 };
        let nw = ((w & !0x40000000u32) | c);
        proof {
            assert(((((w & !0x40000000u32) | c)) >> 31) & 1 == (w >> 31) & 1
                && ((((w & !0x40000000u32) | c)) >> 30) & 1 == (if c == 0 { 0u32 } else { 1u32 })
                && ((((w & !0x40000000u32) | c)) >> 25) & 1 == (w >> 25) & 1
                && ((((w & !0x40000000u32) | c)) >> 24) & 1 == (w >> 24) & 1) by (bit_vector)
                requires
                    c == 0 || c == 0x40000000u32,
            ;
        }
        self.0 = nw;
    }

    /// Sets this field, leaving every other field as it was.
    pub fn set_buf2v(&mut self, v: bool)
        ensures
            final(self)@ == (Rdes3Fields { buf2v: v, ..old(self)@ }),
    {
        let w = self.0;
        let c: u32 = if v { 0x02000000 } else { 0 };
        let nw = ((w & !0x02000000u32) | c);
        proof {
            assert(((((w & !0x02000000u32) | c)) >> 31) & 1 == (w >> 31) & 1
                && ((((w & !0x02000000u32) | c)) >> 30) & 1 == (w >> 30) & 1
                && ((((w & !0x02000000u32) | c)) >> 25) & 1 == (if c == 0 { 0u32 } else { 1u32 })
                && ((((w & !0x02000000u32) | c)) >> 24) & 1 == (w >> 24) & 1) by (bit_vector)
                requires
                    c == 0 || c == 0x02000000u32,
            ;
        }
        self.0 = nw;
    }

    /// Sets this field, leaving every other field as it was.
    pub fn set_buf1v(&mut self, v: bool)
        ensures
            final(self)@ == (Rdes3Fields { buf1v: v, ..old(self)@ }),
    {
        let w = self.0;
        let c: u32 = if v { 0x01000000 } else { 0 };
        let nw = ((w & !0x01000000u32) | c);
        proof {
            assert(((((w & !0x01000000u32) | c)) >> 31) & 1 == (w >> 31) & 1
                && ((((w & !0x01000000u32) | c)) >> 30) & 1 == (w >> 30) & 1
                && ((((w & !0x01000000u32) | c)) >> 25) & 1 == (w >> 25) & 1
                && ((((w & !0x01000000u32) | c)) >> 24) & 1 == (if c == 0 { 0u32 } else { 1u32 })) by (bit_vector)
                requires
                    c == 0 || c == 0x01000000u32,
            ;
        }
        self.0 = nw;
    }
}

/// Contents of the RDES3 word in descriptors processed and written back by the DMA engine.
#[derive(Clone, Copy)]
pub struct Rdes3Status(pub u32);

/// Abstract value of a [`Rdes3Status`] word: one entry per named field.
pub struct Rdes3StatusFields {
    /// The "owned" bit: the descriptor belongs to the DMA engine and is pending processing.
    pub own: bool,
    /// Context type (a data descriptor keeps this clear).
    pub ctxt: bool,
    /// First-descriptor flag: this descriptor begins a packet.
    pub fd: bool,
    /// Last-descriptor flag: this descriptor ends a packet.
    pub ld: bool,
    /// Receive status word 2 valid.
    pub rs2v: bool,
    /// Receive status word 1 valid.
    pub rs1v: bool,
    /// Receive status word 0 valid.
    pub rs0v: bool,
    /// CRC error.
    pub ce: bool,
    /// Giant packet.
    pub gp: bool,
    /// Receive watchdog timeout.
    pub rwt: bool,
    /// Overflow error.
    pub oe: bool,
    /// Receive error.
    pub re: bool,
    /// Dribble bit error.
    pub de: bool,
    /// Length/type field class.
    pub lt: u32,
    /// Error summary: set when any error flag is set.
    pub es: bool,
    /// Packet length written to the buffer.
    pub pl: u32,
}

impl View for Rdes3Status {
    type V = Rdes3StatusFields;

    open spec fn view(&self) -> Rdes3StatusFields {
        Rdes3StatusFields {
            own: bit_set(self.0, 31),
            ctxt: bit_set(self.0, 30),
            fd: bit_set(self.0, 29),
            ld: bit_set(self.0, 28),
            rs2v: bit_set(self.0, 27),
            rs1v: bit_set(self.0, 26),
            rs0v: bit_set(self.0, 25),
            ce: bit_set(self.0, 24),
            gp: bit_set(self.0, 23),
            rwt: bit_set(self.0, 22),
            oe: bit_set(self.0, 21),
            re: bit_set(self.0, 20),
            de: bit_set(self.0, 19),
            lt: field(self.0, 16, 0x7),
            es: bit_set(self.0, 15),
            pl: self.0 & 0x7fff,
        }
    }
}

impl Rdes3Status {
    /// The "owned" bit: the descriptor belongs to the DMA engine and is pending processing.
    pub fn own(&self) -> (b: bool)
        ensures
            b == self@.own,
    {
        (self.0 >> 31) & 1 == 1
    }

    /// Context type (a data descriptor keeps this clear).
    pub fn ctxt(&self) -> (b: bool)
        ensures
            b == self@.ctxt,
    {
        (self.0 >> 30) & 1 == 1
    }

    /// First-descriptor flag: this descriptor begins a packet.
    pub fn fd(&self) -> (b: bool)
        ensures
            b == self@.fd,
    {
        (self.0 >> 29) & 1 == 1
    }

    /// Last-descriptor flag: this descriptor ends a packet.
    pub fn ld(&self) -> (b: bool)
        ensures
            b == self@.ld,
    {
        (self.0 >> 28) & 1 == 1
    }

    /// Receive status word 2 valid.
    pub fn rs2v(&self) -> (b: bool)
        ensures
            b == self@.rs2v,
    {
        (self.0 >> 27) & 1 == 1
    }

    /// Receive status word 1 valid.
    pub fn rs1v(&self) -> (b: bool)
        ensures
            b == self@.rs1v,
    {
        (self.0 >> 26) & 1 == 1
    }

    /// Receive status word 0 valid.
    pub fn rs0v(&self) -> (b: bool)
        ensures
            b == self@.rs0v,
    {
        (self.0 >> 25) & 1 == 1
    }

    /// CRC error.
    pub fn ce(&self) -> (b: bool)
        ensures
            b == self@.ce,
    {
        (self.0 >> 24) & 1 == 1
    }

    /// Giant packet.
    pub fn gp(&self) -> (b: bool)
        ensures
            b == self@.gp,
    {
        (self.0 >> 23) & 1 == 1
    }

    /// Receive watchdog timeout.
    pub fn rwt(&self) -> (b: bool)
        ensures
            b == self@.rwt,
    {
        (self.0 >> 22) & 1 == 1
    }

    /// Overflow error.
    pub fn oe(&self) -> (b: bool)
        ensures
            b == self@.oe,
    {
        (self.0 >> 21) & 1 == 1
    }

    /// Receive error.
    pub fn re(&self) -> (b: bool)
        ensures
            b == self@.re,
    {
        (self.0 >> 20) & 1 == 1
    }

    /// Dribble bit error.
    pub fn de(&self) -> (b: bool)
        ensures
            b == self@.de,
    {
        (self.0 >> 19) & 1 == 1
    }

    /// Length/type field class.
    pub fn lt(&self) -> (v: u32)
        ensures
            v == self@.lt,
    {
        (self.0 >> 16) & 0x7
    }

    /// Error summary: set when any error flag is set.
    pub fn es(&self) -> (b: bool)
        ensures
            b == self@.es,
    {
        (self.0 >> 15) & 1 == 1
    }

    /// Packet length written to the buffer.
    pub fn pl(&self) -> (v: u32)
        ensures
            v == self@.pl,
    {
        self.0 & 0x7fff
    }
}


// ---------------------------------------------------------------------------
// Descriptors: four-word records paired 1:1 with packet buffers.
// ---------------------------------------------------------------------------

/// A transmit data descriptor: four words shared with the DMA engine.
///
/// Word 0 and word 1 carry the buffer addresses, word 2 a [`Tdes2`] value and
/// word 3 a [`Tdes3`] value whose most significant bit is the ownership bit.
#[derive(Clone, Copy)]
pub struct TxDescriptor {
    pub des0: u32,
    pub des1: u32,
    pub des2: u32,
    pub des3: u32,
}

impl Default for TxDescriptor {
    /// A fresh transmit descriptor: all four words zero, owned by software.
    fn default() -> (d: Self)
        ensures
            d == (TxDescriptor { des0: 0, des1: 0, des2: 0, des3: 0 }),
    {
        TxDescriptor { des0: 0, des1: 0, des2: 0, des3: 0 }
    }
}

impl TxDescriptor {
    /// Stores the address of the first packet buffer in word 0.
    pub fn write_buf1_address(&mut self, addr: u32)
        ensures
            *final(self) == (TxDescriptor { des0: addr, ..*old(self) }),
    {
        self.des0 = addr;
    }

    /// Stores the address of the second packet buffer in word 1.
    pub fn write_buf2_address(&mut self, addr: u32)
        ensures
            *final(self) == (TxDescriptor { des1: addr, ..*old(self) }),
    {
        self.des1 = addr;
    }

    /// Stores a [`Tdes2`] value in word 2.
    pub fn write_tdes2(&mut self, val: Tdes2)
        ensures
            *final(self) == (TxDescriptor { des2: val.0, ..*old(self) }),
    {
        self.des2 = val.0;
    }

    /// Reads word 3 under its published-descriptor layout.
    pub fn read_tdes3(&self) -> (t: Tdes3)
        ensures
            t == (Tdes3 { 0: self.des3 }),
    {
        Tdes3(self.des3)
    }

    /// Reads word 3 under its written-back status layout.
    pub fn read_tdes3_status(&self) -> (t: Tdes3Status)
        ensures
            t == (Tdes3Status { 0: self.des3 }),
    {
        Tdes3Status(self.des3)
    }

    /// Stores a [`Tdes3`] value in word 3.
    pub fn write_tdes3(&mut self, val: Tdes3)
        ensures
            *final(self) == (TxDescriptor { des3: val.0, ..*old(self) }),
    {
        self.des3 = val.0;
    }
}

/// A receive data descriptor: four words shared with the DMA engine.
///
/// Word 0 carries the buffer address when published; word 3 is an [`Rdes3`]
/// value when published and an [`Rdes3Status`] value once written back, and
/// its most significant bit is always the ownership bit.
#[derive(Clone, Copy)]
pub struct RxDescriptor {
    pub des0: u32,
    pub des1: u32,
    pub des2: u32,
    pub des3: u32,
}

impl Default for RxDescriptor {
    /// A fresh receive descriptor: all four words zero.
    fn default() -> (d: Self)
        ensures
            d == (RxDescriptor { des0: 0, des1: 0, des2: 0, des3: 0 }),
    {
        RxDescriptor { des0: 0, des1: 0, des2: 0, des3: 0 }
    }
}

impl RxDescriptor {
    /// Stores the address of the packet buffer in word 0.
    pub fn write_buf1_address(&mut self, addr: u32)
        ensures
            *final(self) == (RxDescriptor { des0: addr, ..*old(self) }),
    {
        self.des0 = addr;
    }

    /// Reads word 3 under its published-descriptor layout.
    pub fn read_rdes3(&self) -> (r: Rdes3)
        ensures
            r == (Rdes3 { 0: self.des3 }),
    {
        Rdes3(self.des3)
    }

    /// Stores an [`Rdes3`] value in word 3.
    pub fn write_rdes3(&mut self, val: Rdes3)
        ensures
            *final(self) == (RxDescriptor { des3: val.0, ..*old(self) }),
    {
        self.des3 = val.0;
    }

    /// Reads word 3 under its written-back status layout.
    pub fn read_rdes3_status(&self) -> (r: Rdes3Status)
        ensures
            r == (Rdes3Status { 0: self.des3 }),
    {
        Rdes3Status(self.des3)
    }
}

} // verus!
