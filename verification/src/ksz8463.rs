//! Register access framing for a KSZ8463 Ethernet switch reached over SPI.
//!
//! The switch's registers are addressed through a command word that encodes
//! the register's upper address bits and a byte-enable mask. The SPI
//! transfer itself is the kernel's business and stays outside this crate;
//! here are the exact four-byte request frames and the decoding of what
//! comes back.

use vstd::prelude::*;

verus! {

/// Why a register access was refused.
#[derive(Clone, Copy, Debug, PartialEq, Eq, Structural)]
pub enum ResponseCode {
    /// The transfer was rejected as malformed.
    BadArg,
}

impl ResponseCode {
    /// The numeric code this answer arrives as.
    pub open spec fn spec_code(self) -> u32 {
        2
    }

    /// [`ResponseCode::spec_code`] as a runtime value.
    pub fn code(self) -> (c: u32)
        ensures
            c == self.spec_code(),
    {
        2
    }
}

/// The command word for the 16-bit register at byte address `address`: the
/// address bits above the 32-bit word boundary, shifted into place, with the
/// two byte-enable bits selecting which half of the word the register
/// occupies.
pub open spec fn spec_register_offset(address: u16) -> u16 {
    let addr10_2 = address >> 2;
    let mask_shift = (2 + 2 * ((address >> 1) & 0x1)) as u16;
    (addr10_2 << 6) | (0x3u16 << mask_shift)
}

/// [`spec_register_offset`] as a runtime value.
pub fn register_offset(address: u16) -> (r: u16)
    ensures
        r == spec_register_offset(address),
{
    proof {
        assert((address >> 1) & 0x1 <= 1) by (bit_vector);
    }
    let addr10_2 = address >> 2;
    let mask_shift = 2 + 2 * ((address >> 1) & 0x1);
    (addr10_2 << 6) | (0x3u16 << mask_shift)
}

/// The switch registers this driver speaks to, by name.
#[derive(Clone, Copy, Debug, PartialEq, Eq, Structural)]
pub enum Register {
    CIDER,
    SGCR1,
    SGCR2,
    SGCR3,
    SGCR6,
    SGCR7,
    MACAR1,
    MACAR2,
    MACAR3,
}

impl Register {
    /// The register's command word.
    pub open spec fn spec_value(self) -> u16 {
        match self {
            Register::CIDER => spec_register_offset(0x000),
            Register::SGCR1 => spec_register_offset(0x002),
            Register::SGCR2 => spec_register_offset(0x004),
            Register::SGCR3 => spec_register_offset(0x006),
            Register::SGCR6 => spec_register_offset(0x00c),
            Register::SGCR7 => spec_register_offset(0x00e),
            Register::MACAR1 => spec_register_offset(0x010),
            Register::MACAR2 => spec_register_offset(0x012),
            Register::MACAR3 => spec_register_offset(0x014),
        }
    }

    /// [`Register::spec_value`] as a runtime value.
    pub fn value(self) -> (v: u16)
        ensures
            v == self.spec_value(),
    {
        match self {
            Register::CIDER => register_offset(0x000),
            Register::SGCR1 => register_offset(0x002),
            Register::SGCR2 => register_offset(0x004),
            Register::SGCR3 => register_offset(0x006),
            Register::SGCR6 => register_offset(0x00c),
            Register::SGCR7 => register_offset(0x00e),
            Register::MACAR1 => register_offset(0x010),
            Register::MACAR2 => register_offset(0x012),
            Register::MACAR3 => register_offset(0x014),
        }
    }
}

/// The four-byte request that reads register `r`: the command word big
/// endian, then two don't-care bytes for the response to fill.
pub open spec fn spec_read_request(r: Register) -> Seq<u8> {
    seq![(r.spec_value() >> 8) as u8, (r.spec_value() & 0xff) as u8, 0u8, 0u8]
}

/// Builds the request frame that reads register `r`.
pub fn read_request(r: Register) -> (q: Vec<u8>)
    ensures
        q@ == spec_read_request(r),
{
    let cmd = r.value();
    let mut q: Vec<u8> = Vec::new();
    q.push((cmd >> 8) as u8);
    q.push((cmd & 0xff) as u8);
    q.push(0);
    q.push(0);
    proof {
        assert(q@ =~= spec_read_request(r));
    }
    q
}

/// The four-byte request that writes `v` to register `r`: the command word
/// with its most significant bit marking a write, big endian, then the value
/// little endian.
pub open spec fn spec_write_request(r: Register, v: u16) -> Seq<u8> {
    seq![
        ((r.spec_value() | 0x8000) >> 8) as u8,
        ((r.spec_value() | 0x8000) & 0xff) as u8,
        (v & 0xff) as u8,
        (v >> 8) as u8,
    ]
}

/// Builds the request frame that writes `v` to register `r`.
pub fn write_request(r: Register, v: u16) -> (q: Vec<u8>)
    ensures
        q@ == spec_write_request(r, v),
{
    let cmd = r.value() | 0x8000;
    let mut q: Vec<u8> = Vec::new();
    q.push((cmd >> 8) as u8);
    q.push((cmd & 0xff) as u8);
    q.push((v & 0xff) as u8);
    q.push((v >> 8) as u8);
    proof {
        assert(q@ =~= spec_write_request(r, v));
    }
    q
}

/// Decodes a read transfer's outcome: on success the register's value sits
/// little endian in the response's last two bytes; code 2 reports a refused
/// transfer. Any other code is a protocol violation the caller must treat as
/// fatal before decoding.
pub fn parse_read_response(code: u32, response: &Vec<u8>) -> (r: Result<u16, ResponseCode>)
    requires
        code == 0 || code == 2,
        response@.len() == 4,
    ensures
        code == 0 ==> r == Ok::<u16, ResponseCode>(
            (response@[2] as u16 | ((response@[3] as u16) << 8)) as u16,
        ),
        code == 2 ==> r == Err::<u16, ResponseCode>(ResponseCode::BadArg),
{
    if code == 0 {
        let lo = response[2] as u16;
        let hi = response[3] as u16;
        Ok(lo | (hi << 8))
    } else {
        Err(ResponseCode::BadArg)
    }
}

/// Decodes a write transfer's outcome: success, or code 2 for a refused
/// transfer. Any other code is a protocol violation the caller must treat as
/// fatal before decoding.
pub fn parse_write_response(code: u32) -> (r: Result<(), ResponseCode>)
    requires
        code == 0 || code == 2,
    ensures
        code == 0 ==> r == Ok::<(), ResponseCode>(()),
        code == 2 ==> r == Err::<(), ResponseCode>(ResponseCode::BadArg),
{
    if code == 0 {
        Ok(())
    } else {
        Err(ResponseCode::BadArg)
    }
}

/// Whether the chip-ID register's value says the switch is started: its
/// lowest bit.
pub fn enabled_from(cider: u16) -> (b: bool)
    ensures
        b == (cider & 1 == 1),
{
    cider & 1 == 1
}

/// The value that starts the switch when written to the chip-ID register.
pub const START_SWITCH: u16 = 1;

/// The value that stops the switch when written to the chip-ID register.
pub const STOP_SWITCH: u16 = 0;

} // verus!
