//! The management-interface capability.
//!
//! Access to the PHY's registers goes through a serial management interface
//! whose register-level mechanics live outside this crate. The driver's
//! link-negotiation scripts consume only this capability: read a register,
//! write one, or write under a mask. What a read returns is hardware's to
//! decide, so the trait promises nothing about values.

use vstd::prelude::*;

verus! {

/// Reading from and writing to a device on the management interface.
pub trait Controller {
    /// Reads the 16-bit register `register_address` of device `phy_address`.
    fn read(&mut self, phy_address: u8, register_address: u8) -> u16;

    /// Writes `value` to the register.
    fn write(&mut self, phy_address: u8, register_address: u8, value: u16);

    /// Writes `value` into the bits of the register selected by `mask`,
    /// leaving the rest as read back.
    fn write_masked(&mut self, phy_address: u8, register_address: u8, value: u16, mask: u16);
}

} // verus!
