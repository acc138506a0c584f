//! Driver core for an Ethernet MAC+DMA engine: descriptor rings shared with
//! autonomous hardware through a single-bit ownership handshake.
//!
//! The crate is organised leaves-first:
//! - [`desc`]: typed bitfield views over the four 32-bit words of a transmit
//!   or receive descriptor;
//! - [`ring`]: the generic fixed-capacity descriptor/buffer ring with its
//!   round-robin cursor and the software/hardware ownership handshake;
//! - [`tx_ring`] / [`rx_ring`]: the transmit and receive specialisations,
//!   fixing buffer size and the hardware-facing descriptor-field population
//!   rules;
//! - [`laws`]: the protocol-level guarantees, proved over the rings'
//!   abstract state;
//! - [`driver`]: the timer/interrupt event-loop decisions;
//! - [`mdio`] / [`vsc8552_regs`]: the management-interface capability and
//!   the PHY register scripts driven through it.
//!
//! The hardware's half of the handshake — mutating slots it owns and handing
//! them back — is modelled by the `hw_`-prefixed ring operations, so the
//! whole protocol can be exercised and reasoned about without a DMA engine.

pub mod desc;
pub mod mdio;
pub mod ring;
pub mod tx_ring;
pub mod rx_ring;
pub mod laws;
pub mod driver;
pub mod vsc8552_regs;
pub mod ksz8463;
