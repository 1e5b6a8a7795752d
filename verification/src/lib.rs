//! Verified core of a hardware abstraction layer for the Caravel and Caravan
//! management SoCs.
//!
//! The modules here hold the decisions that the drivers make: which bytes go out
//! on the housekeeping SPI port and what the replies mean, which values are
//! written to which memory-mapped register, and when a polling loop stops.
//! Performing the register accesses and the SPI transfers is left to the caller.

pub mod bits;
pub mod gpio;
pub mod housekeeping_spi;
pub mod interrupts;
pub mod regs;
pub mod timer;
pub mod uart;
pub mod user_io;
pub mod wishbone;
