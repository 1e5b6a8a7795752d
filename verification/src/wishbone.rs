//! Logic of the driver for the Wishbone bus to the user project.

use vstd::prelude::*;
use crate::regs::{RegWrite, write_of};

verus! {

/// The register that gates the Wishbone bus (`MPRJ_WB_IENA_OUT`).
#[derive(Clone, Copy, Debug, PartialEq, Eq)]
pub enum WishboneReg {
    Enable,
}

/// Register-level logic of the Wishbone bus driver.
pub struct Wishbone {}

impl Wishbone {
    /// The Wishbone bus logic.
    pub fn new() -> (w: Self) {
        Wishbone {}
    }

    /// The write that enables the bus.
    pub fn enable(&self) -> (w: RegWrite<WishboneReg>)
        ensures
            w == write_of(WishboneReg::Enable, 1),
    {
        RegWrite { reg: WishboneReg::Enable, value: 1 }
    }

    /// The write that disables the bus.
    pub fn disable(&self) -> (w: RegWrite<WishboneReg>)
        ensures
            w == write_of(WishboneReg::Enable, 0),
    {
        RegWrite { reg: WishboneReg::Enable, value: 0 }
    }
}

} // verus!
