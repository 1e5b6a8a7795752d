//! Logic of the drivers for the Caravel user I/O pins.
//!
//! The 38 user I/O pins have a data bit each, pins 0 to 31 in the `datal`
//! register and pins 32 to 37 in `datah`, and a pad configuration word each.
//! Pad configurations are shifted out to the pads by a serial transfer.

use vstd::prelude::*;
use crate::regs::{RegWrite, bit32, test_bit, with_bit, with_bit_value, write_of, lemma_with_bit};

verus! {

/// Number of user I/O pins.
pub const NUM_PINS: usize = 38;

/// The user project registers that the drivers write.
#[derive(Clone, Copy, Debug, PartialEq, Eq)]
pub enum UserReg {
    /// Configuration transfer control.
    Xfer,
    /// Data of pins 0 to 31.
    Datal,
    /// Data of pins 32 to 37.
    Datah,
    /// Pad configuration of one pin.
    Io(usize),
}

/// The pad configuration word of a user I/O pin.
#[derive(Clone, Copy, Debug, PartialEq, Eq)]
pub struct UserIOBits {
    bits: u32,
}

impl View for UserIOBits {
    type V = u32;

    closed spec fn view(&self) -> u32 {
        self.bits
    }
}

/// `caravel_pac::UserIOBits::MGMT_STD_INPUT_NOPULL`, which the PAC defines as
/// `0x0403`; the contract claims that value.
#[verifier::external_body]
fn pac_mgmt_std_input_nopull() -> (r: u32)
    ensures
        r == 0x0403,
{
    caravel_pac::UserIOBits::MGMT_STD_INPUT_NOPULL.into_bits()
}

/// `caravel_pac::UserIOBits::MGMT_STD_ANALOG`, which the PAC defines as
/// `0x000b`; the contract claims that value.
#[verifier::external_body]
fn pac_mgmt_std_analog() -> (r: u32)
    ensures
        r == 0x000b,
{
    caravel_pac::UserIOBits::MGMT_STD_ANALOG.into_bits()
}

/// `caravel_pac::UserIOBits::MGMT_STD_OUTPUT`, which the PAC defines as
/// `0x1809`; the contract claims that value.
#[verifier::external_body]
fn pac_mgmt_std_output() -> (r: u32)
    ensures
        r == 0x1809,
{
    caravel_pac::UserIOBits::MGMT_STD_OUTPUT.into_bits()
}

impl UserIOBits {
    /// The configuration with the given bits.
    pub fn from_bits(bits: u32) -> (r: Self)
        ensures
            r@ == bits,
    {
        UserIOBits { bits }
    }

    /// The bits of the configuration.
    pub fn into_bits(self) -> (r: u32)
        ensures
            r == self@,
    {
        self.bits
    }
}

/// The bit of a pin in its data register.
pub open spec fn data_bit(n: usize) -> u32 {
    if n < 32 {
        n as u32
    } else {
        (n - 32) as u32
    }
}

/// The data register of a pin.
pub open spec fn data_reg(n: usize) -> UserReg {
    if n < 32 {
        UserReg::Datal
    } else {
        UserReg::Datah
    }
}

/// Driver logic for a single user I/O pin.
#[derive(Clone, Copy, Debug, PartialEq, Eq)]
pub struct UserIoPin {
    /// The pin number (0 to 37 for the pins of the chip).
    pub n: usize,
}

impl UserIoPin {
    /// The pin's data bit lies in `datal` or `datah`: pin numbers from 38
    /// to 63 name unused bits of `datah`, and from 64 on no bit at all.
    pub open spec fn valid(&self) -> bool {
        self.n < 64
    }

    /// The register that holds the pin's data bit; the functions below take
    /// its current value.
    pub fn data_register(&self) -> (r: UserReg)
        requires
            self.valid(),
        ensures
            r == data_reg(self.n),
    {
        if self.n < 32 {
            UserReg::Datal
        } else {
            UserReg::Datah
        }
    }

    fn bit(&self) -> (r: u32)
        requires
            self.valid(),
        ensures
            r == data_bit(self.n),
            r < 32,
    {
        if self.n < 32 {
            self.n as u32
        } else {
            (self.n - 32) as u32
        }
    }

    /// The write that replaces the pin's pad configuration.
    pub fn configure(&self, bits: UserIOBits) -> (w: RegWrite<UserReg>)
        ensures
            w == write_of(UserReg::Io(self.n), bits@),
    {
        RegWrite { reg: UserReg::Io(self.n), value: bits.into_bits() }
    }

    /// The write that drives the pin low, given the data register's value.
    pub fn set_low(&self, current: u32) -> (w: RegWrite<UserReg>)
        requires
            self.valid(),
        ensures
            w == write_of(data_reg(self.n), with_bit_value(current, data_bit(self.n), false)),
    {
        RegWrite { reg: self.data_register(), value: with_bit(current, self.bit(), false) }
    }

    /// The write that drives the pin high, given the data register's value.
    pub fn set_high(&self, current: u32) -> (w: RegWrite<UserReg>)
        requires
            self.valid(),
        ensures
            w == write_of(data_reg(self.n), with_bit_value(current, data_bit(self.n), true)),
    {
        RegWrite { reg: self.data_register(), value: with_bit(current, self.bit(), true) }
    }

    /// Whether the pin is high, given the data register's value.
    pub fn is_high(&self, current: u32) -> (r: bool)
        requires
            self.valid(),
        ensures
            r == bit32(current, data_bit(self.n)),
    {
        test_bit(current, self.bit())
    }

    /// Whether the pin is low, given the data register's value.
    pub fn is_low(&self, current: u32) -> (r: bool)
        requires
            self.valid(),
        ensures
            r == !bit32(current, data_bit(self.n)),
    {
        !self.is_high(current)
    }

    /// The write that flips the pin's output, given the data register's value.
    pub fn toggle(&self, current: u32) -> (w: RegWrite<UserReg>)
        requires
            self.valid(),
        ensures
            w == write_of(
                data_reg(self.n),
                with_bit_value(current, data_bit(self.n), !bit32(current, data_bit(self.n))),
            ),
    {
        if self.is_high(current) {
            self.set_low(current)
        } else {
            self.set_high(current)
        }
    }
}

/// Builder for the configuration of all user I/O pins.
pub struct UserIoBuilder {
    config: Vec<UserIOBits>,
}

impl UserIoBuilder {
    /// The configuration of each pin.
    pub closed spec fn config(&self) -> Seq<UserIOBits> {
        self.config@
    }

    /// One configuration per pin.
    pub open spec fn wf(&self) -> bool {
        self.config().len() == NUM_PINS
    }

    /// The default configuration: pin 0 (debug) analog, pin 1 (housekeeping
    /// SPI SDO) output, every other pin an input without pull.
    fn new() -> (b: Self)
        ensures
            b.wf(),
            b.config()[0]@ == 0x000b,
            b.config()[1]@ == 0x1809,
            forall|i: int| 2 <= i < NUM_PINS ==> #[trigger] b.config()[i]@ == 0x0403,
    {
        let mut config: Vec<UserIOBits> = Vec::new();
        let nopull = UserIOBits { bits: pac_mgmt_std_input_nopull() };
        let mut i: usize = 0;
        while i < NUM_PINS
            invariant
                i <= NUM_PINS,
                config@.len() == i,
                nopull@ == 0x0403,
                forall|k: int| 0 <= k < i ==> #[trigger] config@[k] == nopull,
            decreases NUM_PINS - i,
        {
            config.push(nopull);
            i = i + 1;
        }
        config.set(0, UserIOBits { bits: pac_mgmt_std_analog() });
        config.set(1, UserIOBits { bits: pac_mgmt_std_output() });
        UserIoBuilder { config }
    }

    /// Sets the configuration of pin `n`.
    pub fn pin(self, n: usize, bits: UserIOBits) -> (b: Self)
        requires
            self.wf(),
            n < NUM_PINS,
        ensures
            b.wf(),
            b.config() == self.config().update(n as int, bits),
    {
        let mut config = self.config;
        config.set(n, bits);
        UserIoBuilder { config }
    }

    /// The writes that apply the configuration: each pin's configuration, in
    /// pin order, then the start of the transfer to the pads, which is then
    /// waited for (see [`UserIo::transfer_busy`]).
    pub fn xfer(&self) -> (w: Vec<RegWrite<UserReg>>)
        requires
            self.wf(),
        ensures
            w@.len() == NUM_PINS + 1,
            forall|i: int| 0 <= i < NUM_PINS ==> #[trigger] w@[i] == write_of(UserReg::Io(i as usize), self.config()[i]@),
            w@[NUM_PINS as int] == write_of(UserReg::Xfer, 1),
    {
        let mut w: Vec<RegWrite<UserReg>> = Vec::new();
        let mut i: usize = 0;
        while i < NUM_PINS
            invariant
                self.wf(),
                i <= NUM_PINS,
                w@.len() == i,
                forall|k: int| 0 <= k < i ==> #[trigger] w@[k] == write_of(UserReg::Io(k as usize), self.config()[k]@),
            decreases NUM_PINS - i,
        {
            w.push(RegWrite { reg: UserReg::Io(i), value: self.config[i].into_bits() });
            i = i + 1;
        }
        w.push(UserIo::transfer_start());
        w
    }
}

/// The full set of user I/O pins.
pub struct UserIo {}

impl UserIo {
    /// A builder with the default configuration; this is the way to create
    /// the user I/O.
    pub fn configure() -> (b: UserIoBuilder)
        ensures
            b.wf(),
            b.config()[0]@ == 0x000b,
            b.config()[1]@ == 0x1809,
            forall|i: int| 2 <= i < NUM_PINS ==> #[trigger] b.config()[i]@ == 0x0403,
    {
        UserIoBuilder::new()
    }

    /// Pin `N`, checked at compile time by the caller.
    pub fn pin<const N: usize>(&self) -> (p: UserIoPin)
        requires
            N < NUM_PINS,
        ensures
            p.n == N,
    {
        UserIoPin { n: N }
    }

    /// Pin `n`, if there is one.
    pub fn pin_checked(&self, n: usize) -> (p: Option<UserIoPin>)
        ensures
            n < NUM_PINS ==> p == Some(UserIoPin { n }),
            n >= NUM_PINS ==> p is None,
    {
        if n < NUM_PINS {
            Some(UserIoPin { n })
        } else {
            None
        }
    }

    /// The write that starts the transfer of the configuration to the pads.
    pub fn transfer_start() -> (w: RegWrite<UserReg>)
        ensures
            w == write_of(UserReg::Xfer, 1),
    {
        RegWrite { reg: UserReg::Xfer, value: 1 }
    }

    /// Whether the transfer is still going on, given the transfer register.
    pub fn transfer_busy(xfer: u32) -> (r: bool)
        ensures
            r == bit32(xfer, 0),
    {
        test_bit(xfer, 0)
    }
}

/// The data-register value after a toggle.
pub open spec fn toggled(v: u32, b: u32) -> u32 {
    with_bit_value(v, b, !bit32(v, b))
}

/// A pin driven high reads high, one driven low reads low, and the other pins
/// that share its data register keep their levels.
pub proof fn law_pin_level_reads_back(p: UserIoPin, v: u32, high: bool)
    requires
        p.valid(),
    ensures
        bit32(with_bit_value(v, data_bit(p.n), high), data_bit(p.n)) == high,
        forall|j: u32|
            j < 32 && j != data_bit(p.n) ==> #[trigger] bit32(with_bit_value(v, data_bit(p.n), high), j)
                == bit32(v, j),
{
    lemma_with_bit(v, data_bit(p.n), high);
}

/// Toggling flips the pin's level, and toggling twice restores the register.
pub proof fn law_toggle(p: UserIoPin, v: u32)
    requires
        p.valid(),
    ensures
        bit32(toggled(v, data_bit(p.n)), data_bit(p.n)) == !bit32(v, data_bit(p.n)),
        toggled(toggled(v, data_bit(p.n)), data_bit(p.n)) == v,
{
    let b = data_bit(p.n);
    lemma_with_bit(v, b, !bit32(v, b));
    assert(b < 32);
    assert(((v >> b) & 1 == 1) ==> (v & !(1u32 << b)) | (1u32 << b) == v) by (bit_vector)
        requires
            b < 32,
    ;
    assert(!((v >> b) & 1 == 1) ==> (v | (1u32 << b)) & !(1u32 << b) == v) by (bit_vector)
        requires
            b < 32,
    ;
}

/// Distinct pins have distinct data bits.
pub proof fn law_pins_have_distinct_bits(p: UserIoPin, q: UserIoPin)
    requires
        p.valid(),
        q.valid(),
        p.n != q.n,
    ensures
        data_reg(p.n) != data_reg(q.n) || data_bit(p.n) != data_bit(q.n),
        data_bit(p.n) < 32,
{
}

/// Pins 0 to 31 have their data bit in `datal` and pins 32 to 63 in `datah`:
/// counting the bits of `datal` then `datah`, pin `n` has bit `n`.
pub proof fn law_pin_data_bit(n: usize)
    requires
        n < 64,
    ensures
        (data_reg(n) == UserReg::Datal) == (n < 32),
        (data_reg(n) == UserReg::Datah) == (n >= 32),
        (if data_reg(n) == UserReg::Datah { 32int } else { 0int }) + data_bit(n) == n,
{
}

} // verus!
