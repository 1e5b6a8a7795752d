//! Driver logic for the Caravel housekeeping SPI port.
//!
//! The housekeeping port is reached over an SPI link that the caller owns.  This
//! module does not perform transfers itself: every operation is a short,
//! fixed sequence of transfers (its *plan*), and [`HousekeepingSpi`] walks
//! through that plan one transfer at a time.  An operation is started by one of
//! the methods named after it; each returns either the first transfer to
//! perform or, where no transfer is needed, the final answer.  The caller then
//! performs the transfer and hands the reply to [`HousekeepingSpi::resume`],
//! which checks it and returns the next transfer or the final answer.

use vstd::prelude::*;
use crate::bits::{
    be_u16, byte_bit, count_ones_u32, le_bytes, le_u32, low_ones, low_ones_u32, ones,
    reverse_bits_u8, reversed, u16_from_be_bytes, u32_from_le_bytes, u32_to_le_bytes,
};

verus! {

// Housekeeping SPI command bytes.
/// Pass the rest of the transfer through to the SPI flash.
pub const CMD_PASSTHRU: u8 = 0xC4;
/// Read one housekeeping register.
pub const CMD_READ_REG: u8 = 0x48;
/// Write one housekeeping register.
pub const CMD_WRITE_REG: u8 = 0x88;
/// Read consecutive housekeeping registers.
pub const CMD_READ_STREAM: u8 = 0x40;
/// Write consecutive housekeeping registers.
pub const CMD_WRITE_STREAM: u8 = 0x80;

// SPI flash command bytes (sent after `CMD_PASSTHRU`).
/// Read status register 1.
pub const FLASH_READ_STATUS: u8 = 0x05;
/// Read status register 2.
pub const FLASH_READ_STATUS2: u8 = 0x35;
/// Set the write-enable latch.
pub const FLASH_WRITE_ENABLE: u8 = 0x06;
/// Clear the write-enable latch.
pub const FLASH_WRITE_DISABLE: u8 = 0x04;
/// Program one page.
pub const FLASH_PROGRAM_PAGE: u8 = 0x02;
/// Erase one 64 KiB sector.
pub const FLASH_ERASE_SECTOR: u8 = 0xD8;
/// Erase the whole chip.
pub const FLASH_ERASE_CHIP: u8 = 0x60;
/// Reset the chip.
pub const FLASH_RESET_CHIP: u8 = 0x99;
/// Read the JEDEC identification bytes.
pub const FLASH_JEDEC_DATA: u8 = 0x9f;
/// Read data at low speed.
pub const FLASH_READ_LO_SPEED: u8 = 0x03;

/// Housekeeping registers below this address exist.
pub const REG_LIMIT: u8 = 0x70;
/// Expected manufacturer ID.
pub const MANUFACTURER_ID: u16 = 0x0456;
/// Expected product ID.
pub const PRODUCT_ID: u8 = 0x11;
/// First JEDEC byte of a Winbond flash.
pub const WINBOND_JEDEC_ID: u8 = 0xef;
/// Largest DCO trim value.
pub const DCO_TRIM_MAX: u32 = 26;
/// Largest number of bytes read from the flash in one transfer.
pub const FLASH_READ_CHUNK: usize = 2044;

/// Bitfield view of the flash status register 1.
#[derive(Clone, Copy, Debug, PartialEq, Eq)]
pub struct FlashStatus1Bits {
    /// The raw register value.
    pub bits: u8,
}

impl View for FlashStatus1Bits {
    type V = u8;

    open spec fn view(&self) -> u8 {
        self.bits
    }
}

impl Default for FlashStatus1Bits {
    /// All bits clear.
    fn default() -> (r: Self)
        ensures
            r@ == 0,
    {
        FlashStatus1Bits { bits: 0 }
    }
}

impl From<u8> for FlashStatus1Bits {
    fn from(bits: u8) -> (r: Self) {
        FlashStatus1Bits { bits }
    }
}

impl vstd::std_specs::convert::FromSpecImpl<u8> for FlashStatus1Bits {
    open spec fn obeys_from_spec() -> bool {
        true
    }

    open spec fn from_spec(v: u8) -> Self {
        FlashStatus1Bits { bits: v }
    }
}

impl From<FlashStatus1Bits> for u8 {
    fn from(status: FlashStatus1Bits) -> (r: u8) {
        status.bits
    }
}

impl vstd::std_specs::convert::FromSpecImpl<FlashStatus1Bits> for u8 {
    open spec fn obeys_from_spec() -> bool {
        true
    }

    open spec fn from_spec(v: FlashStatus1Bits) -> u8 {
        v.bits
    }
}

/// `x` with bit `i` set to `on`.
pub open spec fn with_byte_bit(x: u8, i: u8, on: bool) -> u8 {
    if on {
        x | (1u8 << i)
    } else {
        x & !(1u8 << i)
    }
}

fn set_byte_bit(x: u8, i: u8, on: bool) -> (r: u8)
    requires
        i < 8,
    ensures
        r == with_byte_bit(x, i, on),
{
    if on {
        x | (1u8 << i)
    } else {
        x & !(1u8 << i)
    }
}

impl FlashStatus1Bits {
    /// All bits clear.
    pub fn new() -> (r: Self)
        ensures
            r@ == 0,
    {
        FlashStatus1Bits { bits: 0 }
    }

    /// The value with the write in progress (bit 0) set to `on`.
    pub fn with_wip(self, on: bool) -> (r: Self)
        ensures
            r@ == with_byte_bit(self@, 0, on),
    {
        FlashStatus1Bits { bits: set_byte_bit(self.bits, 0, on) }
    }

    /// The value with the write-enable latch (bit 1) set to `on`.
    pub fn with_wel(self, on: bool) -> (r: Self)
        ensures
            r@ == with_byte_bit(self@, 1, on),
    {
        FlashStatus1Bits { bits: set_byte_bit(self.bits, 1, on) }
    }

    /// The value with the block protect bit 0 (bit 2) set to `on`.
    pub fn with_bp0(self, on: bool) -> (r: Self)
        ensures
            r@ == with_byte_bit(self@, 2, on),
    {
        FlashStatus1Bits { bits: set_byte_bit(self.bits, 2, on) }
    }

    /// The value with the block protect bit 1 (bit 3) set to `on`.
    pub fn with_bp1(self, on: bool) -> (r: Self)
        ensures
            r@ == with_byte_bit(self@, 3, on),
    {
        FlashStatus1Bits { bits: set_byte_bit(self.bits, 3, on) }
    }

    /// The value with the block protect bit 2 (bit 4) set to `on`.
    pub fn with_bp2(self, on: bool) -> (r: Self)
        ensures
            r@ == with_byte_bit(self@, 4, on),
    {
        FlashStatus1Bits { bits: set_byte_bit(self.bits, 4, on) }
    }

    /// The value with the block protect bit 3 (bit 5) set to `on`.
    pub fn with_bp3(self, on: bool) -> (r: Self)
        ensures
            r@ == with_byte_bit(self@, 5, on),
    {
        FlashStatus1Bits { bits: set_byte_bit(self.bits, 5, on) }
    }

    /// The value with the sector protect (bit 6) set to `on`.
    pub fn with_sp(self, on: bool) -> (r: Self)
        ensures
            r@ == with_byte_bit(self@, 6, on),
    {
        FlashStatus1Bits { bits: set_byte_bit(self.bits, 6, on) }
    }

    /// The value with the block protect lock (bit 7) set to `on`.
    pub fn with_bpl(self, on: bool) -> (r: Self)
        ensures
            r@ == with_byte_bit(self@, 7, on),
    {
        FlashStatus1Bits { bits: set_byte_bit(self.bits, 7, on) }
    }

    /// Sets the write in progress (bit 0) to `on`.
    pub fn set_wip(&mut self, on: bool)
        ensures
            final(self)@ == with_byte_bit(old(self)@, 0, on),
    {
        self.bits = set_byte_bit(self.bits, 0, on);
    }

    /// Sets the write-enable latch (bit 1) to `on`.
    pub fn set_wel(&mut self, on: bool)
        ensures
            final(self)@ == with_byte_bit(old(self)@, 1, on),
    {
        self.bits = set_byte_bit(self.bits, 1, on);
    }

    /// Sets the block protect bit 0 (bit 2) to `on`.
    pub fn set_bp0(&mut self, on: bool)
        ensures
            final(self)@ == with_byte_bit(old(self)@, 2, on),
    {
        self.bits = set_byte_bit(self.bits, 2, on);
    }

    /// Sets the block protect bit 1 (bit 3) to `on`.
    pub fn set_bp1(&mut self, on: bool)
        ensures
            final(self)@ == with_byte_bit(old(self)@, 3, on),
    {
        self.bits = set_byte_bit(self.bits, 3, on);
    }

    /// Sets the block protect bit 2 (bit 4) to `on`.
    pub fn set_bp2(&mut self, on: bool)
        ensures
            final(self)@ == with_byte_bit(old(self)@, 4, on),
    {
        self.bits = set_byte_bit(self.bits, 4, on);
    }

    /// Sets the block protect bit 3 (bit 5) to `on`.
    pub fn set_bp3(&mut self, on: bool)
        ensures
            final(self)@ == with_byte_bit(old(self)@, 5, on),
    {
        self.bits = set_byte_bit(self.bits, 5, on);
    }

    /// Sets the sector protect (bit 6) to `on`.
    pub fn set_sp(&mut self, on: bool)
        ensures
            final(self)@ == with_byte_bit(old(self)@, 6, on),
    {
        self.bits = set_byte_bit(self.bits, 6, on);
    }

    /// Sets the block protect lock (bit 7) to `on`.
    pub fn set_bpl(&mut self, on: bool)
        ensures
            final(self)@ == with_byte_bit(old(self)@, 7, on),
    {
        self.bits = set_byte_bit(self.bits, 7, on);
    }

    /// Wraps a raw register value.
    pub fn from_bits(bits: u8) -> (r: Self)
        ensures
            r@ == bits,
    {
        FlashStatus1Bits { bits }
    }

    /// The raw register value.
    pub fn into_bits(self) -> (r: u8)
        ensures
            r == self@,
    {
        self.bits
    }

    /// Write in progress (bit 0).
    pub fn wip(&self) -> (r: bool)
        ensures
            r == byte_bit(self@, 0),
    {
        (self.bits >> 0u8) & 1 == 1
    }

    /// Write-enable latch (bit 1).
    pub fn wel(&self) -> (r: bool)
        ensures
            r == byte_bit(self@, 1),
    {
        (self.bits >> 1u8) & 1 == 1
    }

    /// Block protect bit 0 (bit 2).
    pub fn bp0(&self) -> (r: bool)
        ensures
            r == byte_bit(self@, 2),
    {
        (self.bits >> 2u8) & 1 == 1
    }

    /// Block protect bit 1 (bit 3).
    pub fn bp1(&self) -> (r: bool)
        ensures
            r == byte_bit(self@, 3),
    {
        (self.bits >> 3u8) & 1 == 1
    }

    /// Block protect bit 2 (bit 4).
    pub fn bp2(&self) -> (r: bool)
        ensures
            r == byte_bit(self@, 4),
    {
        (self.bits >> 4u8) & 1 == 1
    }

    /// Block protect bit 3 (bit 5).
    pub fn bp3(&self) -> (r: bool)
        ensures
            r == byte_bit(self@, 5),
    {
        (self.bits >> 5u8) & 1 == 1
    }

    /// Sector protect (bit 6).
    pub fn sp(&self) -> (r: bool)
        ensures
            r == byte_bit(self@, 6),
    {
        (self.bits >> 6u8) & 1 == 1
    }

    /// Block protect lock (bit 7).
    pub fn bpl(&self) -> (r: bool)
        ensures
            r == byte_bit(self@, 7),
    {
        (self.bits >> 7u8) & 1 == 1
    }
}

/// One SPI transaction, as the transfer in the model sees it: `command` then
/// `payload` are clocked out with chip select held, then `read_len` bytes are
/// clocked in.
#[verifier::ext_equal]
pub struct Frame {
    pub command: Seq<u8>,
    pub payload: Seq<u8>,
    pub read_len: nat,
}

/// One SPI transaction to perform: `command`, then `payload`, are written and
/// then `read_len` bytes are read, all with chip select held.
#[derive(Debug)]
pub struct SpiTransfer {
    pub command: Vec<u8>,
    pub payload: Vec<u8>,
    pub read_len: usize,
}

impl View for SpiTransfer {
    type V = Frame;

    open spec fn view(&self) -> Frame {
        Frame { command: self.command@, payload: self.payload@, read_len: self.read_len as nat }
    }
}

/// The operations of the housekeeping port.
#[derive(Debug)]
pub enum HkOp {
    CheckIds,
    ReadReg(u8),
    WriteReg(u8, u8),
    ReadProjectId,
    FlashStatus,
    FlashStatus2,
    FlashBusy,
    CpuResetHold,
    CpuResetRelease,
    CpuResetToggle,
    FlashReset,
    FlashReadJedec,
    FlashIdentify,
    FlashWriteEnable,
    FlashWriteDisable,
    FlashErase,
    FlashEraseSector(u16),
    FlashProgramPage(u16, Vec<u8>),
    FlashRead(u32, usize),
    EngageDll,
    ReadDllTrim,
    DisengageDll,
    DcoMode,
    DcoTrim(u32),
}

/// Why an operation failed.
#[derive(Clone, Copy, Debug, PartialEq, Eq)]
pub enum HkError {
    /// A transfer on the SPI link failed.
    Bus,
    /// The manufacturer ID read back is not the expected one.
    WrongManufacturer(u16),
    /// The product ID read back is not the expected one.
    WrongProduct(u8),
    /// There is no housekeeping register at this address.
    InvalidRegister(u8),
    /// The flash does not identify as a Winbond part.
    FlashNotFound,
    /// The DCO trim value is out of range.
    InvalidTrim(u32),
}

/// The answer of a completed operation.
#[derive(Debug)]
pub enum HkValue {
    Unit,
    Byte(u8),
    Word(u32),
    Flag(bool),
    Status(FlashStatus1Bits),
    Bytes(Vec<u8>),
}

/// The answer of a completed operation, in the model.
pub enum HkOutput {
    Unit,
    Byte(u8),
    Word(u32),
    Flag(bool),
    Status(u8),
    Bytes(Seq<u8>),
}

impl View for HkValue {
    type V = HkOutput;

    open spec fn view(&self) -> HkOutput {
        match self {
            HkValue::Unit => HkOutput::Unit,
            HkValue::Byte(b) => HkOutput::Byte(*b),
            HkValue::Word(w) => HkOutput::Word(*w),
            HkValue::Flag(f) => HkOutput::Flag(*f),
            HkValue::Status(s) => HkOutput::Status(s@),
            HkValue::Bytes(v) => HkOutput::Bytes(v@),
        }
    }
}

/// What the caller is to do next.
#[derive(Debug)]
pub enum HkStep {
    /// Perform this transfer and hand the reply to `resume`.
    Transfer(SpiTransfer),
    /// The operation is over.
    Done(Result<HkValue, HkError>),
}

/// A step in the model.
pub enum StepView {
    Transfer(Frame),
    Done(Result<HkOutput, HkError>),
}

impl View for HkStep {
    type V = StepView;

    open spec fn view(&self) -> StepView {
        match self {
            HkStep::Transfer(t) => StepView::Transfer(t@),
            HkStep::Done(Ok(v)) => StepView::Done(Ok(v@)),
            HkStep::Done(Err(e)) => StepView::Done(Err(*e)),
        }
    }
}

// ---------------------------------------------------------------------------
// The model: what each operation sends and what it makes of the replies.
// ---------------------------------------------------------------------------

pub open spec fn frame(command: Seq<u8>, payload: Seq<u8>, read_len: nat) -> Frame {
    Frame { command, payload, read_len }
}

/// Read one housekeeping register.
pub open spec fn reg_read_frame(reg: u8) -> Frame {
    frame(seq![CMD_READ_REG, reg], seq![], 1)
}

/// Write one housekeeping register.
pub open spec fn reg_write_frame(reg: u8, value: u8) -> Frame {
    frame(seq![CMD_WRITE_REG, reg, value], seq![], 0)
}

/// Read `n` consecutive housekeeping registers from `addr` on.
pub open spec fn stream_read_frame(addr: u8, n: nat) -> Frame {
    frame(seq![CMD_READ_STREAM, addr], seq![], n)
}

/// A flash command passed through the housekeeping port.
pub open spec fn flash_frame(cmd: Seq<u8>, read_len: nat) -> Frame {
    frame(seq![CMD_PASSTHRU].add(cmd), seq![], read_len)
}

pub open spec fn write_enable_frame() -> Frame {
    flash_frame(seq![FLASH_WRITE_ENABLE], 0)
}

/// Erase of sector `n`: the address is sent as `(n >> 4) & 0xFF`, then
/// `(n << 4) & 0xF0`, then 0, that is `n * 4096` as a 24-bit address.
pub open spec fn sector_erase_frame(n: u16) -> Frame {
    flash_frame(seq![FLASH_ERASE_SECTOR, ((n >> 4u16) & 0xFF) as u8, ((n << 4u16) & 0xF0) as u8, 0], 0)
}

/// Program of page `n` with `data`.
pub open spec fn page_program_frame(n: u16, data: Seq<u8>) -> Frame {
    frame(
        seq![CMD_PASSTHRU, FLASH_PROGRAM_PAGE, ((n >> 8u16) & 0xFF) as u8, (n & 0xFF) as u8, 0],
        data,
        0,
    )
}

/// Number of transfers needed to read `len` bytes from the flash.
pub open spec fn chunk_count(len: nat) -> nat {
    ((len + 2043) / 2044) as nat
}

/// Flash address of the `i`-th chunk of a read from `addr`.
pub open spec fn chunk_addr(addr: u32, i: int) -> u32 {
    (addr + i * FLASH_READ_CHUNK) as u32
}

/// The `i`-th transfer of a read of `len` bytes from flash address `addr`.
pub open spec fn read_chunk_frame(addr: u32, len: nat, i: int) -> Frame {
    let a = chunk_addr(addr, i);
    let rest = len - i * FLASH_READ_CHUNK;
    flash_frame(
        seq![FLASH_READ_LO_SPEED, ((a >> 16u32) & 0xFF) as u8, ((a >> 8u32) & 0xFF) as u8, (a & 0xFF) as u8],
        if rest < FLASH_READ_CHUNK { rest as nat } else { FLASH_READ_CHUNK as nat },
    )
}

/// Write of the DCO trim value `v`, sent as a thermometer code `2^v - 1` in
/// little-endian byte order.
pub open spec fn dco_trim_frame(v: u32) -> Frame {
    frame(seq![CMD_WRITE_STREAM, 0x0D].add(le_bytes(low_ones(v as nat) as u32)), seq![], 0)
}

/// The transfers of an operation, in order.
pub open spec fn plan(op: HkOp) -> Seq<Frame> {
    match op {
        HkOp::CheckIds => seq![stream_read_frame(0x01, 2), reg_read_frame(0x03)],
        HkOp::ReadReg(reg) => seq![reg_read_frame(reg)],
        HkOp::WriteReg(reg, value) => seq![reg_write_frame(reg, value)],
        HkOp::ReadProjectId => seq![stream_read_frame(0x04, 4)],
        HkOp::FlashStatus => seq![flash_frame(seq![FLASH_READ_STATUS], 1)],
        HkOp::FlashStatus2 => seq![flash_frame(seq![FLASH_READ_STATUS2], 1)],
        HkOp::FlashBusy => seq![flash_frame(seq![FLASH_READ_STATUS], 1)],
        HkOp::CpuResetHold => seq![reg_write_frame(0x0B, 1)],
        HkOp::CpuResetRelease => seq![reg_write_frame(0x0B, 0)],
        HkOp::CpuResetToggle => seq![reg_write_frame(0x0B, 1), reg_write_frame(0x0B, 0)],
        HkOp::FlashReset => seq![flash_frame(seq![FLASH_RESET_CHIP], 0)],
        HkOp::FlashReadJedec => seq![flash_frame(seq![FLASH_JEDEC_DATA], 3)],
        HkOp::FlashIdentify => seq![flash_frame(seq![FLASH_JEDEC_DATA], 3)],
        HkOp::FlashWriteEnable => seq![write_enable_frame()],
        HkOp::FlashWriteDisable => seq![flash_frame(seq![FLASH_WRITE_DISABLE], 0)],
        HkOp::FlashErase => seq![write_enable_frame(), flash_frame(seq![FLASH_ERASE_CHIP], 0)],
        HkOp::FlashEraseSector(n) => seq![write_enable_frame(), sector_erase_frame(n)],
        HkOp::FlashProgramPage(n, data) => seq![write_enable_frame(), page_program_frame(n, data@)],
        HkOp::FlashRead(addr, len) => Seq::new(
            chunk_count(len as nat),
            |i: int| read_chunk_frame(addr, len as nat, i),
        ),
        HkOp::EngageDll => seq![reg_write_frame(0x08, 1), reg_write_frame(0x09, 0)],
        HkOp::ReadDllTrim => seq![stream_read_frame(0x0D, 4)],
        HkOp::DisengageDll => seq![reg_write_frame(0x09, 1), reg_write_frame(0x08, 0)],
        HkOp::DcoMode => seq![reg_write_frame(0x08, 3), reg_write_frame(0x09, 0)],
        HkOp::DcoTrim(v) => seq![dco_trim_frame(v)],
    }
}

/// The error an operation fails with before any transfer, if any.
pub open spec fn precheck(op: HkOp) -> Option<HkError> {
    match op {
        HkOp::ReadReg(reg) => if reg >= REG_LIMIT {
            Some(HkError::InvalidRegister(reg))
        } else {
            None
        },
        HkOp::WriteReg(reg, _) => if reg >= REG_LIMIT {
            Some(HkError::InvalidRegister(reg))
        } else {
            None
        },
        HkOp::DcoTrim(v) => if v > DCO_TRIM_MAX {
            Some(HkError::InvalidTrim(v))
        } else {
            None
        },
        _ => None,
    }
}

/// The inputs for which the operation runs to its end without an arithmetic
/// overflow: a flash read must not step its address past `u32::MAX`.
pub open spec fn admissible(op: HkOp) -> bool {
    match op {
        HkOp::FlashRead(addr, len) => addr + chunk_count(len as nat) * FLASH_READ_CHUNK
            <= u32::MAX,
        _ => true,
    }
}

/// The error an operation stops with after the reply to its `i`-th transfer.
pub open spec fn verdict(op: HkOp, i: int, reply: Seq<u8>) -> Option<HkError> {
    match op {
        HkOp::CheckIds => if i == 0 && be_u16(reply[0], reply[1]) != MANUFACTURER_ID {
            Some(HkError::WrongManufacturer(be_u16(reply[0], reply[1]) as u16))
        } else if i == 1 && reply[0] != PRODUCT_ID {
            Some(HkError::WrongProduct(reply[0]))
        } else {
            None
        },
        HkOp::FlashIdentify => if reply[0] != WINBOND_JEDEC_ID {
            Some(HkError::FlashNotFound)
        } else {
            None
        },
        _ => None,
    }
}

/// The project ID: each byte bit-reversed, the four read in little-endian order.
pub open spec fn project_id(b: Seq<u8>) -> u32 {
    le_u32(reversed(b[0]), reversed(b[1]), reversed(b[2]), reversed(b[3])) as u32
}

/// The replies concatenated, first to last.
pub open spec fn joined(rs: Seq<Seq<u8>>) -> Seq<u8>
    decreases rs.len(),
{
    if rs.len() == 0 {
        seq![]
    } else {
        joined(rs.drop_last()).add(rs.last())
    }
}

/// The answer of an operation whose transfers all got their replies.
pub open spec fn outcome(op: HkOp, replies: Seq<Seq<u8>>) -> HkOutput {
    match op {
        HkOp::ReadReg(_) => HkOutput::Byte(replies[0][0]),
        HkOp::ReadProjectId => HkOutput::Word(project_id(replies[0])),
        HkOp::FlashStatus => HkOutput::Status(replies[0][0]),
        HkOp::FlashStatus2 => HkOutput::Byte(replies[0][0]),
        HkOp::FlashBusy => HkOutput::Flag(byte_bit(replies[0][0], 0)),
        HkOp::FlashReadJedec => HkOutput::Bytes(replies[0]),
        HkOp::FlashRead(_, _) => HkOutput::Bytes(joined(replies)),
        HkOp::ReadDllTrim => HkOutput::Byte(
            ones(le_u32(replies[0][0], replies[0][1], replies[0][2], replies[0][3]) as nat) as u8,
        ),
        _ => HkOutput::Unit,
    }
}

/// What an operation does first.
pub open spec fn first_step(op: HkOp) -> StepView {
    match precheck(op) {
        Some(e) => StepView::Done(Err(e)),
        None => if plan(op).len() == 0 {
            StepView::Done(Ok(outcome(op, seq![])))
        } else {
            StepView::Transfer(plan(op)[0])
        },
    }
}

/// What an operation does after its `i`-th transfer, which got `reply` (`None`
/// where the transfer failed), the earlier ones having got `earlier`.
pub open spec fn next_step(op: HkOp, i: int, earlier: Seq<Seq<u8>>, reply: Option<Seq<u8>>) -> StepView {
    match reply {
        None => StepView::Done(Err(HkError::Bus)),
        Some(r) => match verdict(op, i, r) {
            Some(e) => StepView::Done(Err(e)),
            None => if i + 1 < plan(op).len() {
                StepView::Transfer(plan(op)[i + 1])
            } else {
                StepView::Done(Ok(outcome(op, earlier.push(r))))
            },
        },
    }
}

// ---------------------------------------------------------------------------
// Executable counterparts of the model.
// ---------------------------------------------------------------------------

/// The replies as byte sequences.
pub open spec fn reply_views(rs: Seq<Vec<u8>>) -> Seq<Seq<u8>> {
    rs.map_values(|v: Vec<u8>| v@)
}

/// The reply of a transfer, as a byte sequence.
pub open spec fn opt_view(reply: Option<Vec<u8>>) -> Option<Seq<u8>> {
    match reply {
        Some(r) => Some(r@),
        None => None,
    }
}

fn transfer(command: Vec<u8>, read_len: usize) -> (t: SpiTransfer)
    ensures
        t@ == frame(command@, seq![], read_len as nat),
{
    SpiTransfer { command, payload: Vec::new(), read_len }
}

fn flash_transfer(cmd: u8, read_len: usize) -> (t: SpiTransfer)
    ensures
        t@ == flash_frame(seq![cmd], read_len as nat),
{
    let t = transfer(vec![CMD_PASSTHRU, cmd], read_len);
    assert(t@.command =~= seq![CMD_PASSTHRU].add(seq![cmd]));
    t
}

/// Number of transfers of an operation.
fn plan_len(op: &HkOp) -> (n: usize)
    ensures
        n == plan(*op).len(),
{
    match op {
        HkOp::CheckIds => 2,
        HkOp::CpuResetToggle => 2,
        HkOp::FlashErase => 2,
        HkOp::FlashEraseSector(_) => 2,
        HkOp::FlashProgramPage(_, _) => 2,
        HkOp::EngageDll => 2,
        HkOp::DisengageDll => 2,
        HkOp::DcoMode => 2,
        HkOp::FlashRead(_, len) => {
            let whole = *len / FLASH_READ_CHUNK;
            if *len % FLASH_READ_CHUNK != 0 {
                whole + 1
            } else {
                whole
            }
        },
        _ => 1,
    }
}

/// The `i`-th transfer of an operation.
fn transfer_at(op: &HkOp, i: usize) -> (t: SpiTransfer)
    requires
        precheck(*op) is None,
        admissible(*op),
        i < plan(*op).len(),
    ensures
        t@ == plan(*op)[i as int],
{
    match op {
        HkOp::CheckIds => if i == 0 {
            transfer(vec![CMD_READ_STREAM, 0x01], 2)
        } else {
            transfer(vec![CMD_READ_REG, 0x03], 1)
        },
        HkOp::ReadReg(reg) => transfer(vec![CMD_READ_REG, *reg], 1),
        HkOp::WriteReg(reg, value) => transfer(vec![CMD_WRITE_REG, *reg, *value], 0),
        HkOp::ReadProjectId => transfer(vec![CMD_READ_STREAM, 0x04], 4),
        HkOp::FlashStatus => flash_transfer(FLASH_READ_STATUS, 1),
        HkOp::FlashStatus2 => flash_transfer(FLASH_READ_STATUS2, 1),
        HkOp::FlashBusy => flash_transfer(FLASH_READ_STATUS, 1),
        HkOp::CpuResetHold => transfer(vec![CMD_WRITE_REG, 0x0B, 1], 0),
        HkOp::CpuResetRelease => transfer(vec![CMD_WRITE_REG, 0x0B, 0], 0),
        HkOp::CpuResetToggle => if i == 0 {
            transfer(vec![CMD_WRITE_REG, 0x0B, 1], 0)
        } else {
            transfer(vec![CMD_WRITE_REG, 0x0B, 0], 0)
        },
        HkOp::FlashReset => flash_transfer(FLASH_RESET_CHIP, 0),
        HkOp::FlashReadJedec => flash_transfer(FLASH_JEDEC_DATA, 3),
        HkOp::FlashIdentify => flash_transfer(FLASH_JEDEC_DATA, 3),
        HkOp::FlashWriteEnable => flash_transfer(FLASH_WRITE_ENABLE, 0),
        HkOp::FlashWriteDisable => flash_transfer(FLASH_WRITE_DISABLE, 0),
        HkOp::FlashErase => if i == 0 {
            flash_transfer(FLASH_WRITE_ENABLE, 0)
        } else {
            flash_transfer(FLASH_ERASE_CHIP, 0)
        },
        HkOp::FlashEraseSector(n) => if i == 0 {
            flash_transfer(FLASH_WRITE_ENABLE, 0)
        } else {
            let t = transfer(
                vec![CMD_PASSTHRU, FLASH_ERASE_SECTOR, ((*n >> 4u16) & 0xFF) as u8, ((*n << 4u16) & 0xF0) as u8, 0],
                0,
            );
            assert(t@.command =~= sector_erase_frame(*n).command);
            t
        },
        HkOp::FlashProgramPage(n, data) => if i == 0 {
            flash_transfer(FLASH_WRITE_ENABLE, 0)
        } else {
            let command = vec![CMD_PASSTHRU, FLASH_PROGRAM_PAGE, ((*n >> 8u16) & 0xFF) as u8, (*n & 0xFF) as u8, 0];
            let payload = vstd::slice::slice_to_vec(data.as_slice());
            SpiTransfer { command, payload, read_len: 0 }
        },
        HkOp::FlashRead(addr, len) => {
            assert(i * 2044 < *len) by (nonlinear_arith)
                requires
                    i < (*len + 2043) / 2044,
            ;
            assert(*addr + i * 2044 < *addr + chunk_count(*len as nat) * 2044) by (nonlinear_arith)
                requires
                    i < chunk_count(*len as nat),
            ;
            let a: u32 = *addr + (i as u32) * 2044;
            let rest: usize = *len - i * FLASH_READ_CHUNK;
            let read_len: usize = if rest < FLASH_READ_CHUNK {
                rest
            } else {
                FLASH_READ_CHUNK
            };
            let t = transfer(
                vec![CMD_PASSTHRU, FLASH_READ_LO_SPEED, ((a >> 16u32) & 0xFF) as u8, ((a >> 8u32) & 0xFF) as u8, (a & 0xFF) as u8],
                read_len,
            );
            assert(t@.command =~= read_chunk_frame(*addr, *len as nat, i as int).command);
            t
        },
        HkOp::EngageDll => if i == 0 {
            transfer(vec![CMD_WRITE_REG, 0x08, 1], 0)
        } else {
            transfer(vec![CMD_WRITE_REG, 0x09, 0], 0)
        },
        HkOp::ReadDllTrim => transfer(vec![CMD_READ_STREAM, 0x0D], 4),
        HkOp::DisengageDll => if i == 0 {
            transfer(vec![CMD_WRITE_REG, 0x09, 1], 0)
        } else {
            transfer(vec![CMD_WRITE_REG, 0x08, 0], 0)
        },
        HkOp::DcoMode => if i == 0 {
            transfer(vec![CMD_WRITE_REG, 0x08, 3], 0)
        } else {
            transfer(vec![CMD_WRITE_REG, 0x09, 0], 0)
        },
        HkOp::DcoTrim(v) => {
            let encoded = low_ones_u32(*v);
            let b = u32_to_le_bytes(encoded);
            let t = transfer(vec![CMD_WRITE_STREAM, 0x0D, b[0], b[1], b[2], b[3]], 0);
            assert(t@.command =~= dco_trim_frame(*v).command);
            t
        },
    }
}

/// The error an operation fails with before any transfer, if any.
fn precheck_of(op: &HkOp) -> (r: Option<HkError>)
    ensures
        r == precheck(*op),
{
    match op {
        HkOp::ReadReg(reg) => if *reg >= REG_LIMIT {
            Some(HkError::InvalidRegister(*reg))
        } else {
            None
        },
        HkOp::WriteReg(reg, _) => if *reg >= REG_LIMIT {
            Some(HkError::InvalidRegister(*reg))
        } else {
            None
        },
        HkOp::DcoTrim(v) => if *v > DCO_TRIM_MAX {
            Some(HkError::InvalidTrim(*v))
        } else {
            None
        },
        _ => None,
    }
}

/// The error an operation stops with after the reply to its `i`-th transfer.
fn verdict_of(op: &HkOp, i: usize, reply: &Vec<u8>) -> (r: Option<HkError>)
    requires
        i < plan(*op).len(),
        reply@.len() == plan(*op)[i as int].read_len,
    ensures
        r == verdict(*op, i as int, reply@),
{
    match op {
        HkOp::CheckIds => {
            if i == 0 {
                let mfg = u16_from_be_bytes([reply[0], reply[1]]);
                if mfg != MANUFACTURER_ID {
                    return Some(HkError::WrongManufacturer(mfg));
                }
                None
            } else if reply[0] != PRODUCT_ID {
                Some(HkError::WrongProduct(reply[0]))
            } else {
                None
            }
        },
        HkOp::FlashIdentify => if reply[0] != WINBOND_JEDEC_ID {
            Some(HkError::FlashNotFound)
        } else {
            None
        },
        _ => None,
    }
}

/// Concatenates the replies, first to last.
fn join_replies(rs: &mut Vec<Vec<u8>>) -> (out: Vec<u8>)
    ensures
        out@ == joined(reply_views(old(rs)@)),
    decreases old(rs)@.len(),
{
    let ghost before = reply_views(rs@);
    match rs.pop() {
        None => {
            assert(before.len() == 0);
            Vec::new()
        },
        Some(mut last) => {
            assert(reply_views(rs@) =~= before.drop_last());
            let mut out = join_replies(rs);
            out.append(&mut last);
            out
        },
    }
}

/// The answer of an operation whose transfers all got their replies.
fn outcome_of(op: &HkOp, replies: Vec<Vec<u8>>) -> (r: HkValue)
    requires
        replies@.len() == plan(*op).len(),
        forall|k: int|
            0 <= k < replies@.len() ==> #[trigger] replies@[k]@.len() == plan(*op)[k].read_len,
    ensures
        r@ == outcome(*op, reply_views(replies@)),
{
    let ghost views = reply_views(replies@);
    match op {
        HkOp::ReadReg(_) => HkValue::Byte(replies[0][0]),
        HkOp::ReadProjectId => {
            let b = &replies[0];
            let r0 = reverse_bits_u8(b[0]);
            let r1 = reverse_bits_u8(b[1]);
            let r2 = reverse_bits_u8(b[2]);
            let r3 = reverse_bits_u8(b[3]);
            HkValue::Word(u32_from_le_bytes([r0, r1, r2, r3]))
        },
        HkOp::FlashStatus => HkValue::Status(FlashStatus1Bits::from_bits(replies[0][0])),
        HkOp::FlashStatus2 => HkValue::Byte(replies[0][0]),
        HkOp::FlashBusy => {
            let status = FlashStatus1Bits::from_bits(replies[0][0]);
            HkValue::Flag(status.wip())
        },
        HkOp::FlashReadJedec => {
            let mut rs = replies;
            let first = rs.swap_remove(0);
            HkValue::Bytes(first)
        },
        HkOp::FlashRead(_, _) => {
            let mut rs = replies;
            HkValue::Bytes(join_replies(&mut rs))
        },
        HkOp::ReadDllTrim => {
            let b = &replies[0];
            let encoded = u32_from_le_bytes([b[0], b[1], b[2], b[3]]);
            let n = count_ones_u32(encoded);
            HkValue::Byte(n as u8)
        },
        _ => HkValue::Unit,
    }
}

// ---------------------------------------------------------------------------
// The driver.
// ---------------------------------------------------------------------------

/// An operation under way.
struct Job {
    op: HkOp,
    /// Index of the transfer whose reply is awaited.
    step: usize,
    /// Replies to the transfers before `step`.
    replies: Vec<Vec<u8>>,
}

/// Driver for the Caravel housekeeping SPI interface.
///
/// It holds the operation under way, if any.  Starting an operation drops the
/// one under way.
pub struct HousekeepingSpi {
    job: Option<Job>,
    /// Bytes received by the last operation before a transfer of it failed.
    partial: Vec<u8>,
}

impl HousekeepingSpi {
    /// No operation is under way.
    pub closed spec fn is_idle(&self) -> bool {
        self.job is None
    }

    /// The operation under way.
    pub closed spec fn op(&self) -> HkOp {
        self.job->0.op
    }

    /// Index, in the plan of the operation under way, of the transfer whose
    /// reply is awaited.
    pub closed spec fn step(&self) -> nat {
        self.job->0.step as nat
    }

    /// Replies to the earlier transfers of the operation under way.
    pub closed spec fn replies(&self) -> Seq<Seq<u8>> {
        reply_views(self.job->0.replies@)
    }

    /// The bytes that the last operation received, concatenated, where a
    /// transfer of it failed; empty otherwise.  A flash read that fails keeps
    /// the chunks that it read before the failure.
    pub closed spec fn partial(&self) -> Seq<u8> {
        self.partial@
    }

    /// The operation `op` is under way, awaits the reply to its `step`-th
    /// transfer and got `replies` to the earlier ones.
    pub open spec fn awaits(&self, op: HkOp, step: nat, replies: Seq<Seq<u8>>) -> bool {
        &&& !self.is_idle()
        &&& self.op() == op
        &&& self.step() == step
        &&& self.replies() == replies
    }

    /// The state invariant: an operation under way passed its checks, its
    /// awaited transfer is in its plan, and the earlier replies have the
    /// lengths that the plan asked for and passed their checks.
    pub closed spec fn wf(&self) -> bool {
        match self.job {
            None => true,
            Some(j) => {
                &&& precheck(j.op) is None
                &&& admissible(j.op)
                &&& j.step < plan(j.op).len()
                &&& j.replies@.len() == j.step
                &&& forall|k: int|
                    0 <= k < j.step ==> #[trigger] j.replies@[k]@.len() == plan(j.op)[k].read_len
            },
        }
    }

    /// Length of the reply that the awaited transfer asks for.
    pub open spec fn awaited_len(&self) -> nat {
        plan(self.op())[self.step() as int].read_len
    }

    /// A driver with no operation under way.
    pub fn new() -> (r: Self)
        ensures
            r.wf(),
            r.is_idle(),
            r.partial() == Seq::<u8>::empty(),
    {
        HousekeepingSpi { job: None, partial: Vec::new() }
    }

    /// Hands out the bytes received before a failed transfer, leaving none.
    pub fn take_partial(&mut self) -> (d: Vec<u8>)
        ensures
            d@ == old(self).partial(),
            final(self).partial() == Seq::<u8>::empty(),
            final(self).wf() == old(self).wf(),
            final(self).is_idle() == old(self).is_idle(),
            final(self).op() == old(self).op(),
            final(self).step() == old(self).step(),
            final(self).replies() == old(self).replies(),
    {
        let mut d = Vec::new();
        std::mem::swap(&mut d, &mut self.partial);
        d
    }

    fn start(&mut self, op: HkOp) -> (s: HkStep)
        requires
            admissible(op),
        ensures
            final(self).wf(),
            s@ == first_step(op),
            s@ is Transfer ==> final(self).awaits(op, 0, seq![]),
            s@ is Done ==> final(self).is_idle(),
            final(self).partial() == Seq::<u8>::empty(),
    {
        self.job = None;
        self.partial = Vec::new();
        if let Some(e) = precheck_of(&op) {
            return HkStep::Done(Err(e));
        }
        let n = plan_len(&op);
        if n == 0 {
            let v = outcome_of(&op, Vec::new());
            assert(reply_views(Seq::<Vec<u8>>::empty()) =~= seq![]);
            return HkStep::Done(Ok(v));
        }
        let t = transfer_at(&op, 0);
        self.job = Some(Job { op, step: 0, replies: Vec::new() });
        assert(self.replies() =~= seq![]);
        HkStep::Transfer(t)
    }

    /// Takes the reply to the awaited transfer (`None` where the transfer
    /// failed) and says what to do next.
    pub fn resume(&mut self, reply: Option<Vec<u8>>) -> (s: HkStep)
        requires
            old(self).wf(),
            !old(self).is_idle(),
            reply matches Some(r) ==> r@.len() == old(self).awaited_len(),
        ensures
            final(self).wf(),
            s@ == next_step(old(self).op(), old(self).step() as int, old(self).replies(), opt_view(reply)),
            s@ is Transfer ==> final(self).awaits(
                old(self).op(),
                old(self).step() + 1,
                old(self).replies().push(opt_view(reply)->0),
            ),
            s@ is Done ==> final(self).is_idle(),
            final(self).partial() == (if reply is None {
                joined(old(self).replies())
            } else {
                Seq::<u8>::empty()
            }),
    {
        let job = self.job.take();
        let Job { op, step, mut replies } = job.unwrap();
        let r = match reply {
            None => {
                self.partial = join_replies(&mut replies);
                return HkStep::Done(Err(HkError::Bus));
            },
            Some(r) => r,
        };
        self.partial = Vec::new();
        if let Some(e) = verdict_of(&op, step, &r) {
            return HkStep::Done(Err(e));
        }
        let ghost before = reply_views(replies@);
        let ghost rv = r@;
        replies.push(r);
        assert(reply_views(replies@) =~= before.push(rv));
        let n = plan_len(&op);
        if step + 1 < n {
            let t = transfer_at(&op, step + 1);
            self.job = Some(Job { op, step: step + 1, replies });
            HkStep::Transfer(t)
        } else {
            let v = outcome_of(&op, replies);
            HkStep::Done(Ok(v))
        }
    }
}


impl HousekeepingSpi {
    /// Checks the manufacturer ID (0x0456) and the product ID (0x11).
    pub fn check_ids(&mut self) -> (s: HkStep)
        ensures
            final(self).wf(),
            s@ == first_step(HkOp::CheckIds),
            s@ is Transfer ==> final(self).awaits(HkOp::CheckIds, 0, seq![]),
            s@ is Done ==> final(self).is_idle(),
            final(self).partial() == Seq::<u8>::empty(),
    {
        self.start(HkOp::CheckIds)
    }

    /// Reads housekeeping register `reg`; registers from 0x70 up do not exist.
    pub fn read_reg(&mut self, reg: u8) -> (s: HkStep)
        ensures
            final(self).wf(),
            s@ == first_step(HkOp::ReadReg(reg)),
            s@ is Transfer ==> final(self).awaits(HkOp::ReadReg(reg), 0, seq![]),
            s@ is Done ==> final(self).is_idle(),
            final(self).partial() == Seq::<u8>::empty(),
    {
        self.start(HkOp::ReadReg(reg))
    }

    /// Writes `value` to housekeeping register `reg`; registers from 0x70 up do not exist.
    pub fn write_reg(&mut self, reg: u8, value: u8) -> (s: HkStep)
        ensures
            final(self).wf(),
            s@ == first_step(HkOp::WriteReg(reg, value)),
            s@ is Transfer ==> final(self).awaits(HkOp::WriteReg(reg, value), 0, seq![]),
            s@ is Done ==> final(self).is_idle(),
            final(self).partial() == Seq::<u8>::empty(),
    {
        self.start(HkOp::WriteReg(reg, value))
    }

    /// Reads the user project ID.
    pub fn read_project_id(&mut self) -> (s: HkStep)
        ensures
            final(self).wf(),
            s@ == first_step(HkOp::ReadProjectId),
            s@ is Transfer ==> final(self).awaits(HkOp::ReadProjectId, 0, seq![]),
            s@ is Done ==> final(self).is_idle(),
            final(self).partial() == Seq::<u8>::empty(),
    {
        self.start(HkOp::ReadProjectId)
    }

    /// Reads the flash status register 1.
    pub fn get_flash_status(&mut self) -> (s: HkStep)
        ensures
            final(self).wf(),
            s@ == first_step(HkOp::FlashStatus),
            s@ is Transfer ==> final(self).awaits(HkOp::FlashStatus, 0, seq![]),
            s@ is Done ==> final(self).is_idle(),
            final(self).partial() == Seq::<u8>::empty(),
    {
        self.start(HkOp::FlashStatus)
    }

    /// Reads the flash status register 2.
    pub fn get_flash_status2(&mut self) -> (s: HkStep)
        ensures
            final(self).wf(),
            s@ == first_step(HkOp::FlashStatus2),
            s@ is Transfer ==> final(self).awaits(HkOp::FlashStatus2, 0, seq![]),
            s@ is Done ==> final(self).is_idle(),
            final(self).partial() == Seq::<u8>::empty(),
    {
        self.start(HkOp::FlashStatus2)
    }

    /// Tells whether the flash has a write in progress.
    pub fn flash_busy(&mut self) -> (s: HkStep)
        ensures
            final(self).wf(),
            s@ == first_step(HkOp::FlashBusy),
            s@ is Transfer ==> final(self).awaits(HkOp::FlashBusy, 0, seq![]),
            s@ is Done ==> final(self).is_idle(),
            final(self).partial() == Seq::<u8>::empty(),
    {
        self.start(HkOp::FlashBusy)
    }

    /// Holds the management CPU in reset.
    pub fn cpu_reset_hold(&mut self) -> (s: HkStep)
        ensures
            final(self).wf(),
            s@ == first_step(HkOp::CpuResetHold),
            s@ is Transfer ==> final(self).awaits(HkOp::CpuResetHold, 0, seq![]),
            s@ is Done ==> final(self).is_idle(),
            final(self).partial() == Seq::<u8>::empty(),
    {
        self.start(HkOp::CpuResetHold)
    }

    /// Releases the management CPU from reset.
    pub fn cpu_reset_release(&mut self) -> (s: HkStep)
        ensures
            final(self).wf(),
            s@ == first_step(HkOp::CpuResetRelease),
            s@ is Transfer ==> final(self).awaits(HkOp::CpuResetRelease, 0, seq![]),
            s@ is Done ==> final(self).is_idle(),
            final(self).partial() == Seq::<u8>::empty(),
    {
        self.start(HkOp::CpuResetRelease)
    }

    /// Holds the management CPU in reset, then releases it.
    pub fn cpu_reset_toggle(&mut self) -> (s: HkStep)
        ensures
            final(self).wf(),
            s@ == first_step(HkOp::CpuResetToggle),
            s@ is Transfer ==> final(self).awaits(HkOp::CpuResetToggle, 0, seq![]),
            s@ is Done ==> final(self).is_idle(),
            final(self).partial() == Seq::<u8>::empty(),
    {
        self.start(HkOp::CpuResetToggle)
    }

    /// Resets the flash.
    pub fn flash_reset(&mut self) -> (s: HkStep)
        ensures
            final(self).wf(),
            s@ == first_step(HkOp::FlashReset),
            s@ is Transfer ==> final(self).awaits(HkOp::FlashReset, 0, seq![]),
            s@ is Done ==> final(self).is_idle(),
            final(self).partial() == Seq::<u8>::empty(),
    {
        self.start(HkOp::FlashReset)
    }

    /// Reads the three JEDEC identification bytes of the flash.
    pub fn flash_read_jedec(&mut self) -> (s: HkStep)
        ensures
            final(self).wf(),
            s@ == first_step(HkOp::FlashReadJedec),
            s@ is Transfer ==> final(self).awaits(HkOp::FlashReadJedec, 0, seq![]),
            s@ is Done ==> final(self).is_idle(),
            final(self).partial() == Seq::<u8>::empty(),
    {
        self.start(HkOp::FlashReadJedec)
    }

    /// Checks that the flash is a Winbond part.
    pub fn flash_identify(&mut self) -> (s: HkStep)
        ensures
            final(self).wf(),
            s@ == first_step(HkOp::FlashIdentify),
            s@ is Transfer ==> final(self).awaits(HkOp::FlashIdentify, 0, seq![]),
            s@ is Done ==> final(self).is_idle(),
            final(self).partial() == Seq::<u8>::empty(),
    {
        self.start(HkOp::FlashIdentify)
    }

    /// Sets the flash write-enable latch.
    pub fn flash_write_enable(&mut self) -> (s: HkStep)
        ensures
            final(self).wf(),
            s@ == first_step(HkOp::FlashWriteEnable),
            s@ is Transfer ==> final(self).awaits(HkOp::FlashWriteEnable, 0, seq![]),
            s@ is Done ==> final(self).is_idle(),
            final(self).partial() == Seq::<u8>::empty(),
    {
        self.start(HkOp::FlashWriteEnable)
    }

    /// Clears the flash write-enable latch.
    pub fn flash_write_disable(&mut self) -> (s: HkStep)
        ensures
            final(self).wf(),
            s@ == first_step(HkOp::FlashWriteDisable),
            s@ is Transfer ==> final(self).awaits(HkOp::FlashWriteDisable, 0, seq![]),
            s@ is Done ==> final(self).is_idle(),
            final(self).partial() == Seq::<u8>::empty(),
    {
        self.start(HkOp::FlashWriteDisable)
    }

    /// Erases the whole flash.
    pub fn flash_erase(&mut self) -> (s: HkStep)
        ensures
            final(self).wf(),
            s@ == first_step(HkOp::FlashErase),
            s@ is Transfer ==> final(self).awaits(HkOp::FlashErase, 0, seq![]),
            s@ is Done ==> final(self).is_idle(),
            final(self).partial() == Seq::<u8>::empty(),
    {
        self.start(HkOp::FlashErase)
    }

    /// Erases flash sector `n_sector`.
    pub fn flash_erase_sector(&mut self, n_sector: u16) -> (s: HkStep)
        ensures
            final(self).wf(),
            s@ == first_step(HkOp::FlashEraseSector(n_sector)),
            s@ is Transfer ==> final(self).awaits(HkOp::FlashEraseSector(n_sector), 0, seq![]),
            s@ is Done ==> final(self).is_idle(),
            final(self).partial() == Seq::<u8>::empty(),
    {
        self.start(HkOp::FlashEraseSector(n_sector))
    }

    /// Programs flash page `n_page` with `data`.
    pub fn flash_program_page(&mut self, n_page: u16, data: Vec<u8>) -> (s: HkStep)
        ensures
            final(self).wf(),
            s@ == first_step(HkOp::FlashProgramPage(n_page, data)),
            s@ is Transfer ==> final(self).awaits(HkOp::FlashProgramPage(n_page, data), 0, seq![]),
            s@ is Done ==> final(self).is_idle(),
            final(self).partial() == Seq::<u8>::empty(),
    {
        self.start(HkOp::FlashProgramPage(n_page, data))
    }

    /// Reads `len` bytes from flash address `addr`, in transfers of at most 2044 bytes.
    pub fn flash_read(&mut self, addr: u32, len: usize) -> (s: HkStep)
        requires
            admissible(HkOp::FlashRead(addr, len)),
        ensures
            final(self).wf(),
            s@ == first_step(HkOp::FlashRead(addr, len)),
            s@ is Transfer ==> final(self).awaits(HkOp::FlashRead(addr, len), 0, seq![]),
            s@ is Done ==> final(self).is_idle(),
            final(self).partial() == Seq::<u8>::empty(),
    {
        self.start(HkOp::FlashRead(addr, len))
    }

    /// Engages the DLL.
    pub fn engage_dll(&mut self) -> (s: HkStep)
        ensures
            final(self).wf(),
            s@ == first_step(HkOp::EngageDll),
            s@ is Transfer ==> final(self).awaits(HkOp::EngageDll, 0, seq![]),
            s@ is Done ==> final(self).is_idle(),
            final(self).partial() == Seq::<u8>::empty(),
    {
        self.start(HkOp::EngageDll)
    }

    /// Reads the DLL trim value (the number of ones of its thermometer code).
    pub fn read_dll_trim(&mut self) -> (s: HkStep)
        ensures
            final(self).wf(),
            s@ == first_step(HkOp::ReadDllTrim),
            s@ is Transfer ==> final(self).awaits(HkOp::ReadDllTrim, 0, seq![]),
            s@ is Done ==> final(self).is_idle(),
            final(self).partial() == Seq::<u8>::empty(),
    {
        self.start(HkOp::ReadDllTrim)
    }

    /// Disengages the DLL.
    pub fn disengage_dll(&mut self) -> (s: HkStep)
        ensures
            final(self).wf(),
            s@ == first_step(HkOp::DisengageDll),
            s@ is Transfer ==> final(self).awaits(HkOp::DisengageDll, 0, seq![]),
            s@ is Done ==> final(self).is_idle(),
            final(self).partial() == Seq::<u8>::empty(),
    {
        self.start(HkOp::DisengageDll)
    }

    /// Puts the clock in DCO mode.
    pub fn dco_mode(&mut self) -> (s: HkStep)
        ensures
            final(self).wf(),
            s@ == first_step(HkOp::DcoMode),
            s@ is Transfer ==> final(self).awaits(HkOp::DcoMode, 0, seq![]),
            s@ is Done ==> final(self).is_idle(),
            final(self).partial() == Seq::<u8>::empty(),
    {
        self.start(HkOp::DcoMode)
    }

    /// Writes the DCO trim value (0 to 26).
    pub fn dco_trim(&mut self, value: u32) -> (s: HkStep)
        ensures
            final(self).wf(),
            s@ == first_step(HkOp::DcoTrim(value)),
            s@ is Transfer ==> final(self).awaits(HkOp::DcoTrim(value), 0, seq![]),
            s@ is Done ==> final(self).is_idle(),
            final(self).partial() == Seq::<u8>::empty(),
    {
        self.start(HkOp::DcoTrim(value))
    }

}


// ---------------------------------------------------------------------------
// Laws.
// ---------------------------------------------------------------------------

/// A 24-bit flash address sent as three bytes, most significant first.
pub open spec fn be24(hi: u8, mid: u8, lo: u8) -> int {
    65536 * hi + 256 * mid + lo
}

/// The DLL trim register reads back the DCO trim value written to it: the
/// bytes that `dco_trim` sends, read by `read_dll_trim`, decode to the value.
pub proof fn law_dco_trim_reads_back(v: u32)
    requires
        v <= DCO_TRIM_MAX,
    ensures
        outcome(HkOp::ReadDllTrim, seq![dco_trim_frame(v).command.subrange(2, 6)]) == HkOutput::Byte(
            v as u8,
        ),
{
    crate::bits::law_thermometer_counts(v as nat);
    let x = low_ones(v as nat) as u32;
    crate::bits::law_le_bytes_roundtrip(x);
    let c = dco_trim_frame(v).command;
    assert(c.subrange(2, 6) =~= le_bytes(x));
}

/// Sector `n` is erased at flash address `n * 4096` (modulo the 24-bit
/// address space).
pub proof fn law_sector_erase_address(n: u16)
    ensures
        sector_erase_frame(n).command.len() == 5,
        be24(
            sector_erase_frame(n).command[2],
            sector_erase_frame(n).command[3],
            sector_erase_frame(n).command[4],
        ) == (n * 4096) % 0x100_0000,
{
    let c = sector_erase_frame(n).command;
    assert(c =~= seq![CMD_PASSTHRU, FLASH_ERASE_SECTOR, ((n >> 4u16) & 0xFF) as u8, ((n << 4u16) & 0xF0) as u8, 0u8]);
    assert(65536 * ((n >> 4u16) & 0xFF) + 256 * ((n << 4u16) & 0xF0) == (n * 4096) % 0x100_0000) by (bit_vector);
    assert(((n >> 4u16) & 0xFF) < 256 && ((n << 4u16) & 0xF0) < 256) by (bit_vector);
}

/// Page `n` is programmed at flash address `n * 256`.
pub proof fn law_page_program_address(n: u16, data: Seq<u8>)
    ensures
        page_program_frame(n, data).command.len() == 5,
        be24(
            page_program_frame(n, data).command[2],
            page_program_frame(n, data).command[3],
            page_program_frame(n, data).command[4],
        ) == n * 256,
{
    assert(256 * ((n >> 8u16) & 0xFF) + (n & 0xFF) == n) by (bit_vector);
    assert(((n >> 8u16) & 0xFF) < 256 && (n & 0xFF) < 256) by (bit_vector);
}

/// The `i`-th transfer of a flash read reads from address
/// `addr + i * 2044` (modulo the 24-bit address space).
pub proof fn law_flash_read_chunk_address(addr: u32, len: usize, i: int)
    requires
        admissible(HkOp::FlashRead(addr, len)),
        0 <= i < chunk_count(len as nat),
    ensures
        plan(HkOp::FlashRead(addr, len))[i].command.len() == 5,
        be24(
            plan(HkOp::FlashRead(addr, len))[i].command[2],
            plan(HkOp::FlashRead(addr, len))[i].command[3],
            plan(HkOp::FlashRead(addr, len))[i].command[4],
        ) == (addr + i * FLASH_READ_CHUNK) % 0x100_0000,
{
    assert(addr + i * 2044 < addr + chunk_count(len as nat) * 2044) by (nonlinear_arith)
        requires
            i < chunk_count(len as nat),
    ;
    let a = chunk_addr(addr, i);
    assert(a == addr + i * 2044);
    assert(65536 * ((a >> 16u32) & 0xFF) + 256 * ((a >> 8u32) & 0xFF) + (a & 0xFF) == a % 0x100_0000)
        by (bit_vector);
    assert(((a >> 16u32) & 0xFF) < 256 && ((a >> 8u32) & 0xFF) < 256 && (a & 0xFF) < 256) by (bit_vector);
}

/// The replies to the first `k` transfers of a read of `len` bytes hold
/// `min(len, k * 2044)` bytes.
proof fn lemma_flash_read_prefix(addr: u32, len: usize, rs: Seq<Seq<u8>>, k: int)
    requires
        0 <= k <= rs.len(),
        rs.len() <= chunk_count(len as nat),
        forall|j: int| 0 <= j < rs.len() ==> #[trigger] rs[j].len() == read_chunk_frame(addr, len as nat, j).read_len,
    ensures
        joined(rs.subrange(0, k)).len() == if k * 2044 <= len { k * 2044 } else { len as int },
    decreases k,
{
    if k > 0 {
        lemma_flash_read_prefix(addr, len, rs, k - 1);
        assert(rs.subrange(0, k).drop_last() =~= rs.subrange(0, k - 1));
        assert((k - 1) * 2044 < len) by (nonlinear_arith)
            requires
                k - 1 < (len + 2043) / 2044,
        ;
    } else {
        assert(rs.subrange(0, k) =~= seq![]);
    }
}

/// A flash read whose transfers all got their replies returns exactly the
/// requested number of bytes.
pub proof fn law_flash_read_length(addr: u32, len: usize, rs: Seq<Seq<u8>>)
    requires
        rs.len() == plan(HkOp::FlashRead(addr, len)).len(),
        forall|j: int|
            0 <= j < rs.len() ==> #[trigger] rs[j].len() == plan(HkOp::FlashRead(addr, len))[j].read_len,
    ensures
        outcome(HkOp::FlashRead(addr, len), rs) matches HkOutput::Bytes(b) && b.len() == len,
{
    assert forall|j: int| 0 <= j < rs.len() implies #[trigger] rs[j].len() == read_chunk_frame(addr, len as nat, j).read_len by {
        assert(plan(HkOp::FlashRead(addr, len))[j] == read_chunk_frame(addr, len as nat, j));
    }
    lemma_flash_read_prefix(addr, len, rs, rs.len() as int);
    assert(rs.subrange(0, rs.len() as int) =~= rs);
    let n = rs.len() as int;
    assert(n * 2044 >= len) by (nonlinear_arith)
        requires
            n == (len + 2043) / 2044,
    ;
}

/// A flash read whose `k`-th transfer failed, the earlier ones having got
/// their replies, received exactly `k * 2044` bytes, fewer than requested: the
/// chunks it keeps fill the start of the buffer.
pub proof fn law_flash_read_partial_length(addr: u32, len: usize, rs: Seq<Seq<u8>>)
    requires
        rs.len() < plan(HkOp::FlashRead(addr, len)).len(),
        forall|j: int|
            0 <= j < rs.len() ==> #[trigger] rs[j].len() == plan(HkOp::FlashRead(addr, len))[j].read_len,
    ensures
        joined(rs).len() == rs.len() * FLASH_READ_CHUNK,
        joined(rs).len() < len,
{
    assert forall|j: int| 0 <= j < rs.len() implies #[trigger] rs[j].len() == read_chunk_frame(addr, len as nat, j).read_len by {
        assert(plan(HkOp::FlashRead(addr, len))[j] == read_chunk_frame(addr, len as nat, j));
    }
    lemma_flash_read_prefix(addr, len, rs, rs.len() as int);
    assert(rs.subrange(0, rs.len() as int) =~= rs);
    let k = rs.len() as int;
    assert(k * 2044 < len) by (nonlinear_arith)
        requires
            k < (len + 2043) / 2044,
    ;
}

/// Erasing and programming the flash set its write-enable latch first.
pub proof fn law_flash_writes_enable_first(op: HkOp)
    requires
        op is FlashErase || op is FlashEraseSector || op is FlashProgramPage,
    ensures
        plan(op).len() == 2,
        plan(op)[0] == write_enable_frame(),
{
}

/// A status bit set with a `with_*` method reads back as set, and the other
/// bits keep their values.
pub proof fn law_status_bit_reads_back(x: u8, i: u8, on: bool)
    requires
        i < 8,
    ensures
        byte_bit(with_byte_bit(x, i, on), i) == on,
        forall|j: u8| j < 8 && j != i ==> #[trigger] byte_bit(with_byte_bit(x, i, on), j) == byte_bit(x, j),
{
    assert(((x | (1u8 << i)) >> i) & 1 == 1) by (bit_vector)
        requires
            i < 8,
    ;
    assert(((x & !(1u8 << i)) >> i) & 1 == 0) by (bit_vector)
        requires
            i < 8,
    ;
    assert(forall|j: u8| j < 8 && j != i ==> #[trigger] (((x | (1u8 << i)) >> j) & 1) == ((x >> j) & 1))
        by (bit_vector)
        requires
            i < 8,
    ;
    assert(forall|j: u8| j < 8 && j != i ==> #[trigger] (((x & !(1u8 << i)) >> j) & 1) == ((x >> j) & 1))
        by (bit_vector)
        requires
            i < 8,
    ;
}

/// A transfer with no payload: `command` out, then `read_len` bytes in.
pub open spec fn simple(command: Seq<u8>, read_len: nat) -> Frame {
    Frame { command, payload: Seq::<u8>::empty(), read_len }
}

/// The housekeeping register protocol: a register is read with command 0x48
/// and one reply byte, written with command 0x88 and its value, and only the
/// registers below 0x70 exist.
pub proof fn law_register_access(reg: u8, value: u8)
    ensures
        plan(HkOp::ReadReg(reg)) == seq![simple(seq![0x48u8, reg], 1)],
        plan(HkOp::WriteReg(reg, value)) == seq![simple(seq![0x88u8, reg, value], 0)],
        (precheck(HkOp::ReadReg(reg)) is None) == (reg < 0x70),
        (precheck(HkOp::WriteReg(reg, value)) is None) == (reg < 0x70),
        reg >= 0x70 ==> precheck(HkOp::ReadReg(reg)) == Some(HkError::InvalidRegister(reg)),
        reg >= 0x70 ==> precheck(HkOp::WriteReg(reg, value)) == Some(HkError::InvalidRegister(reg)),
{
    assert(plan(HkOp::ReadReg(reg)) =~~= seq![simple(seq![0x48u8, reg], 1)]);
    assert(plan(HkOp::WriteReg(reg, value)) =~~= seq![simple(seq![0x88u8, reg, value], 0)]);
}

/// The operations built from register writes do those writes, in this order:
/// a CPU reset toggle holds the CPU in reset (0x0B := 1) and then releases it
/// (0x0B := 0), so the CPU is left running; engaging the DLL sets 0x08 to 1
/// then 0x09 to 0; disengaging sets 0x09 to 1 then 0x08 to 0; DCO mode sets
/// 0x08 to 3 then 0x09 to 0.
pub proof fn law_register_sequences()
    ensures
        plan(HkOp::CpuResetHold) == plan(HkOp::WriteReg(0x0B, 1)),
        plan(HkOp::CpuResetRelease) == plan(HkOp::WriteReg(0x0B, 0)),
        plan(HkOp::CpuResetToggle) == plan(HkOp::CpuResetHold) + plan(HkOp::CpuResetRelease),
        plan(HkOp::CpuResetToggle).last() == simple(seq![0x88u8, 0x0Bu8, 0u8], 0),
        plan(HkOp::EngageDll) == plan(HkOp::WriteReg(0x08, 1)) + plan(HkOp::WriteReg(0x09, 0)),
        plan(HkOp::DisengageDll) == plan(HkOp::WriteReg(0x09, 1)) + plan(HkOp::WriteReg(0x08, 0)),
        plan(HkOp::DcoMode) == plan(HkOp::WriteReg(0x08, 3)) + plan(HkOp::WriteReg(0x09, 0)),
{
    law_register_access(0x0B, 1);
    law_register_access(0x0B, 0);
    law_register_access(0x08, 1);
    law_register_access(0x09, 0);
    law_register_access(0x09, 1);
    law_register_access(0x08, 0);
    law_register_access(0x08, 3);
    assert(plan(HkOp::CpuResetHold) =~~= plan(HkOp::WriteReg(0x0B, 1)));
    assert(plan(HkOp::CpuResetRelease) =~~= plan(HkOp::WriteReg(0x0B, 0)));
    assert(plan(HkOp::CpuResetToggle) =~~= plan(HkOp::CpuResetHold) + plan(HkOp::CpuResetRelease));
    assert(plan(HkOp::EngageDll) =~~= plan(HkOp::WriteReg(0x08, 1)) + plan(HkOp::WriteReg(0x09, 0)));
    assert(plan(HkOp::DisengageDll) =~~= plan(HkOp::WriteReg(0x09, 1)) + plan(HkOp::WriteReg(0x08, 0)));
    assert(plan(HkOp::DcoMode) =~~= plan(HkOp::WriteReg(0x08, 3)) + plan(HkOp::WriteReg(0x09, 0)));
}

/// The single-transfer reads and flash commands: each sends these bytes and
/// reads this many; the flash ones are passed through with 0xC4.  The ID check
/// reads the manufacturer ID (2 bytes from 0x01) and then register 0x03; the
/// busy check reads status register 1, as the status read does; the flash
/// identification reads the JEDEC bytes, as the JEDEC read does.
pub proof fn law_command_bytes()
    ensures
        plan(HkOp::CheckIds) == seq![simple(seq![0x40u8, 0x01u8], 2)] + plan(HkOp::ReadReg(0x03)),
        plan(HkOp::ReadProjectId) == seq![simple(seq![0x40u8, 0x04u8], 4)],
        plan(HkOp::ReadDllTrim) == seq![simple(seq![0x40u8, 0x0Du8], 4)],
        plan(HkOp::FlashStatus) == seq![simple(seq![0xC4u8, 0x05u8], 1)],
        plan(HkOp::FlashBusy) == plan(HkOp::FlashStatus),
        plan(HkOp::FlashStatus2) == seq![simple(seq![0xC4u8, 0x35u8], 1)],
        plan(HkOp::FlashReset) == seq![simple(seq![0xC4u8, 0x99u8], 0)],
        plan(HkOp::FlashReadJedec) == seq![simple(seq![0xC4u8, 0x9fu8], 3)],
        plan(HkOp::FlashIdentify) == plan(HkOp::FlashReadJedec),
        plan(HkOp::FlashWriteEnable) == seq![simple(seq![0xC4u8, 0x06u8], 0)],
        plan(HkOp::FlashWriteDisable) == seq![simple(seq![0xC4u8, 0x04u8], 0)],
        plan(HkOp::FlashErase) == plan(HkOp::FlashWriteEnable) + seq![simple(seq![0xC4u8, 0x60u8], 0)],
{
    law_register_access(0x03, 0);
    assert(plan(HkOp::CheckIds) =~~= seq![simple(seq![0x40u8, 0x01u8], 2)] + plan(HkOp::ReadReg(0x03)));
    assert(plan(HkOp::ReadProjectId) =~~= seq![simple(seq![0x40u8, 0x04u8], 4)]);
    assert(plan(HkOp::ReadDllTrim) =~~= seq![simple(seq![0x40u8, 0x0Du8], 4)]);
    assert(plan(HkOp::FlashStatus) =~~= seq![simple(seq![0xC4u8, 0x05u8], 1)]);
    assert(plan(HkOp::FlashBusy) =~~= plan(HkOp::FlashStatus));
    assert(plan(HkOp::FlashStatus2) =~~= seq![simple(seq![0xC4u8, 0x35u8], 1)]);
    assert(plan(HkOp::FlashReset) =~~= seq![simple(seq![0xC4u8, 0x99u8], 0)]);
    assert(plan(HkOp::FlashReadJedec) =~~= seq![simple(seq![0xC4u8, 0x9fu8], 3)]);
    assert(plan(HkOp::FlashIdentify) =~~= plan(HkOp::FlashReadJedec));
    assert(plan(HkOp::FlashWriteEnable) =~~= seq![simple(seq![0xC4u8, 0x06u8], 0)]);
    assert(plan(HkOp::FlashWriteDisable) =~~= seq![simple(seq![0xC4u8, 0x04u8], 0)]);
    assert(plan(HkOp::FlashErase) =~~= plan(HkOp::FlashWriteEnable) + seq![simple(seq![0xC4u8, 0x60u8], 0)]);
}

/// Programming page `n` sets the write-enable latch, then sends the program
/// command with the page's address `n * 256` (most significant byte first)
/// and all of `data`, unchanged, as payload.
pub proof fn law_page_program(n: u16, data: Vec<u8>)
    ensures
        plan(HkOp::FlashProgramPage(n, data)) == plan(HkOp::FlashWriteEnable) + seq![
            Frame {
                command: seq![0xC4u8, 0x02u8, (n / 256) as u8, (n % 256) as u8, 0u8],
                payload: data@,
                read_len: 0,
            },
        ],
{
    assert((n >> 8u16) & 0xFF == n / 256 && (n & 0xFF) == n % 256) by (bit_vector);
    law_command_bytes();
    let f = Frame {
        command: seq![0xC4u8, 0x02u8, (n / 256) as u8, (n % 256) as u8, 0u8],
        payload: data@,
        read_len: 0,
    };
    assert(page_program_frame(n, data@) =~~= f);
    assert(plan(HkOp::FlashProgramPage(n, data)) =~~= plan(HkOp::FlashWriteEnable) + seq![f]);
}

/// Erasing sector `n` sets the write-enable latch, then sends the sector
/// erase command 0xD8 with a 24-bit address.
pub proof fn law_sector_erase(n: u16)
    ensures
        plan(HkOp::FlashEraseSector(n)).len() == 2,
        plan(HkOp::FlashEraseSector(n))[0] == plan(HkOp::FlashWriteEnable)[0],
        plan(HkOp::FlashEraseSector(n))[1].command.len() == 5,
        plan(HkOp::FlashEraseSector(n))[1].command[0] == 0xC4,
        plan(HkOp::FlashEraseSector(n))[1].command[1] == 0xD8,
        plan(HkOp::FlashEraseSector(n))[1].payload.len() == 0,
        plan(HkOp::FlashEraseSector(n))[1].read_len == 0,
{
    law_command_bytes();
    law_sector_erase_address(n);
}

/// The DCO trim transfer writes, from register 0x0D on (command 0x80), the
/// four bytes of `2^v - 1` in little-endian order: the trim register holds a
/// run of `v` ones in its low bits.
pub proof fn law_dco_trim_value(v: u32)
    requires
        v <= 26,
    ensures
        plan(HkOp::DcoTrim(v)).len() == 1,
        plan(HkOp::DcoTrim(v))[0].command.len() == 6,
        plan(HkOp::DcoTrim(v))[0].command[0] == 0x80,
        plan(HkOp::DcoTrim(v))[0].command[1] == 0x0D,
        plan(HkOp::DcoTrim(v))[0].command[2] + 256 * plan(HkOp::DcoTrim(v))[0].command[3] + 65536
            * plan(HkOp::DcoTrim(v))[0].command[4] + 16777216 * plan(HkOp::DcoTrim(v))[0].command[5]
            == vstd::arithmetic::power2::pow2(v as nat) - 1,
        plan(HkOp::DcoTrim(v))[0].payload.len() == 0,
        plan(HkOp::DcoTrim(v))[0].read_len == 0,
        precheck(HkOp::DcoTrim(v)) is None,
{
    crate::bits::law_thermometer_counts(v as nat);
    crate::bits::lemma_low_ones_is_pow2_minus_one(v as nat);
    let x = low_ones(v as nat) as u32;
    crate::bits::law_le_bytes_roundtrip(x);
}

/// DCO trim values above 26 are refused before any transfer.
pub proof fn law_dco_trim_range(v: u32)
    ensures
        (precheck(HkOp::DcoTrim(v)) is None) == (v <= 26),
        v > 26 ==> precheck(HkOp::DcoTrim(v)) == Some(HkError::InvalidTrim(v)),
{
}

/// What the reads answer, for replies of the requested lengths: a register
/// read and status register 2 give the byte read; the status read gives
/// status register 1; the busy check gives its write-in-progress bit (bit 0),
/// the same bit that the status read's `wip` shows; the JEDEC read gives the
/// three bytes; the DLL trim is the number of ones of the little-endian word
/// read.
pub proof fn law_read_answers(reg: u8, r: Seq<u8>)
    requires
        r.len() >= 4,
    ensures
        outcome(HkOp::ReadReg(reg), seq![r]) == HkOutput::Byte(r[0]),
        outcome(HkOp::FlashStatus2, seq![r]) == HkOutput::Byte(r[0]),
        outcome(HkOp::FlashStatus, seq![r]) == HkOutput::Status(r[0]),
        outcome(HkOp::FlashBusy, seq![r]) == HkOutput::Flag(r[0] % 2 == 1),
        outcome(HkOp::FlashBusy, seq![r]) == HkOutput::Flag(byte_bit(r[0], 0)),
        outcome(HkOp::FlashReadJedec, seq![r]) == HkOutput::Bytes(r),
        outcome(HkOp::ReadDllTrim, seq![r]) == HkOutput::Byte(
            ones((r[0] + 256 * r[1] + 65536 * r[2] + 16777216 * r[3]) as nat) as u8,
        ),
{
    let b = r[0];
    assert(((b >> 0u8) & 1 == 1) == (b % 2 == 1)) by (bit_vector);
}

/// The operations that only write answer nothing.
pub proof fn law_write_answers(op: HkOp, rs: Seq<Seq<u8>>)
    requires
        op is CheckIds || op is WriteReg || op is CpuResetHold || op is CpuResetRelease
            || op is CpuResetToggle || op is FlashReset || op is FlashIdentify
            || op is FlashWriteEnable || op is FlashWriteDisable || op is FlashErase
            || op is FlashEraseSector || op is FlashProgramPage || op is EngageDll
            || op is DisengageDll || op is DcoMode || op is DcoTrim,
    ensures
        outcome(op, rs) == HkOutput::Unit,
{
}

/// The ID check accepts exactly the manufacturer ID 0x0456 (sent most
/// significant byte first) and then the product ID 0x11; the flash
/// identification accepts exactly a first JEDEC byte of 0xef (Winbond).  No
/// other reply is checked.
pub proof fn law_reply_checks(op: HkOp, i: int, r: Seq<u8>)
    requires
        r.len() >= 2,
    ensures
        (verdict(HkOp::CheckIds, 0, r) is None) == (r[0] == 0x04 && r[1] == 0x56),
        verdict(HkOp::CheckIds, 0, r) is Some ==> verdict(HkOp::CheckIds, 0, r) == Some(
            HkError::WrongManufacturer((r[0] * 256 + r[1]) as u16),
        ),
        (verdict(HkOp::CheckIds, 1, r) is None) == (r[0] == 0x11),
        verdict(HkOp::CheckIds, 1, r) is Some ==> verdict(HkOp::CheckIds, 1, r) == Some(
            HkError::WrongProduct(r[0]),
        ),
        (verdict(HkOp::FlashIdentify, 0, r) is None) == (r[0] == 0xef),
        verdict(HkOp::FlashIdentify, 0, r) is Some ==> verdict(HkOp::FlashIdentify, 0, r) == Some(
            HkError::FlashNotFound,
        ),
        !(op is CheckIds) && !(op is FlashIdentify) ==> verdict(op, i, r) is None,
{
}

/// Bit `8 * j + i` of the project ID read from `r`.
pub open spec fn project_id_bit(r: Seq<u8>, j: int, i: int) -> bool {
    (project_id(r) >> ((8 * j + i) as u32)) & 1 == 1
}

/// The bits of byte `j` of a word, as bits of that byte.
proof fn lemma_word_byte_bits(w: u32, b0: u8, b1: u8, b2: u8, b3: u8)
    requires
        w == b0 + 256 * b1 + 65536 * b2 + 16777216 * b3,
    ensures
        forall|i: u32| i < 8 ==> (#[trigger] (w >> i) & 1 == 1) == ((b0 >> (i as u8)) & 1 == 1),
        forall|i: u32| i < 8 ==> (#[trigger] (w >> (8 + i)) & 1 == 1) == ((b1 >> (i as u8)) & 1 == 1),
        forall|i: u32| i < 8 ==> (#[trigger] (w >> (16 + i)) & 1 == 1) == ((b2 >> (i as u8)) & 1 == 1),
        forall|i: u32| i < 8 ==> (#[trigger] (w >> (24 + i)) & 1 == 1) == ((b3 >> (i as u8)) & 1 == 1),
{
    assert(forall|i: u32| i < 8 ==> (#[trigger] (w >> i) & 1 == 1) == ((b0 >> (i as u8)) & 1 == 1)) by (bit_vector)
        requires
            w == b0 as u32 + 256 * (b1 as u32) + 65536 * (b2 as u32) + 16777216 * (b3 as u32),
    ;
    assert(forall|i: u32| i < 8 ==> (#[trigger] (w >> (8 + i)) & 1 == 1) == ((b1 >> (i as u8)) & 1 == 1)) by (bit_vector)
        requires
            w == b0 as u32 + 256 * (b1 as u32) + 65536 * (b2 as u32) + 16777216 * (b3 as u32),
    ;
    assert(forall|i: u32| i < 8 ==> (#[trigger] (w >> (16 + i)) & 1 == 1) == ((b2 >> (i as u8)) & 1 == 1)) by (bit_vector)
        requires
            w == b0 as u32 + 256 * (b1 as u32) + 65536 * (b2 as u32) + 16777216 * (b3 as u32),
    ;
    assert(forall|i: u32| i < 8 ==> (#[trigger] (w >> (24 + i)) & 1 == 1) == ((b3 >> (i as u8)) & 1 == 1)) by (bit_vector)
        requires
            w == b0 as u32 + 256 * (b1 as u32) + 65536 * (b2 as u32) + 16777216 * (b3 as u32),
    ;
}

/// The project ID has each of the four bytes read bit-reversed, the first
/// byte in the least significant place: bit `8 * j + i` of the ID is bit
/// `7 - i` of byte `j`.
pub proof fn law_project_id_bits(r: Seq<u8>)
    requires
        r.len() >= 4,
    ensures
        outcome(HkOp::ReadProjectId, seq![r]) == HkOutput::Word(project_id(r)),
        forall|j: int, i: int|
            0 <= j < 4 && 0 <= i < 8 ==> #[trigger] project_id_bit(r, j, i) == byte_bit(
                r[j],
                (7 - i) as u8,
            ),
{
    let r0 = reversed(r[0]);
    let r1 = reversed(r[1]);
    let r2 = reversed(r[2]);
    let r3 = reversed(r[3]);
    crate::bits::lemma_reversed(r[0], r[0]);
    crate::bits::lemma_reversed(r[1], r[1]);
    crate::bits::lemma_reversed(r[2], r[2]);
    crate::bits::lemma_reversed(r[3], r[3]);
    let w = project_id(r);
    assert(w == r0 + 256 * r1 + 65536 * r2 + 16777216 * r3);
    lemma_word_byte_bits(w, r0, r1, r2, r3);
    assert forall|j: int, i: int| 0 <= j < 4 && 0 <= i < 8 implies #[trigger] project_id_bit(r, j, i)
        == byte_bit(r[j], (7 - i) as u8) by {
        let iu = i as u32;
        let ib = i as u8;
        if j == 0 {
            assert(((w >> iu) & 1 == 1) == ((r0 >> ib) & 1 == 1));
            assert(byte_bit(r0, ib) == byte_bit(r[0], (7 - ib) as u8));
        } else if j == 1 {
            assert(((w >> (8 + iu)) & 1 == 1) == ((r1 >> ib) & 1 == 1));
            assert(byte_bit(r1, ib) == byte_bit(r[1], (7 - ib) as u8));
        } else if j == 2 {
            assert(((w >> (16 + iu)) & 1 == 1) == ((r2 >> ib) & 1 == 1));
            assert(byte_bit(r2, ib) == byte_bit(r[2], (7 - ib) as u8));
        } else {
            assert(((w >> (24 + iu)) & 1 == 1) == ((r3 >> ib) & 1 == 1));
            assert(byte_bit(r3, ib) == byte_bit(r[3], (7 - ib) as u8));
        }
    }
}

/// Byte `idx` of the replies to the first `k` transfers of a read of `len`
/// bytes is byte `idx % 2044` of reply `idx / 2044`.
proof fn lemma_flash_read_bytes(addr: u32, len: usize, rs: Seq<Seq<u8>>, k: int)
    requires
        0 <= k <= rs.len(),
        rs.len() <= chunk_count(len as nat),
        forall|j: int| 0 <= j < rs.len() ==> #[trigger] rs[j].len() == read_chunk_frame(addr, len as nat, j).read_len,
    ensures
        forall|idx: int|
            0 <= idx < joined(rs.subrange(0, k)).len() ==> #[trigger] joined(rs.subrange(0, k))[idx]
                == rs[idx / 2044][idx % 2044],
    decreases k,
{
    if k > 0 {
        lemma_flash_read_bytes(addr, len, rs, k - 1);
        lemma_flash_read_prefix(addr, len, rs, k - 1);
        let a = rs.subrange(0, k - 1);
        assert(rs.subrange(0, k).drop_last() =~= a);
        assert((k - 1) * 2044 < len) by (nonlinear_arith)
            requires
                k - 1 < (len + 2043) / 2044,
        ;
        assert(joined(a).len() == (k - 1) * 2044);
        let whole = joined(rs.subrange(0, k));
        assert(whole == joined(a) + rs[k - 1]);
        assert forall|idx: int| 0 <= idx < whole.len() implies #[trigger] whole[idx] == rs[idx / 2044][idx
            % 2044] by {
            if idx < (k - 1) * 2044 {
                assert(whole[idx] == joined(a)[idx]);
            } else {
                let t = idx - (k - 1) * 2044;
                assert(rs[k - 1].len() <= 2044);
                vstd::arithmetic::div_mod::lemma_fundamental_div_mod_converse(idx, 2044, k - 1, t);
                assert(whole[idx] == rs[k - 1][t]);
            }
        }
    } else {
        assert(rs.subrange(0, k) =~= seq![]);
    }
}

/// A flash read of `len` bytes from `addr` reads in chunks of 2044 bytes, all
/// full but the last, each with the low-speed read command; when every
/// transfer got its reply, byte `idx` of the answer is byte `idx % 2044` of the
/// reply to transfer `idx / 2044`.
pub proof fn law_flash_read_chunks(addr: u32, len: usize, rs: Seq<Seq<u8>>)
    requires
        admissible(HkOp::FlashRead(addr, len)),
        rs.len() == plan(HkOp::FlashRead(addr, len)).len(),
        forall|j: int|
            0 <= j < rs.len() ==> #[trigger] rs[j].len() == plan(HkOp::FlashRead(addr, len))[j].read_len,
    ensures
        plan(HkOp::FlashRead(addr, len)).len() * 2044 >= len,
        plan(HkOp::FlashRead(addr, len)).len() * 2044 < len + 2044,
        forall|i: int|
            0 <= i < plan(HkOp::FlashRead(addr, len)).len() ==> {
                let f = #[trigger] plan(HkOp::FlashRead(addr, len))[i];
                &&& f.command.len() == 5
                &&& f.command[0] == 0xC4
                &&& f.command[1] == 0x03
                &&& f.payload.len() == 0
                &&& 0 < f.read_len <= 2044
                &&& (i + 1 < plan(HkOp::FlashRead(addr, len)).len() ==> f.read_len == 2044)
            },
        outcome(HkOp::FlashRead(addr, len), rs) matches HkOutput::Bytes(b) && b.len() == len && forall|
            idx: int,
        | 0 <= idx < len ==> #[trigger] b[idx] == rs[idx / 2044][idx % 2044],
{
    let n = chunk_count(len as nat) as int;
    assert(n * 2044 >= len && n * 2044 < len + 2044) by (nonlinear_arith)
        requires
            n == (len + 2043) / 2044,
    ;
    assert forall|i: int| 0 <= i < n implies {
        let f = #[trigger] plan(HkOp::FlashRead(addr, len))[i];
        &&& f.command.len() == 5
        &&& f.command[0] == 0xC4
        &&& f.command[1] == 0x03
        &&& f.payload.len() == 0
        &&& 0 < f.read_len <= 2044
        &&& (i + 1 < n ==> f.read_len == 2044)
    } by {
        assert(plan(HkOp::FlashRead(addr, len))[i] == read_chunk_frame(addr, len as nat, i));
        assert(i * 2044 < len) by (nonlinear_arith)
            requires
                i < (len + 2043) / 2044,
        ;
        if i + 1 < n {
            assert((i + 1) * 2044 < len) by (nonlinear_arith)
                requires
                    i + 1 < (len + 2043) / 2044,
            ;
        }
    }
    law_flash_read_length(addr, len, rs);
    assert forall|j: int| 0 <= j < rs.len() implies #[trigger] rs[j].len() == read_chunk_frame(addr, len as nat, j).read_len by {
        assert(plan(HkOp::FlashRead(addr, len))[j] == read_chunk_frame(addr, len as nat, j));
    }
    lemma_flash_read_bytes(addr, len, rs, rs.len() as int);
    assert(rs.subrange(0, rs.len() as int) =~= rs);
}

/// How an operation proceeds: it refuses its arguments before any transfer
/// only through its argument check; a failed transfer ends it with a bus
/// error; a reply that fails its check ends it with that check's error;
/// otherwise it goes on with the next transfer of its plan, and after the
/// last one it gives the answer for all the replies.
pub proof fn law_protocol(op: HkOp, i: int, earlier: Seq<Seq<u8>>, r: Seq<u8>)
    ensures
        precheck(op) is Some ==> first_step(op) == StepView::Done(Err(precheck(op)->0)),
        precheck(op) is None && plan(op).len() > 0 ==> first_step(op) == StepView::Transfer(plan(op)[0]),
        next_step(op, i, earlier, None) == StepView::Done(Err(HkError::Bus)),
        verdict(op, i, r) is Some ==> next_step(op, i, earlier, Some(r)) == StepView::Done(
            Err(verdict(op, i, r)->0),
        ),
        verdict(op, i, r) is None && i + 1 < plan(op).len() ==> next_step(op, i, earlier, Some(r))
            == StepView::Transfer(plan(op)[i + 1]),
        verdict(op, i, r) is None && i + 1 >= plan(op).len() ==> next_step(op, i, earlier, Some(r))
            == StepView::Done(Ok(outcome(op, earlier.push(r)))),
{
}

} // verus!
