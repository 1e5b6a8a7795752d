//! Logic of the UART driver.
//!
//! Register-level functions say what a status value means and what to write.
//! The blocking `read` and `write` of the driver alternate register accesses
//! and decisions; [`UartRead`] and [`UartWrite`] hold the decisions as state
//! machines: the caller asks for the next action, performs it, and reports
//! what it observed.

use vstd::prelude::*;
use crate::regs::{RegWrite, bit32, single_bit, test_bit, with_bit, with_bit_value, write_of};

verus! {

/// The UART registers that the driver writes.
#[derive(Clone, Copy, Debug, PartialEq, Eq)]
pub enum UartReg {
    /// Transmit data.
    Rxtx,
    /// Event pending flags (tx: bit 0, rx: bit 1).
    EvPending,
    /// Event enable flags (tx: bit 0, rx: bit 1).
    EvEnable,
    /// The `UART_ENABLED_OUT` register.
    Enabled,
}

/// Bit of the tx event in the event registers.
pub const TX_EVENT_BIT: u32 = 0;
/// Bit of the rx event in the event registers.
pub const RX_EVENT_BIT: u32 = 1;

/// Register-level logic of the UART.
pub struct Uart {}

impl Uart {
    /// The UART logic.
    pub fn new() -> (u: Self) {
        Uart {}
    }

    /// The write that enables the UART.
    pub fn enable() -> (w: RegWrite<UartReg>)
        ensures
            w == write_of(UartReg::Enabled, 1),
    {
        RegWrite { reg: UartReg::Enabled, value: 1 }
    }

    /// Data is available to read, given the `rxempty` register.
    pub fn rx_ready(&self, rxempty: u32) -> (r: bool)
        ensures
            r == (rxempty == 0),
    {
        rxempty == 0
    }

    /// There is space to write, given the `txfull` register.
    pub fn tx_ready(&self, txfull: u32) -> (r: bool)
        ensures
            r == (txfull == 0),
    {
        txfull == 0
    }

    /// The write that enables or disables the tx event, given the event-enable value.
    pub fn tx_event_enable(&self, ev_enable: u32, enable: bool) -> (w: RegWrite<UartReg>)
        ensures
            w == write_of(UartReg::EvEnable, with_bit_value(ev_enable, TX_EVENT_BIT, enable)),
    {
        RegWrite { reg: UartReg::EvEnable, value: with_bit(ev_enable, TX_EVENT_BIT, enable) }
    }

    /// The write that enables or disables the rx event, given the event-enable value.
    pub fn rx_event_enable(&self, ev_enable: u32, enable: bool) -> (w: RegWrite<UartReg>)
        ensures
            w == write_of(UartReg::EvEnable, with_bit_value(ev_enable, RX_EVENT_BIT, enable)),
    {
        RegWrite { reg: UartReg::EvEnable, value: with_bit(ev_enable, RX_EVENT_BIT, enable) }
    }

    /// Whether an rx event is pending, given the event-pending value.
    pub fn rx_event_pending(&self, ev_pending: u32) -> (r: bool)
        ensures
            r == bit32(ev_pending, RX_EVENT_BIT),
    {
        test_bit(ev_pending, RX_EVENT_BIT)
    }

    /// The write that clears the rx event.  The event-pending register is
    /// write-1-to-clear, so only the rx bit is written 1: a pending tx event
    /// stays pending.
    pub fn clear_rx_event(&self) -> (w: RegWrite<UartReg>)
        ensures
            w == write_of(UartReg::EvPending, 1u32 << RX_EVENT_BIT),
            bit32(w.value, RX_EVENT_BIT),
            !bit32(w.value, TX_EVENT_BIT),
    {
        RegWrite { reg: UartReg::EvPending, value: single_bit(RX_EVENT_BIT) }
    }

    /// Whether a tx event is pending, given the event-pending value.
    pub fn tx_event_pending(&self, ev_pending: u32) -> (r: bool)
        ensures
            r == bit32(ev_pending, TX_EVENT_BIT),
    {
        test_bit(ev_pending, TX_EVENT_BIT)
    }

    /// The write that clears the tx event.  The event-pending register is
    /// write-1-to-clear, so only the tx bit is written 1: a pending rx event
    /// stays pending.
    pub fn clear_tx_event(&self) -> (w: RegWrite<UartReg>)
        ensures
            w == write_of(UartReg::EvPending, 1u32 << TX_EVENT_BIT),
            bit32(w.value, TX_EVENT_BIT),
            !bit32(w.value, RX_EVENT_BIT),
    {
        RegWrite { reg: UartReg::EvPending, value: single_bit(TX_EVENT_BIT) }
    }

    /// The write that sends one byte.
    pub fn send(&self, byte: u8) -> (w: RegWrite<UartReg>)
        ensures
            w == write_of(UartReg::Rxtx, byte as u32),
    {
        RegWrite { reg: UartReg::Rxtx, value: byte as u32 }
    }
}

/// Where a blocking read or write stands.
#[derive(Clone, Copy, Debug, PartialEq, Eq)]
pub enum Phase {
    /// Waiting for the FIFO to become ready: poll the status.
    Waiting,
    /// Deciding whether to go on: poll the status.
    Checking,
    /// Move one byte.
    Moving,
    /// The call is over.
    Finished,
}

/// What the caller is to do next.
#[derive(Debug, PartialEq, Eq)]
pub enum UartAction {
    /// Read the FIFO status and report whether it is ready.
    Poll,
    /// Take a byte from the data register, then perform this write, which
    /// clears the rx event, and report the byte.
    Receive(RegWrite<UartReg>),
    /// Send this byte, and report it sent.
    Send(u8),
    /// The call is over; this many bytes were moved.
    Done(usize),
}

/// A blocking read into a buffer of `cap` bytes: it waits until data is
/// available, then takes bytes while data is available and the buffer has
/// room, and returns how many it took (at least one, unless `cap` is 0).
pub struct UartRead {
    data: Vec<u8>,
    cap: usize,
    phase: Phase,
}

impl UartRead {
    /// Bytes taken so far.
    pub closed spec fn data(&self) -> Seq<u8> {
        self.data@
    }

    /// Size of the buffer.
    pub closed spec fn cap(&self) -> nat {
        self.cap as nat
    }

    /// Where the read stands.
    pub closed spec fn phase(&self) -> Phase {
        self.phase
    }

    /// The read's invariant: it never takes more than `cap` bytes, it has
    /// room when it takes one, and once it took its first byte (or finished
    /// on a non-empty buffer) it has at least one.
    pub open spec fn wf(&self) -> bool {
        &&& self.data().len() <= self.cap()
        &&& self.phase() is Moving ==> self.data().len() < self.cap()
        &&& self.phase() is Waiting ==> self.data().len() == 0 && self.cap() > 0
        &&& self.phase() is Checking ==> self.data().len() >= 1
        &&& self.phase() is Finished ==> (self.cap() == 0 || self.data().len() >= 1)
    }

    /// A read into a buffer of `cap` bytes; with no room it is over at once.
    pub fn new(cap: usize) -> (r: Self)
        ensures
            r.wf(),
            r.data() == Seq::<u8>::empty(),
            r.cap() == cap,
            r.phase() == (if cap == 0 { Phase::Finished } else { Phase::Waiting }),
    {
        UartRead {
            data: Vec::new(),
            cap,
            phase: if cap == 0 {
                Phase::Finished
            } else {
                Phase::Waiting
            },
        }
    }

    /// What to do next.
    pub fn action(&self) -> (a: UartAction)
        ensures
            (self.phase() is Waiting || self.phase() is Checking) ==> a == UartAction::Poll,
            self.phase() is Moving ==> a == UartAction::Receive(write_of(UartReg::EvPending, 1u32 << RX_EVENT_BIT)),
            self.phase() is Finished ==> a == UartAction::Done(self.data().len() as usize),
    {
        match self.phase {
            Phase::Waiting => UartAction::Poll,
            Phase::Checking => UartAction::Poll,
            Phase::Moving => UartAction::Receive(Uart {}.clear_rx_event()),
            Phase::Finished => UartAction::Done(self.data.len()),
        }
    }

    /// Reports whether data is available.  While waiting, it goes on waiting
    /// until there is; after a byte, it stops when there is none or the
    /// buffer is full.
    pub fn polled(&mut self, ready: bool)
        requires
            old(self).wf(),
            old(self).phase() is Waiting || old(self).phase() is Checking,
        ensures
            final(self).wf(),
            final(self).data() == old(self).data(),
            final(self).cap() == old(self).cap(),
            old(self).phase() is Waiting ==> final(self).phase() == (if ready {
                Phase::Moving
            } else {
                Phase::Waiting
            }),
            old(self).phase() is Checking ==> final(self).phase() == (if !ready || old(self).data().len()
                == old(self).cap() {
                Phase::Finished
            } else {
                Phase::Moving
            }),
    {
        match self.phase {
            Phase::Waiting => {
                if ready {
                    self.phase = Phase::Moving;
                }
            },
            _ => {
                if !ready || self.data.len() == self.cap {
                    self.phase = Phase::Finished;
                } else {
                    self.phase = Phase::Moving;
                }
            },
        }
    }

    /// Reports the value read from the data register; its low byte is taken.
    pub fn received(&mut self, value: u32)
        requires
            old(self).wf(),
            old(self).phase() is Moving,
        ensures
            final(self).wf(),
            final(self).data() == old(self).data().push(value as u8),
            final(self).cap() == old(self).cap(),
            final(self).phase() == Phase::Checking,
    {
        self.data.push(value as u8);
        self.phase = Phase::Checking;
    }

    /// The bytes taken.
    pub fn into_data(self) -> (d: Vec<u8>)
        ensures
            d@ == self.data(),
    {
        self.data
    }
}

/// A blocking write of `data`: it waits until there is space, then sends
/// bytes in order while there is space, and returns how many it sent.
pub struct UartWrite {
    data: Vec<u8>,
    sent: usize,
    phase: Phase,
}

impl UartWrite {
    /// The bytes to write.
    pub closed spec fn data(&self) -> Seq<u8> {
        self.data@
    }

    /// How many of them were sent.
    pub closed spec fn sent(&self) -> nat {
        self.sent as nat
    }

    /// Where the write stands.
    pub closed spec fn phase(&self) -> Phase {
        self.phase
    }

    /// The write's invariant: it never sends more than it has, and it has a
    /// byte to send when it sends one.
    pub open spec fn wf(&self) -> bool {
        &&& self.sent() <= self.data().len()
        &&& self.phase() is Moving ==> self.sent() < self.data().len()
        &&& self.phase() is Waiting ==> self.sent() == 0 && self.data().len() > 0
        &&& self.phase() is Checking ==> self.sent() < self.data().len()
    }

    /// A write of `data`; with nothing to write it is over at once.
    pub fn new(data: Vec<u8>) -> (w: Self)
        ensures
            w.wf(),
            w.data() == data@,
            w.sent() == 0,
            w.phase() == (if data@.len() == 0 { Phase::Finished } else { Phase::Waiting }),
    {
        let phase = if data.len() == 0 {
            Phase::Finished
        } else {
            Phase::Waiting
        };
        UartWrite { data, sent: 0, phase }
    }

    /// What to do next.
    pub fn action(&self) -> (a: UartAction)
        requires
            self.wf(),
        ensures
            (self.phase() is Waiting || self.phase() is Checking) ==> a == UartAction::Poll,
            self.phase() is Moving ==> a == UartAction::Send(self.data()[self.sent() as int]),
            self.phase() is Finished ==> a == UartAction::Done(self.sent() as usize),
    {
        match self.phase {
            Phase::Waiting => UartAction::Poll,
            Phase::Checking => UartAction::Poll,
            Phase::Moving => UartAction::Send(self.data[self.sent]),
            Phase::Finished => UartAction::Done(self.sent),
        }
    }

    /// Reports whether there is space.  While waiting, it goes on waiting
    /// until there is; then, before each byte, it stops when there is none.
    pub fn polled(&mut self, ready: bool)
        requires
            old(self).wf(),
            old(self).phase() is Waiting || old(self).phase() is Checking,
        ensures
            final(self).wf(),
            final(self).data() == old(self).data(),
            final(self).sent() == old(self).sent(),
            old(self).phase() is Waiting ==> final(self).phase() == (if ready {
                Phase::Checking
            } else {
                Phase::Waiting
            }),
            old(self).phase() is Checking ==> final(self).phase() == (if ready {
                Phase::Moving
            } else {
                Phase::Finished
            }),
    {
        match self.phase {
            Phase::Waiting => {
                if ready {
                    self.phase = Phase::Checking;
                }
            },
            _ => {
                if ready {
                    self.phase = Phase::Moving;
                } else {
                    self.phase = Phase::Finished;
                }
            },
        }
    }

    /// Reports the byte sent; the write is over when all are.
    pub fn sent_one(&mut self)
        requires
            old(self).wf(),
            old(self).phase() is Moving,
        ensures
            final(self).wf(),
            final(self).data() == old(self).data(),
            final(self).sent() == old(self).sent() + 1,
            final(self).phase() == (if final(self).sent() == final(self).data().len() {
                Phase::Finished
            } else {
                Phase::Checking
            }),
    {
        let n = self.data.len();
        self.sent = self.sent + 1;
        if self.sent == n {
            self.phase = Phase::Finished;
        } else {
            self.phase = Phase::Checking;
        }
    }
}

/// A finished read returns at least one byte and at most the buffer's size,
/// or nothing for an empty buffer.
pub proof fn law_read_returns_at_least_one(r: UartRead)
    requires
        r.wf(),
        r.phase() is Finished,
    ensures
        r.cap() > 0 ==> 1 <= r.data().len() <= r.cap(),
        r.cap() == 0 ==> r.data().len() == 0,
{
}

} // verus!
