//! Logic of the driver for Timer0.
//!
//! Delays and periods are given in nanoseconds and converted to clock ticks
//! with a fixed-point factor, `ticks_per_s * 2^32 / 10^9`, computed once: the
//! tick count for `ns` nanoseconds is `(ns * factor) >> 32`.

use vstd::prelude::*;
use crate::regs::{RegWrite, bit32, test_bit, with_bit, with_bit_value, write_of};

verus! {

/// `2^32`, the scale of the fixed-point factor.
pub const FIXED_ONE: u64 = 0x1_0000_0000;

/// Nanoseconds per second.
pub const NS_PER_S: u64 = 1_000_000_000;

/// The Timer0 registers that the driver writes.
#[derive(Clone, Copy, Debug, PartialEq, Eq)]
pub enum TimerReg {
    Load,
    Reload,
    En,
    UpdateValue,
    EvPending,
    EvEnable,
}

/// The tick conversion of Timer0.
#[derive(Clone, Copy, Debug)]
pub struct Timer0 {
    /// Ticks per nanosecond, times `2^32`.
    ns_to_ticks_factor: u64,
}

/// The factor for a clock of `ticks_per_s` Hertz: `ticks_per_s * 2^32 / 10^9`,
/// rounded down.
pub open spec fn factor_for(ticks_per_s: u32) -> nat {
    (ticks_per_s as nat * FIXED_ONE as nat) / (NS_PER_S as nat)
}

impl Timer0 {
    /// The fixed-point factor.
    pub closed spec fn factor(&self) -> nat {
        self.ns_to_ticks_factor as nat
    }

    /// The tick count for `ns` nanoseconds: `(ns * factor) >> 32`.
    pub open spec fn ticks_spec(&self, ns: u32) -> nat {
        (ns as nat * self.factor()) / (FIXED_ONE as nat)
    }

    /// `ns * factor` fits in 64 bits, so that the conversion does not overflow.
    pub open spec fn fits(&self, ns: u32) -> bool {
        ns * self.factor() <= u64::MAX
    }

    /// The conversion for a core clock of `ticks_per_s` Hertz.
    pub fn new(ticks_per_s: u32) -> (t: Self)
        ensures
            t.factor() == factor_for(ticks_per_s),
    {
        Timer0 { ns_to_ticks_factor: (ticks_per_s as u64) * FIXED_ONE / NS_PER_S }
    }

    /// Whether `ns` nanoseconds can be converted without overflow.
    pub fn ticks_fit(&self, ns: u32) -> (r: bool)
        ensures
            r == self.fits(ns),
    {
        (ns as u64).checked_mul(self.ns_to_ticks_factor).is_some()
    }

    /// The tick count for `ns` nanoseconds.
    pub fn ticks(&self, ns: u32) -> (r: u32)
        requires
            self.fits(ns),
        ensures
            r == self.ticks_spec(ns),
    {
        let product: u64 = (ns as u64) * self.ns_to_ticks_factor;
        (product / FIXED_ONE) as u32
    }

    /// The writes that make the timer fire every `period_ns` nanoseconds.
    pub fn set_periodic(&self, period_ns: u32) -> (w: Vec<RegWrite<TimerReg>>)
        requires
            self.fits(period_ns),
        ensures
            w@ == seq![
                write_of(TimerReg::En, 0),
                write_of(TimerReg::Load, self.ticks_spec(period_ns) as u32),
                write_of(TimerReg::Reload, self.ticks_spec(period_ns) as u32),
                write_of(TimerReg::En, 1),
            ],
    {
        let ticks = self.ticks(period_ns);
        let w = vec![
            RegWrite { reg: TimerReg::En, value: 0 },
            RegWrite { reg: TimerReg::Load, value: ticks },
            RegWrite { reg: TimerReg::Reload, value: ticks },
            RegWrite { reg: TimerReg::En, value: 1 },
        ];
        assert(w@ =~= seq![
            write_of(TimerReg::En, 0),
            write_of(TimerReg::Load, self.ticks_spec(period_ns) as u32),
            write_of(TimerReg::Reload, self.ticks_spec(period_ns) as u32),
            write_of(TimerReg::En, 1),
        ]);
        w
    }

    /// The write that stops the timer.
    pub fn disable(&self) -> (w: RegWrite<TimerReg>)
        ensures
            w == write_of(TimerReg::En, 0),
    {
        RegWrite { reg: TimerReg::En, value: 0 }
    }

    /// The writes that start a single-shot countdown of `ns` nanoseconds and
    /// latch the current count.
    pub fn delay_start(&self, ns: u32) -> (w: Vec<RegWrite<TimerReg>>)
        requires
            self.fits(ns),
        ensures
            w@ == seq![
                write_of(TimerReg::En, 0),
                write_of(TimerReg::Load, self.ticks_spec(ns) as u32),
                write_of(TimerReg::En, 1),
                write_of(TimerReg::UpdateValue, 1),
            ],
    {
        let ticks = self.ticks(ns);
        let w = vec![
            RegWrite { reg: TimerReg::En, value: 0 },
            RegWrite { reg: TimerReg::Load, value: ticks },
            RegWrite { reg: TimerReg::En, value: 1 },
            RegWrite { reg: TimerReg::UpdateValue, value: 1 },
        ];
        assert(w@ =~= seq![
            write_of(TimerReg::En, 0),
            write_of(TimerReg::Load, self.ticks_spec(ns) as u32),
            write_of(TimerReg::En, 1),
            write_of(TimerReg::UpdateValue, 1),
        ]);
        w
    }

    /// One round of the countdown wait, given the latched count: while it is
    /// not zero, latch the count again; at zero the delay is over.
    pub fn delay_poll(&self, value: u32) -> (w: Option<RegWrite<TimerReg>>)
        ensures
            value > 0 ==> w == Some(write_of(TimerReg::UpdateValue, 1)),
            value == 0 ==> w is None,
    {
        if value > 0 {
            Some(RegWrite { reg: TimerReg::UpdateValue, value: 1 })
        } else {
            None
        }
    }

    /// Whether the event-pending register value shows the zero event.
    pub fn event_pending(&self, ev_pending: u32) -> (r: bool)
        ensures
            r == bit32(ev_pending, 0),
    {
        test_bit(ev_pending, 0)
    }

    /// The write that clears the zero event, given the event-pending value.
    pub fn clear_event(&self, ev_pending: u32) -> (w: RegWrite<TimerReg>)
        ensures
            w == write_of(TimerReg::EvPending, with_bit_value(ev_pending, 0, true)),
    {
        RegWrite { reg: TimerReg::EvPending, value: with_bit(ev_pending, 0, true) }
    }

    /// The write that enables the zero event as an interrupt source, given the
    /// event-enable value.
    pub fn enable_interrupt(&self, ev_enable: u32) -> (w: RegWrite<TimerReg>)
        ensures
            w == write_of(TimerReg::EvEnable, with_bit_value(ev_enable, 0, true)),
    {
        RegWrite { reg: TimerReg::EvEnable, value: with_bit(ev_enable, 0, true) }
    }

    /// The write that disables the zero event as an interrupt source, given the
    /// event-enable value.
    pub fn disable_interrupt(&self, ev_enable: u32) -> (w: RegWrite<TimerReg>)
        ensures
            w == write_of(TimerReg::EvEnable, with_bit_value(ev_enable, 0, false)),
    {
        RegWrite { reg: TimerReg::EvEnable, value: with_bit(ev_enable, 0, false) }
    }
}

/// The tick count of a delay never stands for more time than was asked for,
/// and falls short of the exact count `ns * ticks_per_s / 10^9` by less than
/// two ticks.
pub proof fn law_ticks_bounds(t: Timer0, ticks_per_s: u32, ns: u32)
    requires
        t.factor() == factor_for(ticks_per_s),
    ensures
        t.ticks_spec(ns) * NS_PER_S <= ns * ticks_per_s,
        (t.ticks_spec(ns) + 2) * NS_PER_S > ns * ticks_per_s,
{
    let f: int = t.factor() as int;
    let k: int = t.ticks_spec(ns) as int;
    let fone: int = FIXED_ONE as int;
    let d: int = NS_PER_S as int;
    let tps: int = ticks_per_s as int;
    let n: int = ns as int;
    vstd::arithmetic::div_mod::lemma_fundamental_div_mod(tps * fone, d);
    vstd::arithmetic::div_mod::lemma_mod_bound(tps * fone, d);
    vstd::arithmetic::div_mod::lemma_fundamental_div_mod(n * f, fone);
    vstd::arithmetic::div_mod::lemma_mod_bound(n * f, fone);
    assert(f * d <= tps * fone < f * d + d);
    assert(k * fone <= n * f < k * fone + fone);
    assert(k * d <= n * tps) by (nonlinear_arith)
        requires
            f * d <= tps * fone,
            k * fone <= n * f,
            fone > 0,
            d > 0,
            n >= 0,
            k >= 0,
    ;
    assert((k + 2) * d > n * tps) by (nonlinear_arith)
        requires
            tps * fone < f * d + d,
            n * f < k * fone + fone,
            0 <= n < fone,
            fone > 0,
            d > 0,
            f >= 0,
            k >= 0,
    ;
}

/// A longer delay never gets fewer ticks.
pub proof fn law_ticks_monotonic(t: Timer0, ns1: u32, ns2: u32)
    requires
        ns1 <= ns2,
    ensures
        t.ticks_spec(ns1) <= t.ticks_spec(ns2),
{
    assert(ns1 as nat * t.factor() <= ns2 as nat * t.factor()) by (nonlinear_arith)
        requires
            ns1 <= ns2,
    ;
    vstd::arithmetic::div_mod::lemma_div_is_ordered(
        (ns1 as nat * t.factor()) as int,
        (ns2 as nat * t.factor()) as int,
        FIXED_ONE as int,
    );
}

} // verus!
