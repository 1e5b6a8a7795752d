//! Logic of the driver for the management GPIO pin.
//!
//! The pad has a drive-mode field split over two registers: `mode1` (DM[2:1])
//! and `mode0` (DM[0]).  `mode0` must be 1 for the input to work while the
//! output driver is disabled, so both enabling functions keep `mode0` equal to
//! "input enabled and output disabled".

use vstd::prelude::*;
use crate::regs::{RegWrite, flag, flag_value, write_of};

verus! {

/// The GPIO registers that the driver writes.
#[derive(Clone, Copy, Debug, PartialEq, Eq)]
pub enum GpioReg {
    Mode1,
    Mode0,
    Ien,
    Oe,
    Output,
}

/// The writable GPIO registers, in the model.
pub struct GpioState {
    pub mode1: u32,
    pub mode0: u32,
    pub ien: u32,
    pub oe: u32,
    pub output: u32,
}

/// The registers after one write.
pub open spec fn apply(s: GpioState, w: RegWrite<GpioReg>) -> GpioState {
    match w.reg {
        GpioReg::Mode1 => GpioState { mode1: w.value, ..s },
        GpioReg::Mode0 => GpioState { mode0: w.value, ..s },
        GpioReg::Ien => GpioState { ien: w.value, ..s },
        GpioReg::Oe => GpioState { oe: w.value, ..s },
        GpioReg::Output => GpioState { output: w.value, ..s },
    }
}

/// The registers after a sequence of writes, first to last.
pub open spec fn apply_all(s: GpioState, ws: Seq<RegWrite<GpioReg>>) -> GpioState
    decreases ws.len(),
{
    if ws.len() == 0 {
        s
    } else {
        apply(apply_all(s, ws.drop_last()), ws.last())
    }
}

/// `mode0` is set exactly when the input is enabled and the output is not.
pub open spec fn drive_mode_consistent(s: GpioState) -> bool {
    (s.mode0 != 0) == (s.ien != 0 && s.oe == 0)
}

/// The writes that enable (or disable) the output driver, given the value
/// read from the input-enable register.
pub open spec fn output_enable_plan(enable: bool, ien: u32) -> Seq<RegWrite<GpioReg>> {
    seq![
        write_of(GpioReg::Mode1, flag_value(enable)),
        write_of(GpioReg::Mode0, flag_value(!enable && ien != 0)),
        write_of(GpioReg::Oe, flag_value(enable)),
    ]
}

/// The writes that enable (or disable) the input buffer, given the value read
/// from the output-enable register.
pub open spec fn input_enable_plan(enable: bool, oe: u32) -> Seq<RegWrite<GpioReg>> {
    seq![
        write_of(GpioReg::Mode0, flag_value(enable && oe == 0)),
        write_of(GpioReg::Ien, flag_value(enable)),
    ]
}

/// Enables or disables the output driver; `ien` is the value of the
/// input-enable register.
pub fn set_output_enable(enable: bool, ien: u32) -> (w: Vec<RegWrite<GpioReg>>)
    ensures
        w@ == output_enable_plan(enable, ien),
{
    let input_enabled = ien != 0;
    let w = vec![
        RegWrite { reg: GpioReg::Mode1, value: flag(enable) },
        RegWrite { reg: GpioReg::Mode0, value: flag(!enable && input_enabled) },
        RegWrite { reg: GpioReg::Oe, value: flag(enable) },
    ];
    assert(w@ =~= output_enable_plan(enable, ien));
    w
}

/// Enables or disables the input buffer; `oe` is the value of the
/// output-enable register.
pub fn set_input_enable(enable: bool, oe: u32) -> (w: Vec<RegWrite<GpioReg>>)
    ensures
        w@ == input_enable_plan(enable, oe),
{
    let output_enabled = oe != 0;
    let w = vec![
        RegWrite { reg: GpioReg::Mode0, value: flag(enable && !output_enabled) },
        RegWrite { reg: GpioReg::Ien, value: flag(enable) },
    ];
    assert(w@ =~= input_enable_plan(enable, oe));
    w
}

/// Drives the output high or low.
pub fn set_output(high: bool) -> (w: RegWrite<GpioReg>)
    ensures
        w == write_of(GpioReg::Output, flag_value(high)),
{
    RegWrite { reg: GpioReg::Output, value: flag(high) }
}

/// The level that an output or input register value stands for.
pub fn is_high(v: u32) -> (r: bool)
    ensures
        r == (v != 0),
{
    v != 0
}

/// Enabling or disabling the output driver leaves the drive mode consistent,
/// `mode1` equal to the output enable, and the input enable as it was.
pub proof fn law_output_enable_keeps_drive_mode(s: GpioState, enable: bool)
    ensures
        drive_mode_consistent(apply_all(s, output_enable_plan(enable, s.ien))),
        apply_all(s, output_enable_plan(enable, s.ien)).mode1 == flag_value(enable),
        apply_all(s, output_enable_plan(enable, s.ien)).oe == flag_value(enable),
        apply_all(s, output_enable_plan(enable, s.ien)).ien == s.ien,
        apply_all(s, output_enable_plan(enable, s.ien)).output == s.output,
{
    let p = output_enable_plan(enable, s.ien);
    let q = p.drop_last().drop_last();
    assert(q.drop_last() =~= seq![]);
    assert(apply_all(s, q.drop_last()) == s);
    assert(apply_all(s, q) == apply(s, p[0]));
    assert(apply_all(s, p.drop_last()) == apply(apply(s, p[0]), p[1]));
    assert(apply_all(s, p) == apply(apply(apply(s, p[0]), p[1]), p[2]));
}

/// Enabling or disabling the input buffer leaves the drive mode consistent,
/// and the output enable and `mode1` as they were.
pub proof fn law_input_enable_keeps_drive_mode(s: GpioState, enable: bool)
    ensures
        drive_mode_consistent(apply_all(s, input_enable_plan(enable, s.oe))),
        apply_all(s, input_enable_plan(enable, s.oe)).ien == flag_value(enable),
        apply_all(s, input_enable_plan(enable, s.oe)).oe == s.oe,
        apply_all(s, input_enable_plan(enable, s.oe)).mode1 == s.mode1,
        apply_all(s, input_enable_plan(enable, s.oe)).output == s.output,
{
    let p = input_enable_plan(enable, s.oe);
    let q = p.drop_last();
    assert(q.drop_last() =~= seq![]);
    assert(apply_all(s, q.drop_last()) == s);
    assert(apply_all(s, q) == apply(s, p[0]));
    assert(apply_all(s, p) == apply(apply(s, p[0]), p[1]));
}

/// The output level that was set reads back as set.
pub proof fn law_output_reads_back(s: GpioState, high: bool)
    ensures
        (apply(s, write_of(GpioReg::Output, flag_value(high))).output != 0) == high,
{
}

/// Enabling the output writes `mode1`, then `mode0`, then the output enable;
/// `mode1` and the output enable get 1 exactly when enabling, and `mode0` gets
/// 1 exactly when disabling the output of an enabled input.  Enabling the
/// input writes `mode0` (1 exactly when enabling with the output disabled),
/// then the input enable.
pub proof fn law_enable_write_order(enable: bool, ien: u32, oe: u32)
    ensures
        output_enable_plan(enable, ien).len() == 3,
        output_enable_plan(enable, ien)[0].reg == GpioReg::Mode1,
        output_enable_plan(enable, ien)[1].reg == GpioReg::Mode0,
        output_enable_plan(enable, ien)[2].reg == GpioReg::Oe,
        output_enable_plan(enable, ien)[0].value == (if enable { 1u32 } else { 0u32 }),
        output_enable_plan(enable, ien)[1].value == (if !enable && ien != 0 { 1u32 } else { 0u32 }),
        output_enable_plan(enable, ien)[2].value == (if enable { 1u32 } else { 0u32 }),
        input_enable_plan(enable, oe).len() == 2,
        input_enable_plan(enable, oe)[0].reg == GpioReg::Mode0,
        input_enable_plan(enable, oe)[1].reg == GpioReg::Ien,
        input_enable_plan(enable, oe)[0].value == (if enable && oe == 0 { 1u32 } else { 0u32 }),
        input_enable_plan(enable, oe)[1].value == (if enable { 1u32 } else { 0u32 }),
{
}

} // verus!
