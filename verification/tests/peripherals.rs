use caravel_hal::gpio::{self, GpioReg};
use caravel_hal::interrupts::next_pending_interrupt;
use caravel_hal::regs::RegWrite;
use caravel_hal::timer::{Timer0, TimerReg};
use caravel_hal::uart::{Uart, UartAction, UartRead, UartReg, UartWrite};
use caravel_hal::user_io::{UserIOBits, UserIo, UserIoPin, UserReg, NUM_PINS};
use caravel_hal::wishbone::{Wishbone, WishboneReg};

fn w<R>(reg: R, value: u32) -> RegWrite<R> {
    RegWrite { reg, value }
}

#[test]
fn gpio_output_enable_sets_drive_mode() {
    assert_eq!(
        gpio::set_output_enable(true, 1),
        vec![w(GpioReg::Mode1, 1), w(GpioReg::Mode0, 0), w(GpioReg::Oe, 1)]
    );
    assert_eq!(
        gpio::set_output_enable(false, 1),
        vec![w(GpioReg::Mode1, 0), w(GpioReg::Mode0, 1), w(GpioReg::Oe, 0)]
    );
    assert_eq!(
        gpio::set_output_enable(false, 0),
        vec![w(GpioReg::Mode1, 0), w(GpioReg::Mode0, 0), w(GpioReg::Oe, 0)]
    );
}

#[test]
fn gpio_input_enable_sets_drive_mode() {
    assert_eq!(gpio::set_input_enable(true, 0), vec![w(GpioReg::Mode0, 1), w(GpioReg::Ien, 1)]);
    assert_eq!(gpio::set_input_enable(true, 1), vec![w(GpioReg::Mode0, 0), w(GpioReg::Ien, 1)]);
    assert_eq!(gpio::set_input_enable(false, 0), vec![w(GpioReg::Mode0, 0), w(GpioReg::Ien, 0)]);
}

#[test]
fn gpio_levels() {
    assert_eq!(gpio::set_output(true), w(GpioReg::Output, 1));
    assert_eq!(gpio::set_output(false), w(GpioReg::Output, 0));
    assert!(gpio::is_high(1));
    assert!(gpio::is_high(0x8000_0000));
    assert!(!gpio::is_high(0));
}

#[test]
fn timer_converts_nanoseconds_to_ticks() {
    let t = Timer0::new(10_000_000);
    assert_eq!(t.ticks(1_000_000), 9999);
    assert_eq!(t.ticks(12345), 123);
    let t = Timer0::new(50_000_000);
    assert_eq!(t.ticks(1000), 49);
    assert!(t.ticks_fit(u32::MAX));
    let fast = Timer0::new(4_000_000_000);
    assert!(!fast.ticks_fit(u32::MAX));
}

#[test]
fn timer_register_sequences() {
    let t = Timer0::new(10_000_000);
    assert_eq!(
        t.set_periodic(1_000_000),
        vec![w(TimerReg::En, 0), w(TimerReg::Load, 9999), w(TimerReg::Reload, 9999), w(TimerReg::En, 1)]
    );
    assert_eq!(
        t.delay_start(1_000_000),
        vec![w(TimerReg::En, 0), w(TimerReg::Load, 9999), w(TimerReg::En, 1), w(TimerReg::UpdateValue, 1)]
    );
    assert_eq!(t.delay_poll(5), Some(w(TimerReg::UpdateValue, 1)));
    assert_eq!(t.delay_poll(0), None);
    assert_eq!(t.disable(), w(TimerReg::En, 0));
    assert!(t.event_pending(1));
    assert!(!t.event_pending(2));
    assert_eq!(t.clear_event(0b10), w(TimerReg::EvPending, 0b11));
    assert_eq!(t.enable_interrupt(0), w(TimerReg::EvEnable, 1));
    assert_eq!(t.disable_interrupt(0xFF), w(TimerReg::EvEnable, 0xFE));
}

#[test]
fn uart_register_logic() {
    let u = Uart::new();
    assert_eq!(Uart::enable(), w(UartReg::Enabled, 1));
    assert!(u.rx_ready(0));
    assert!(!u.rx_ready(1));
    assert!(u.tx_ready(0));
    assert!(!u.tx_ready(1));
    assert_eq!(u.tx_event_enable(0b10, true), w(UartReg::EvEnable, 0b11));
    assert_eq!(u.rx_event_enable(0b11, false), w(UartReg::EvEnable, 0b01));
    assert!(u.rx_event_pending(0b10));
    assert!(!u.tx_event_pending(0b10));
    // Write-1-to-clear: only the event's own bit is written.
    assert_eq!(u.clear_rx_event(), w(UartReg::EvPending, 0b10));
    assert_eq!(u.clear_tx_event(), w(UartReg::EvPending, 0b01));
    assert_eq!(u.send(0x41), w(UartReg::Rxtx, 0x41));
}

/// Runs a read against a scripted FIFO: `ready` gives the status polls in
/// order, `fifo` the data register values.
fn run_read(cap: usize, ready: &[bool], fifo: &[u32]) -> (usize, Vec<u8>) {
    let mut r = UartRead::new(cap);
    let (mut pi, mut fi) = (0, 0);
    loop {
        match r.action() {
            UartAction::Poll => {
                r.polled(ready[pi]);
                pi += 1;
            }
            UartAction::Receive(clear) => {
                assert_eq!(clear, w(UartReg::EvPending, 0b10));
                r.received(fifo[fi]);
                fi += 1;
            }
            UartAction::Send(_) => panic!("a read does not send"),
            UartAction::Done(n) => return (n, r.into_data()),
        }
    }
}

#[test]
fn uart_read_waits_then_takes_available_bytes() {
    let (n, data) = run_read(4, &[false, false, true, true, false], &[0x141, 0x42]);
    assert_eq!(n, 2);
    assert_eq!(data, vec![0x41, 0x42]);
}

#[test]
fn uart_read_stops_when_buffer_full() {
    let (n, data) = run_read(2, &[true, true, true], &[1, 2, 3]);
    assert_eq!(n, 2);
    assert_eq!(data, vec![1, 2]);
}

#[test]
fn uart_read_of_empty_buffer_returns_zero() {
    let (n, data) = run_read(0, &[], &[]);
    assert_eq!(n, 0);
    assert!(data.is_empty());
}

fn run_write(data: Vec<u8>, ready: &[bool]) -> (usize, Vec<u8>) {
    let mut wr = UartWrite::new(data);
    let mut sent = Vec::new();
    let mut pi = 0;
    loop {
        match wr.action() {
            UartAction::Poll => {
                wr.polled(ready[pi]);
                pi += 1;
            }
            UartAction::Send(b) => {
                sent.push(b);
                wr.sent_one();
            }
            UartAction::Receive(_) => panic!("a write does not receive"),
            UartAction::Done(n) => return (n, sent),
        }
    }
}

#[test]
fn uart_write_sends_while_there_is_space() {
    let (n, sent) = run_write(vec![1, 2, 3], &[false, true, true, true, false]);
    assert_eq!(n, 2);
    assert_eq!(sent, vec![1, 2]);
    let (n, sent) = run_write(vec![1, 2, 3], &[true, true, true, true]);
    assert_eq!(n, 3);
    assert_eq!(sent, vec![1, 2, 3]);
    let (n, sent) = run_write(vec![], &[]);
    assert_eq!(n, 0);
    assert!(sent.is_empty());
}

#[test]
fn user_io_pin_data_bits() {
    let low = UserIoPin { n: 5 };
    assert_eq!(low.set_high(0), w(UserReg::Datal, 1 << 5));
    assert_eq!(low.set_low(0xFFFF_FFFF), w(UserReg::Datal, !(1 << 5)));
    assert!(low.is_high(1 << 5));
    assert!(low.is_low(0));
    let high = UserIoPin { n: 37 };
    assert_eq!(high.set_high(0), w(UserReg::Datah, 1 << 5));
    assert!(high.is_high(1 << 5));
    assert!(!high.is_high(1 << 4));
    assert_eq!(high.toggle(1 << 5), w(UserReg::Datah, 0));
    assert_eq!(high.toggle(0), w(UserReg::Datah, 1 << 5));
    assert_eq!(low.configure(UserIOBits::from_bits(0x1808)), w(UserReg::Io(5), 0x1808));
}

#[test]
fn user_io_pin_access() {
    let io = UserIo {};
    assert_eq!(io.pin::<37>().n, 37);
    assert_eq!(io.pin_checked(37), Some(UserIoPin { n: 37 }));
    assert_eq!(io.pin_checked(38), None);
}

#[test]
fn user_io_builder_writes_every_pin_then_starts_transfer() {
    let b = UserIo::configure().pin(5, UserIOBits::from_bits(0x1808));
    let writes = b.xfer();
    assert_eq!(writes.len(), NUM_PINS + 1);
    assert_eq!(writes[0], w(UserReg::Io(0), 0x000b));
    assert_eq!(writes[1], w(UserReg::Io(1), 0x1809));
    assert_eq!(writes[2], w(UserReg::Io(2), 0x0403));
    assert_eq!(writes[5], w(UserReg::Io(5), 0x1808));
    assert_eq!(writes[37], w(UserReg::Io(37), 0x0403));
    assert_eq!(writes[38], w(UserReg::Xfer, 1));
    assert!(UserIo::transfer_busy(1));
    assert!(!UserIo::transfer_busy(2));
}

#[test]
fn user_io_defaults_match_pac_constants() {
    let writes = UserIo::configure().xfer();
    assert_eq!(writes[0].value, caravel_pac::UserIOBits::MGMT_STD_ANALOG.into_bits());
    assert_eq!(writes[1].value, caravel_pac::UserIOBits::MGMT_STD_OUTPUT.into_bits());
    assert_eq!(writes[2].value, caravel_pac::UserIOBits::MGMT_STD_INPUT_NOPULL.into_bits());
}

#[test]
fn lowest_pending_interrupt_is_dispatched() {
    assert_eq!(next_pending_interrupt(0), None);
    assert_eq!(next_pending_interrupt(0b1000), Some(3));
    assert_eq!(next_pending_interrupt(0b1010_0000), Some(5));
    assert_eq!(next_pending_interrupt(1), Some(0));
}

#[test]
fn wishbone_enable_disable() {
    let wb = Wishbone::new();
    assert_eq!(wb.enable(), w(WishboneReg::Enable, 1));
    assert_eq!(wb.disable(), w(WishboneReg::Enable, 0));
}

#[test]
fn timer_ticks_never_exceed_exact_count_and_lose_under_two() {
    for tps in [1_000_000u32, 10_000_000, 27_000_000, 50_000_000, 1_000_000_000] {
        let t = Timer0::new(tps);
        let mut last = 0;
        for ns in [0u32, 1, 999, 1000, 123_456, 1_000_000, 4_000_000_000] {
            let ticks = t.ticks(ns) as u128;
            let exact = ns as u128 * tps as u128;
            assert!(ticks * 1_000_000_000 <= exact);
            assert!((ticks + 2) * 1_000_000_000 > exact);
            assert!(ticks >= last);
            last = ticks;
        }
    }
}

#[test]
fn user_io_toggle_twice_restores_register() {
    for n in [0usize, 7, 31, 32, 37] {
        let pin = UserIoPin { n };
        for v in [0u32, 0xFFFF_FFFF, 0x1234_5678] {
            let once = pin.toggle(v).value;
            assert_ne!(pin.is_high(once), pin.is_high(v));
            assert_eq!(pin.toggle(once).value, v);
        }
    }
}

#[test]
fn gpio_drive_mode_stays_consistent() {
    // Registers: (mode1, mode0, ien, oe)
    let mut regs = (0u32, 0u32, 0u32, 0u32);
    let steps = [(true, true), (false, true), (true, false), (false, false), (true, true)];
    for (is_output, enable) in steps {
        let writes = if is_output {
            gpio::set_output_enable(enable, regs.2)
        } else {
            gpio::set_input_enable(enable, regs.3)
        };
        for wr in writes {
            match wr.reg {
                GpioReg::Mode1 => regs.0 = wr.value,
                GpioReg::Mode0 => regs.1 = wr.value,
                GpioReg::Ien => regs.2 = wr.value,
                GpioReg::Oe => regs.3 = wr.value,
                GpioReg::Output => {}
            }
        }
        assert_eq!(regs.1 != 0, regs.2 != 0 && regs.3 == 0);
    }
}
