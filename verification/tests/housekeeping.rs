use caravel_hal::housekeeping_spi::{
    FlashStatus1Bits, HkError, HkStep, HkValue, HousekeepingSpi, SpiTransfer,
};

/// Runs an operation to its end, answering each transfer with `answer`, and
/// returns the transfers made and the result.
fn run(
    hk: &mut HousekeepingSpi,
    first: HkStep,
    mut answer: impl FnMut(&SpiTransfer) -> Option<Vec<u8>>,
) -> (Vec<SpiTransfer>, Result<HkValue, HkError>) {
    let mut log = Vec::new();
    let mut step = first;
    loop {
        match step {
            HkStep::Transfer(t) => {
                let reply = answer(&t);
                if let Some(r) = &reply {
                    assert_eq!(r.len(), t.read_len);
                }
                log.push(t);
                step = hk.resume(reply);
            }
            HkStep::Done(r) => return (log, r),
        }
    }
}

fn zeros(t: &SpiTransfer) -> Option<Vec<u8>> {
    Some(vec![0; t.read_len])
}

#[test]
fn read_reg_sends_command_and_returns_byte() {
    let mut hk = HousekeepingSpi::new();
    let first = hk.read_reg(0x03);
    let (log, r) = run(&mut hk, first, |_| Some(vec![0x11]));
    assert_eq!(log.len(), 1);
    assert_eq!(log[0].command, vec![0x48, 0x03]);
    assert!(log[0].payload.is_empty());
    assert_eq!(log[0].read_len, 1);
    assert!(matches!(r, Ok(HkValue::Byte(0x11))));
}

#[test]
fn read_reg_rejects_address_0x70() {
    let mut hk = HousekeepingSpi::new();
    match hk.read_reg(0x70) {
        HkStep::Done(Err(e)) => assert_eq!(e, HkError::InvalidRegister(0x70)),
        other => panic!("unexpected {:?}", other),
    }
    match hk.read_reg(0x6f) {
        HkStep::Transfer(t) => assert_eq!(t.command, vec![0x48, 0x6f]),
        other => panic!("unexpected {:?}", other),
    }
}

#[test]
fn write_reg_checks_address_and_sends_value() {
    let mut hk = HousekeepingSpi::new();
    match hk.write_reg(0xff, 1) {
        HkStep::Done(Err(e)) => assert_eq!(e, HkError::InvalidRegister(0xff)),
        other => panic!("unexpected {:?}", other),
    }
    let first = hk.write_reg(0x0B, 1);
    let (log, r) = run(&mut hk, first, zeros);
    assert_eq!(log.len(), 1);
    assert_eq!(log[0].command, vec![0x88, 0x0B, 1]);
    assert_eq!(log[0].read_len, 0);
    assert!(matches!(r, Ok(HkValue::Unit)));
}

#[test]
fn check_ids_accepts_expected_ids() {
    let mut hk = HousekeepingSpi::new();
    let first = hk.check_ids();
    let (log, r) = run(&mut hk, first, |t| {
        if t.command == vec![0x40, 0x01] {
            Some(vec![0x04, 0x56])
        } else {
            Some(vec![0x11])
        }
    });
    assert_eq!(log.len(), 2);
    assert_eq!(log[0].command, vec![0x40, 0x01]);
    assert_eq!(log[0].read_len, 2);
    assert_eq!(log[1].command, vec![0x48, 0x03]);
    assert!(matches!(r, Ok(HkValue::Unit)));
}

#[test]
fn check_ids_rejects_wrong_manufacturer_before_reading_product() {
    let mut hk = HousekeepingSpi::new();
    let first = hk.check_ids();
    let (log, r) = run(&mut hk, first, |_| Some(vec![0x12, 0x34]));
    assert_eq!(log.len(), 1);
    assert!(matches!(r, Err(HkError::WrongManufacturer(0x1234))));
}

#[test]
fn check_ids_rejects_wrong_product() {
    let mut hk = HousekeepingSpi::new();
    let first = hk.check_ids();
    let (log, r) = run(&mut hk, first, |t| {
        if t.read_len == 2 {
            Some(vec![0x04, 0x56])
        } else {
            Some(vec![0x12])
        }
    });
    assert_eq!(log.len(), 2);
    assert!(matches!(r, Err(HkError::WrongProduct(0x12))));
}

#[test]
fn failed_transfer_stops_the_operation() {
    let mut hk = HousekeepingSpi::new();
    let first = hk.cpu_reset_toggle();
    let (log, r) = run(&mut hk, first, |_| None);
    assert_eq!(log.len(), 1);
    assert!(matches!(r, Err(HkError::Bus)));
}

#[test]
fn read_project_id_reverses_bits_of_each_byte() {
    let mut hk = HousekeepingSpi::new();
    let first = hk.read_project_id();
    let (log, r) = run(&mut hk, first, |_| Some(vec![0x80, 0x01, 0xF0, 0x00]));
    assert_eq!(log[0].command, vec![0x40, 0x04]);
    assert_eq!(log[0].read_len, 4);
    // 0x80 -> 0x01, 0x01 -> 0x80, 0xF0 -> 0x0F, 0x00 -> 0x00, little-endian.
    assert!(matches!(r, Ok(HkValue::Word(0x000F_8001))));
}

#[test]
fn flash_status_and_busy() {
    let mut hk = HousekeepingSpi::new();
    let first = hk.get_flash_status();
    let (log, r) = run(&mut hk, first, |_| Some(vec![0b1000_0011]));
    assert_eq!(log[0].command, vec![0xC4, 0x05]);
    match r {
        Ok(HkValue::Status(s)) => {
            assert!(s.wip());
            assert!(s.wel());
            assert!(!s.bp0());
            assert!(!s.sp());
            assert!(s.bpl());
            assert_eq!(s.into_bits(), 0b1000_0011);
        }
        other => panic!("unexpected {:?}", other),
    }
    let first = hk.flash_busy();
    let (_, r) = run(&mut hk, first, |_| Some(vec![0b10]));
    assert!(matches!(r, Ok(HkValue::Flag(false))));
    let first = hk.get_flash_status2();
    let (log, r) = run(&mut hk, first, |_| Some(vec![0x42]));
    assert_eq!(log[0].command, vec![0xC4, 0x35]);
    assert!(matches!(r, Ok(HkValue::Byte(0x42))));
}

#[test]
fn flash_identify_wants_winbond() {
    let mut hk = HousekeepingSpi::new();
    let first = hk.flash_identify();
    let (log, r) = run(&mut hk, first, |_| Some(vec![0xef, 0x40, 0x18]));
    assert_eq!(log[0].command, vec![0xC4, 0x9f]);
    assert_eq!(log[0].read_len, 3);
    assert!(matches!(r, Ok(HkValue::Unit)));
    let first = hk.flash_identify();
    let (_, r) = run(&mut hk, first, |_| Some(vec![0xc2, 0x20, 0x18]));
    assert!(matches!(r, Err(HkError::FlashNotFound)));
    let first = hk.flash_read_jedec();
    let (_, r) = run(&mut hk, first, |_| Some(vec![0xc2, 0x20, 0x18]));
    match r {
        Ok(HkValue::Bytes(b)) => assert_eq!(b, vec![0xc2, 0x20, 0x18]),
        other => panic!("unexpected {:?}", other),
    }
}

#[test]
fn flash_erase_sector_enables_writes_then_sends_address() {
    let mut hk = HousekeepingSpi::new();
    let first = hk.flash_erase_sector(0x123);
    let (log, r) = run(&mut hk, first, zeros);
    assert_eq!(log.len(), 2);
    assert_eq!(log[0].command, vec![0xC4, 0x06]);
    assert_eq!(log[1].command, vec![0xC4, 0xD8, 0x12, 0x30, 0x00]);
    assert!(matches!(r, Ok(HkValue::Unit)));
    let first = hk.flash_erase();
    let (log, _) = run(&mut hk, first, zeros);
    assert_eq!(log[1].command, vec![0xC4, 0x60]);
}

#[test]
fn flash_program_page_sends_header_then_data() {
    let mut hk = HousekeepingSpi::new();
    let first = hk.flash_program_page(0x0102, vec![1, 2, 3]);
    let (log, r) = run(&mut hk, first, zeros);
    assert_eq!(log.len(), 2);
    assert_eq!(log[0].command, vec![0xC4, 0x06]);
    assert_eq!(log[1].command, vec![0xC4, 0x02, 0x01, 0x02, 0x00]);
    assert_eq!(log[1].payload, vec![1, 2, 3]);
    assert!(matches!(r, Ok(HkValue::Unit)));
}

#[test]
fn flash_read_splits_into_chunks() {
    let mut hk = HousekeepingSpi::new();
    let first = hk.flash_read(0x01_0000, 5000);
    let mut counter: u8 = 0;
    let (log, r) = run(&mut hk, first, |t| {
        let v: Vec<u8> = (0..t.read_len)
            .map(|_| {
                counter = counter.wrapping_add(1);
                counter
            })
            .collect();
        Some(v)
    });
    assert_eq!(log.len(), 3);
    assert_eq!(log[0].command, vec![0xC4, 0x03, 0x01, 0x00, 0x00]);
    assert_eq!(log[0].read_len, 2044);
    assert_eq!(log[1].command, vec![0xC4, 0x03, 0x01, 0x07, 0xFC]);
    assert_eq!(log[1].read_len, 2044);
    assert_eq!(log[2].command, vec![0xC4, 0x03, 0x01, 0x0F, 0xF8]);
    assert_eq!(log[2].read_len, 912);
    match r {
        Ok(HkValue::Bytes(b)) => {
            assert_eq!(b.len(), 5000);
            assert_eq!(b[0], 1);
            assert_eq!(b[4999], (5000u32 % 256) as u8);
        }
        other => panic!("unexpected {:?}", other),
    }
}

#[test]
fn flash_read_of_nothing_makes_no_transfer() {
    let mut hk = HousekeepingSpi::new();
    match hk.flash_read(0, 0) {
        HkStep::Done(Ok(HkValue::Bytes(b))) => assert!(b.is_empty()),
        other => panic!("unexpected {:?}", other),
    }
}

#[test]
fn dll_and_dco_register_sequences() {
    let mut hk = HousekeepingSpi::new();
    let first = hk.engage_dll();
    let (log, _) = run(&mut hk, first, zeros);
    assert_eq!(log[0].command, vec![0x88, 0x08, 1]);
    assert_eq!(log[1].command, vec![0x88, 0x09, 0]);
    let first = hk.disengage_dll();
    let (log, _) = run(&mut hk, first, zeros);
    assert_eq!(log[0].command, vec![0x88, 0x09, 1]);
    assert_eq!(log[1].command, vec![0x88, 0x08, 0]);
    let first = hk.dco_mode();
    let (log, _) = run(&mut hk, first, zeros);
    assert_eq!(log[0].command, vec![0x88, 0x08, 3]);
    assert_eq!(log[1].command, vec![0x88, 0x09, 0]);
    let first = hk.cpu_reset_hold();
    let (log, _) = run(&mut hk, first, zeros);
    assert_eq!(log[0].command, vec![0x88, 0x0B, 1]);
    let first = hk.cpu_reset_release();
    let (log, _) = run(&mut hk, first, zeros);
    assert_eq!(log[0].command, vec![0x88, 0x0B, 0]);
    let first = hk.flash_reset();
    let (log, _) = run(&mut hk, first, zeros);
    assert_eq!(log[0].command, vec![0xC4, 0x99]);
    let first = hk.flash_write_enable();
    let (log, _) = run(&mut hk, first, zeros);
    assert_eq!(log[0].command, vec![0xC4, 0x06]);
    let first = hk.flash_write_disable();
    let (log, _) = run(&mut hk, first, zeros);
    assert_eq!(log[0].command, vec![0xC4, 0x04]);
}

#[test]
fn dco_trim_sends_thermometer_code() {
    let mut hk = HousekeepingSpi::new();
    let first = hk.dco_trim(26);
    let (log, r) = run(&mut hk, first, zeros);
    assert_eq!(log[0].command, vec![0x80, 0x0D, 0xFF, 0xFF, 0xFF, 0x03]);
    assert!(matches!(r, Ok(HkValue::Unit)));
    let first = hk.dco_trim(0);
    let (log, _) = run(&mut hk, first, zeros);
    assert_eq!(log[0].command, vec![0x80, 0x0D, 0, 0, 0, 0]);
    match hk.dco_trim(27) {
        HkStep::Done(Err(e)) => assert_eq!(e, HkError::InvalidTrim(27)),
        other => panic!("unexpected {:?}", other),
    }
}

#[test]
fn dco_trim_reads_back_through_dll_trim() {
    for v in 0..=26u32 {
        let mut hk = HousekeepingSpi::new();
        let first = hk.dco_trim(v);
        let (log, _) = run(&mut hk, first, zeros);
        let written = log[0].command[2..6].to_vec();
        let first = hk.read_dll_trim();
        let (log, r) = run(&mut hk, first, |_| Some(written.clone()));
        assert_eq!(log[0].command, vec![0x40, 0x0D]);
        assert_eq!(log[0].read_len, 4);
        assert!(matches!(r, Ok(HkValue::Byte(b)) if b as u32 == v));
    }
}

#[test]
fn flash_status_bits_setters_and_conversions() {
    let s = FlashStatus1Bits::new().with_wel(true).with_bpl(true);
    assert_eq!(s.into_bits(), 0b1000_0010);
    assert!(s.wel());
    assert!(!s.wip());
    let s = s.with_wel(false).with_sp(true);
    assert_eq!(u8::from(s), 0b1100_0000);
    let t: FlashStatus1Bits = 0x0Fu8.into();
    assert!(t.bp0() && t.bp1() && !t.bp2() && !t.bp3());
    assert_eq!(FlashStatus1Bits::from_bits(0x3C).with_bp3(false).into_bits(), 0x1C);
    assert_eq!(FlashStatus1Bits::from_bits(0).with_wip(true).with_bp2(true).into_bits(), 0x11);
}

#[test]
fn failed_flash_read_keeps_chunks_read_before_the_failure() {
    let mut hk = HousekeepingSpi::new();
    let first = hk.flash_read(0, 5000);
    let mut calls = 0;
    let (log, r) = run(&mut hk, first, |t| {
        calls += 1;
        if calls == 3 {
            None
        } else {
            Some(vec![calls as u8; t.read_len])
        }
    });
    assert_eq!(log.len(), 3);
    assert!(matches!(r, Err(HkError::Bus)));
    let partial = hk.take_partial();
    assert_eq!(partial.len(), 2 * 2044);
    assert!(partial[..2044].iter().all(|&b| b == 1));
    assert!(partial[2044..].iter().all(|&b| b == 2));
    assert!(hk.take_partial().is_empty());
    // A new operation starts with nothing kept.
    let first = hk.read_reg(1);
    let (_, r) = run(&mut hk, first, |_| Some(vec![7]));
    assert!(matches!(r, Ok(HkValue::Byte(7))));
    assert!(hk.take_partial().is_empty());
}

#[test]
fn flash_status_bits_set_methods_and_default() {
    let mut s = FlashStatus1Bits::default();
    assert_eq!(s.into_bits(), 0);
    s.set_wip(true);
    s.set_bp3(true);
    assert_eq!(s.into_bits(), 0b0010_0001);
    s.set_wip(false);
    s.set_wel(true);
    s.set_bp0(true);
    s.set_bp1(true);
    s.set_bp2(true);
    s.set_sp(true);
    s.set_bpl(true);
    assert_eq!(s.into_bits(), 0b1111_1110);
}
