use tms570::esm::{status_bit, Esm, StatusBit};
use tms570::esm_ch::{EsmChannel, EsmError, EsmGroup};
use tms570::reg::{Action, Reg};

fn location(err: EsmError) -> StatusBit {
    status_bit(err.channel()).unwrap()
}

/// Latched status register semantics: writing one clears the bit.
fn write_one_to_clear(status: u32, a: Action) -> u32 {
    match a {
        Action::Write(_, m) => status & !m,
        _ => panic!("not a write"),
    }
}

#[test]
fn named_faults_map_to_group_and_channel() {
    assert_eq!((EsmError::MibADC2Ram.group(), EsmError::MibADC2Ram.ch()), (0, 1));
    assert_eq!((EsmError::OscFail.group(), EsmError::OscFail.ch()), (0, 11));
    assert_eq!((EsmError::CCMR4SelfTest.group(), EsmError::CCMR4SelfTest.ch()), (0, 31));
    assert_eq!((EsmError::DCC2Error.group(), EsmError::DCC2Error.ch()), (0, 62));
    assert_eq!((EsmError::CCMR4LockStep.group(), EsmError::CCMR4LockStep.ch()), (1, 2));
    assert_eq!((EsmError::WWD.group(), EsmError::WWD.ch()), (1, 24));
    assert_eq!((EsmError::EfuseAutoload.group(), EsmError::EfuseAutoload.ch()), (2, 1));
    assert_eq!(
        (EsmError::FMCUncorrectableECC.group(), EsmError::FMCUncorrectableECC.ch()),
        (2, 7)
    );
}

#[test]
fn named_faults_map_to_status_register_and_bit() {
    assert_eq!(location(EsmError::MibADC2Ram), StatusBit { reg: Reg::EsmSr1(0), bit: 1 });
    assert_eq!(location(EsmError::DCC1), StatusBit { reg: Reg::EsmSr1(0), bit: 30 });
    // channel 31 is past the `< 31` boundary: it is read from SR4, bit 31
    assert_eq!(location(EsmError::CCMR4SelfTest), StatusBit { reg: Reg::EsmSr4(0), bit: 31 });
    assert_eq!(location(EsmError::N2HET2Parity), StatusBit { reg: Reg::EsmSr4(0), bit: 2 });
    assert_eq!(location(EsmError::DCC2Error), StatusBit { reg: Reg::EsmSr4(0), bit: 30 });
    assert_eq!(location(EsmError::CCMR4LockStep), StatusBit { reg: Reg::EsmSr1(1), bit: 2 });
    assert_eq!(location(EsmError::EfuseAutoload), StatusBit { reg: Reg::EsmSr1(2), bit: 1 });
    assert_eq!(Esm::status_register(EsmError::CCMR4SelfTest), Reg::EsmSr4(0));
    assert_eq!(Esm::status_register(EsmError::WWD), Reg::EsmSr1(1));
}

#[test]
fn boundary_channel_numbers() {
    let at = |v: u8| {
        let c = EsmChannel::from_index(v).unwrap();
        (c.group, c.ch, status_bit(c))
    };
    assert_eq!(at(30), (0, 30, Some(StatusBit { reg: Reg::EsmSr1(0), bit: 30 })));
    assert_eq!(at(31), (0, 31, Some(StatusBit { reg: Reg::EsmSr4(0), bit: 31 })));
    assert_eq!(at(32), (1, 0, Some(StatusBit { reg: Reg::EsmSr1(1), bit: 0 })));
    assert_eq!(at(62), (1, 30, Some(StatusBit { reg: Reg::EsmSr1(1), bit: 30 })));
    assert_eq!(at(63), (1, 31, Some(StatusBit { reg: Reg::EsmSr4(1), bit: 31 })));
    assert_eq!(at(95), (2, 31, Some(StatusBit { reg: Reg::EsmSr4(2), bit: 31 })));
    // group four has no status register
    assert_eq!(at(96), (3, 0, None));
    assert_eq!(at(127), (3, 31, None));
    assert_eq!(EsmChannel::from_index(128), None);
    assert_eq!(EsmChannel::from_index(255), None);
}

#[test]
fn group_one_upper_channels_use_sr4() {
    assert_eq!(
        status_bit(EsmChannel { group: 0, ch: 32 }),
        Some(StatusBit { reg: Reg::EsmSr4(0), bit: 0 })
    );
    assert_eq!(
        status_bit(EsmChannel { group: 0, ch: 63 }),
        Some(StatusBit { reg: Reg::EsmSr4(0), bit: 31 })
    );
}

#[test]
fn error_is_set_reads_the_latched_bit() {
    assert!(Esm::error_is_set(EsmError::EfuseAutoload, 0x2));
    assert!(!Esm::error_is_set(EsmError::EfuseAutoload, 0x1));
    assert!(Esm::error_is_set(EsmError::CCMR4SelfTest, 0x8000_0000));
    assert!(!Esm::error_is_set(EsmError::CCMR4SelfTest, 0x4000_0000));
    assert!(Esm::error_is_set(EsmError::OscFail, 1 << 11));
}

#[test]
fn clear_error_writes_one_to_the_bit() {
    assert_eq!(Esm::clear_error(EsmError::CCMR4LockStep), Action::Write(Reg::EsmSr1(1), 0x4));
    assert_eq!(
        Esm::clear_error(EsmError::CCMR4SelfTest),
        Action::Write(Reg::EsmSr4(0), 0x8000_0000)
    );
    assert_eq!(
        Esm::clear_channel(EsmChannel { group: 2, ch: 5 }),
        Some(Action::Write(Reg::EsmSr1(2), 0x20))
    );
    assert_eq!(Esm::clear_channel(EsmChannel { group: 3, ch: 5 }), None);
}

#[test]
fn clearing_a_clear_channel_changes_nothing() {
    let a = Esm::clear_error(EsmError::CCMR4LockStep);
    let status = 0x0000_0100;
    assert_eq!(write_one_to_clear(status, a), status);
    let latched = 0x0000_0104;
    let once = write_one_to_clear(latched, a);
    assert_eq!(once, 0x0000_0100);
    assert_eq!(write_one_to_clear(once, a), once);
}

#[test]
fn interrupt_vectors_are_offset_by_one() {
    assert_eq!(Esm::high_level_interrupt(0), None);
    assert_eq!(Esm::high_level_interrupt(1), Some(0));
    assert_eq!(Esm::high_level_interrupt(12), Some(11));
    assert_eq!(Esm::low_level_interrupt(0), None);
    assert_eq!(Esm::low_level_interrupt(65), Some(64));
}

#[test]
fn routing_registers() {
    assert_eq!(Esm::enable_interrupt(EsmError::OscFail), Action::Write(Reg::EsmIesr1, 1 << 11));
    assert_eq!(Esm::disable_interrupt(EsmError::DCC2Error), Action::Write(Reg::EsmIecr4, 1 << 30));
    assert_eq!(Esm::enable_error(EsmError::CCMR4SelfTest), Action::Write(Reg::EsmEepapr1, 1 << 31));
    assert_eq!(Esm::disable_error(EsmError::N2HET2Parity), Action::Write(Reg::EsmIepcr4, 1 << 2));
    assert_eq!(Esm::shadow_stat_clear(EsmGroup::Two), Action::Write(Reg::EsmSsr2, 0x2));
}

#[test]
fn reset_resets_an_active_pin() {
    let r = Esm::reset(16384, 0);
    assert_eq!(r.len(), 11);
    assert_eq!(r[0], Action::Write(Reg::EsmDepapr1, 0xFFFF_FFFF));
    assert_eq!(r[4], Action::Write(Reg::EsmSr1(0), 0xFFFF_FFFF));
    assert_eq!(r[9], Action::Write(Reg::EsmEkr, 0x5));
    assert_eq!(r[10], Action::Write(Reg::EsmLtcpr, 16383));
    let quiet = Esm::reset(1, 0x1);
    assert_eq!(quiet[9], Action::Write(Reg::EsmEkr, 0x0));
    assert_eq!(quiet[10], Action::Write(Reg::EsmLtcpr, 0));
    assert!(Esm::error_pin_active(0));
    assert!(!Esm::error_pin_active(1));
}
