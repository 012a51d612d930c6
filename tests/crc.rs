use tms570::hwcrc::{ChannelMode, CrcChannel, CrcInterrupt, HwCrc};
use tms570::reg::{Action, Reg};

#[test]
fn channel_configuration() {
    let crc = HwCrc::new();
    assert_eq!(
        crc.configure(CrcChannel::CH2, 16, 4, 100, 2000),
        vec![
            Action::Write(Reg::CrcPcount(1), 16),
            Action::Write(Reg::CrcScount(1), 4),
            Action::Write(Reg::CrcWdtoPld(1), 100_000),
            Action::Write(Reg::CrcBctoPld(1), 2_000_000),
        ]
    );
    assert_eq!(crc.ch_reset(CrcChannel::CH2, true), Action::Modify(Reg::CrcCtrl0, 0xFFFF_FFFF, 0x2));
    assert_eq!(crc.ch_reset(CrcChannel::CH1, false), Action::Modify(Reg::CrcCtrl0, !0x1, 0));
    assert_eq!(crc.set_ch_mode(CrcChannel::CH2, ChannelMode::Full), Action::Modify(Reg::CrcCtrl2, 0xFFFF_FFFF, 0x300));
    assert_eq!(crc.data_trace(false), Action::Modify(Reg::CrcCtrl2, !0x10, 0));
    assert_eq!(crc.power_down(true), Action::Write(Reg::CrcCtrl1, 1));
}

#[test]
fn signature_generation_and_digest() {
    let crc = HwCrc::new();
    assert_eq!(
        crc.generate(CrcChannel::CH1, ChannelMode::Full, &[0xDEAD_BEEF, 7]),
        vec![Action::Write(Reg::CrcPsaSigL(0), 0xDEAD_BEEF), Action::Write(Reg::CrcPsaSigL(0), 7)]
    );
    assert!(crc.generate(CrcChannel::CH1, ChannelMode::Auto, &[1, 2]).is_empty());
    assert_eq!(crc.digest(0x1234_5678, 0x9ABC_DEF0), 0x1234_5678_9ABC_DEF0);
    assert_eq!(crc.digest_registers(CrcChannel::CH2), (Reg::CrcPsaSigL(1), Reg::CrcPsaSigH(1)));
}

#[test]
fn crc_status_and_interrupts() {
    let crc = HwCrc::new();
    assert!(crc.is_busy(CrcChannel::CH2, 0x1));
    assert!(!crc.is_busy(CrcChannel::CH1, 0xFFFF_FFFF));
    assert_eq!(
        crc.notification(CrcChannel::CH2, CrcInterrupt::Timeout, true),
        Action::Write(Reg::CrcInts, 0x10)
    );
    assert_eq!(
        crc.notification(CrcChannel::CH2, CrcInterrupt::CrcFail, false),
        Action::Write(Reg::CrcIntr, 0x2)
    );
    assert_eq!(crc.failed_sector(CrcChannel::CH1), Reg::CrcCursec(0));
    assert_eq!(crc.interrupt(), Reg::CrcIntOffset);
}
