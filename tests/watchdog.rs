use tms570::dwd::{dwd_preload, WdViolation, DWD};
use tms570::reg::{Action, Reg};
use tms570::rti::ChipWatchDog;

#[test]
fn preload_in_range() {
    // 100 ms in microseconds, with the clock in MHz
    assert_eq!(dwd_preload(100_000, 80), Ok(975));
    assert_eq!(dwd_preload(8192, 1), Ok(0));
    assert_eq!(dwd_preload(4095 * 8192, 1), Ok(4094));
}

#[test]
fn preload_out_of_range_fails() {
    assert_eq!(dwd_preload(4096 * 8192, 1), Err(4095));
    assert_eq!(dwd_preload(0, 80), Err(u32::MAX));
    assert_eq!(dwd_preload(8191, 1), Err(u32::MAX));
    assert_eq!(dwd_preload(u32::MAX, u32::MAX), Err(u32::MAX));
}

#[test]
fn expire_on_rti_clock() {
    let wd = ChipWatchDog::new();
    // expiry in microseconds on the 80 MHz RTI clock
    assert_eq!(wd.expire(100_000), Ok(Action::Write(Reg::RtiDwdprld, 975)));
    assert_eq!(wd.expire(419_430), Ok(Action::Write(Reg::RtiDwdprld, 4094)));
    assert_eq!(wd.expire(419_431), Err(4095));
    assert_eq!(wd.expire(1_000_000), Err(9764));
    assert_eq!(wd.expire(1), Err(u32::MAX));
    assert_eq!(wd.expire(0), Err(u32::MAX));
}

#[test]
fn start_arms_in_order() {
    let wd = ChipWatchDog::new();
    assert_eq!(
        wd.start(100_000),
        Ok(vec![
            Action::Write(Reg::RtiWdstatus, 0xFF),
            Action::Write(Reg::RtiDwdprld, 975),
            Action::Write(Reg::RtiDwdctrl, 0xA985_59DA),
        ])
    );
}

#[test]
fn start_fails_without_programming() {
    let wd = ChipWatchDog::new();
    assert_eq!(wd.start(1_000_000), Err(9764));
}

#[test]
fn service_and_reset_keys() {
    let wd = ChipWatchDog::new();
    assert_eq!(
        wd.reset(),
        vec![Action::Write(Reg::RtiWdkey, 0xE51A), Action::Write(Reg::RtiWdkey, 0xA35C)]
    );
    assert_eq!(
        wd.sys_reset(),
        vec![Action::Write(Reg::RtiWdkey, 0xE51A), Action::Write(Reg::RtiWdkey, 0x2345)]
    );
    assert_eq!(wd.status_clear(), Action::Write(Reg::RtiWdstatus, 0xFF));
    assert_eq!(wd.counter_enable(), Action::Write(Reg::RtiDwdctrl, 0xA985_59DA));
    assert_eq!(wd.count_down(), Reg::RtiDwdcntr);
}

#[test]
fn status_codes() {
    let wd = ChipWatchDog::new();
    assert_eq!(wd.status(0x00), Some(WdViolation::NoTimeViolation));
    assert_eq!(wd.status(0x04), Some(WdViolation::KeySeqViolation));
    assert_eq!(wd.status(0x08), Some(WdViolation::StartTimeWindowViolation));
    assert_eq!(wd.status(0x10), Some(WdViolation::EndTimeWindowViolation));
    assert_eq!(wd.status(0x20), Some(WdViolation::TimeWindowViolation));
    assert_eq!(wd.status(0x03), None);
    assert!(wd.time_violation(0x08));
    assert!(wd.time_violation(0x20));
    assert!(!wd.time_violation(0x04));
    assert!(!wd.time_violation(0x00));
    assert_eq!(WdViolation::EndTimeWindowViolation.code(), 0x10);
}
