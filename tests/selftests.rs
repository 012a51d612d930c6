use tms570::ccm::{Ccm, SelfTestError};
use tms570::reg::{Action, Next, Reg};
use tms570::system::{ClockSupervisorTest, Sys};
use tms570::vim::Vim;

#[test]
fn ccm_self_test_passes() {
    let (mut t, s) = Ccm::new().self_test();
    assert_eq!(
        s.actions,
        vec![Action::Write(Reg::CcmKeyr, 0x6), Action::WaitAllSet(Reg::CcmSr, 0x100)]
    );
    assert_eq!(s.next, Next::Read(Reg::CcmSr));
    let s = t.resume(0x100);
    assert_eq!(s.next, Next::Read(Reg::EsmSr4(0)));
    let s = t.resume(0);
    assert_eq!(
        s.actions,
        vec![Action::Write(Reg::CcmKeyr, 0x9), Action::WaitEqual(Reg::CcmKeyr, 0)]
    );
    assert_eq!(s.next, Next::Read(Reg::EsmSr1(1)));
    let s = t.resume(1 << 2);
    assert_eq!(s.next, Next::Read(Reg::VimFiqIndex));
    let s = t.resume(1);
    assert_eq!(
        s.actions,
        vec![
            Action::Write(Reg::EsmSr1(1), 0x4),
            Action::Write(Reg::EsmSsr2, 0x2),
            Action::Write(Reg::EsmSr4(0), 0x8000_0000),
            Action::Write(Reg::EsmEkr, 0x5),
            Action::Write(Reg::CcmKeyr, 0xF),
            Action::WaitEqual(Reg::CcmKeyr, 0),
        ]
    );
    assert_eq!(s.next, Next::Read(Reg::EsmSr4(0)));
    let s = t.resume(0);
    assert_eq!(s.actions, vec![Action::Write(Reg::EsmSr4(0), 0x8000_0000)]);
    assert_eq!(s.next, Next::Done(true));
    assert!(t.passed);
}

#[test]
fn ccm_self_test_failures() {
    let (mut t, _) = Ccm::new().self_test();
    assert_eq!(t.resume(0x101).next, Next::Done(false));

    let (mut t, _) = Ccm::new().self_test();
    t.resume(0x100);
    assert_eq!(t.resume(0x8000_0000).next, Next::Done(false));

    // error forcing that does not reach the lockstep channel
    let (mut t, _) = Ccm::new().self_test();
    t.resume(0x100);
    t.resume(0);
    assert_eq!(t.resume(0).next, Next::Done(false));

    // the forced error must reach the high-priority ESM interrupt
    let (mut t, _) = Ccm::new().self_test();
    t.resume(0x100);
    t.resume(0);
    t.resume(1 << 2);
    assert_eq!(t.resume(0).next, Next::Done(false));
    assert!(!t.passed);
}

#[test]
fn ccm_status_decoding() {
    let ccm = Ccm::new();
    assert_eq!(ccm.self_test_error_type(0x0), SelfTestError::NoError);
    assert_eq!(ccm.self_test_error_type(0x1), SelfTestError::CompareMismatch);
    assert_eq!(ccm.self_test_error_type(0x3), SelfTestError::CompareMatch);
    assert!(ccm.compare_error(0x1_0000));
    assert!(!ccm.compare_error(0x1));
    assert_eq!(ccm.clear_error(), Action::Write(Reg::CcmSr, 0x1_0000));
}

#[test]
fn clock_supervisor_detects_oscillator_failure() {
    let (mut t, s) = Sys::new().clock_supervisor_test();
    assert_eq!(s.actions, vec![Action::Modify(Reg::Clktest, 0xFFFF_FFFF, 0x0300_0000)]);
    assert_eq!(s.next, Next::Read(Reg::Ghvsrc));
    let s = t.resume(0x0101_0001);
    assert_eq!(s.actions[0], Action::Write(Reg::Ghvsrc, 0x0505_0005));
    assert_eq!(s.next, Next::Read(Reg::EsmSr1(0)));
    let s = t.resume(1 << 11);
    assert_eq!(s.next, Next::Done(true));
    assert_eq!(s.actions[0], Action::Write(Reg::EsmSr1(0), 0x800));
    assert_eq!(*s.actions.last().unwrap(), Action::Write(Reg::Ghvsrc, 0x0101_0001));
}

#[test]
fn clock_supervisor_restores_sources_on_failure() {
    let (mut t, _) = ClockSupervisorTest::start();
    t.resume(0x0909_0009);
    let s = t.resume(0);
    assert_eq!(s.next, Next::Done(false));
    assert_eq!(s.actions.len(), 5);
    assert_eq!(s.actions[0], Action::Modify(Reg::Clktest, !0x0300_0000, 0));
    assert_eq!(*s.actions.last().unwrap(), Action::Write(Reg::Ghvsrc, 0x0909_0009));
    let again = t.resume(0);
    assert!(again.actions.is_empty());
    assert_eq!(again.next, Next::Done(false));
}

#[test]
fn vim_parity_check_passes() {
    let (mut t, s) = Vim::new().parity_check();
    assert_eq!(s.next, Next::Read(Reg::VimParctl));
    let s = t.resume(0x5);
    assert_eq!(s.actions, vec![Action::Write(Reg::VimParctl, 0x10)]);
    assert_eq!(s.next, Next::Read(Reg::VimParityRam0));
    let s = t.resume(0x1234);
    assert_eq!(
        s.actions,
        vec![Action::Write(Reg::VimParityRam0, 0x1235), Action::Write(Reg::VimParflg, 0xA)]
    );
    let s = t.resume(0x1235);
    assert_eq!(s.next, Next::Read(Reg::EsmSr1(0)));
    let s = t.resume(1 << 15);
    assert_eq!(
        s.actions,
        vec![Action::Write(Reg::VimParflg, 0x1), Action::Write(Reg::EsmSr1(0), 0x8000)]
    );
    let s = t.resume(0x1235);
    assert_eq!(
        s.actions,
        vec![Action::Write(Reg::VimParityRam0, 0x1234), Action::Write(Reg::VimParctl, 0x5)]
    );
    assert_eq!(s.next, Next::Done(true));
}

#[test]
fn vim_parity_check_fails_when_not_detected() {
    let (mut t, _) = Vim::new().parity_check();
    t.resume(0x5);
    t.resume(0x1234);
    t.resume(0x1235);
    let s = t.resume(0);
    assert_eq!(s.actions, vec![Action::Write(Reg::VimParctl, 0x5)]);
    assert_eq!(s.next, Next::Done(false));
}
