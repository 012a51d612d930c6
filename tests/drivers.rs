use tms570::dabort::{abort_status_register, data_abort};
use tms570::dcc::{Dcc, DccClockSource, DccId};
use tms570::iomm::Iomm;
use tms570::pcr::Pcr;
use tms570::flash::{lpo_trim_available, lpo_trim_value, DiagModes, Flash, FlashWPowerModes};
use tms570::pinmux::PinMux;
use tms570::pmu::{overflow, PmuEvent};
use tms570::reg::{modified, pll_locked, Action, CoreOp, Reg, TcRamID};
use tms570::stc::Stc;
use tms570::sysexc::{Reset, SysException};
use tms570::system::{ClockDomains, Ram, SleepMode, Sys, SysClockSources};
use tms570::tcram::Tcram;
use tms570::vim::{Vim, VimType};
use tms570::Termination;

#[test]
fn abort_without_latched_errors_returns() {
    assert_eq!(abort_status_register(), Reg::EsmSr1(2));
    let r = data_abort(0, 0, 0, 0);
    assert!(!r.halted);
    assert_eq!(
        r.actions,
        vec![Action::Core(CoreOp::CustomAbortHook), Action::Core(CoreOp::AbortReturn)]
    );
}

#[test]
fn abort_on_protected_ram_halts() {
    let r = data_abort(1 << 3, 0x80, 0, 0);
    assert!(r.halted);
    assert_eq!(r.actions, vec![Action::Core(CoreOp::InterruptsDisable)]);
    let r = data_abort(1 << 5, 0, 0x80, 0);
    assert!(r.halted);
}

#[test]
fn abort_while_probing_ram_is_cleared() {
    let r = data_abort(1 << 3, 0, 0x80, 0);
    assert!(!r.halted);
    assert_eq!(
        r.actions,
        vec![
            Action::Write(Reg::TcramErrStatus(TcRamID::One), 0x20),
            Action::Write(Reg::EsmSr1(2), 0x8),
            Action::Write(Reg::EsmEkr, 0x5),
            Action::Core(CoreOp::CustomAbortHook),
            Action::Core(CoreOp::AbortReturn),
        ]
    );
}

#[test]
fn abort_on_flash() {
    let r = data_abort(1 << 7, 0, 0, 0);
    assert!(r.halted);
    let r = data_abort(1 << 7, 0, 0, 5);
    assert!(!r.halted);
    assert_eq!(r.actions[0], Action::Write(Reg::EsmSr1(2), 0x80));
}

#[test]
fn dcc_operations() {
    let dcc = Dcc::new(DccId::One);
    assert_eq!(dcc.enable(true), Action::Modify(Reg::DccGctrl(DccId::One), 0xFFFF_FFFA, 0));
    assert_eq!(dcc.enable(false), Action::Modify(Reg::DccGctrl(DccId::One), 0xFFFF_FFF5, 0));
    assert_eq!(
        dcc.clock1_source_enable(true),
        Action::Modify(Reg::DccCnt1ClkSrc(DccId::One), 0xFFFF_0FFF, 0xA000)
    );
    assert_eq!(
        dcc.clock1_source_enable(false),
        Action::Modify(Reg::DccCnt1ClkSrc(DccId::One), 0xFFFF_0FFF, 0x5000)
    );
    let two = Dcc::new(DccId::Two);
    assert_eq!(
        two.select_source(DccClockSource::CNT0_OSCIN, DccClockSource::CNT1_PLL1),
        vec![
            Action::Write(Reg::DccCnt0ClkSrc(DccId::Two), 0xF),
            Action::Write(Reg::DccCnt1ClkSrc(DccId::Two), 0x0),
            Action::Modify(Reg::DccCnt1ClkSrc(DccId::Two), 0xFFFF_0FFF, 0xA000),
        ]
    );
    assert_eq!(dcc.counter0_seed(7), Action::Write(Reg::DccCnt0Seed(DccId::One), 7));
    assert_eq!(dcc.tollerance(9), Action::Write(Reg::DccValid0Seed(DccId::One), 9));
    assert_eq!(dcc.counter1_seed(3), Action::Write(Reg::DccCnt1Seed(DccId::One), 3));
    assert!(dcc.error(0x1));
    assert!(!dcc.error(0x2));
    assert_eq!(
        dcc.clock0_source(DccClockSource::CNT0_HF_LPO),
        Action::Write(Reg::DccCnt0ClkSrc(DccId::One), 0x5)
    );
    assert_eq!(
        dcc.clock1_source(DccClockSource::CNT1_VCLK),
        Action::Write(Reg::DccCnt1ClkSrc(DccId::One), 0x8)
    );
}

#[test]
fn pin_mux_fields() {
    let f = |p: PinMux| (p.pin(), p.group(), p.shift(), p.option());
    assert_eq!(f(PinMux::GIOB3), (1, 0, 0, 0));
    assert_eq!(f(PinMux::I2C_SDA), (4, 0, 24, 1));
    assert_eq!(f(PinMux::MIBSPI1NCS_5), (91, 11, 24, 1));
    assert_eq!(f(PinMux::N2NET1_26), (92, 12, 0, 0));
}

#[test]
fn pll_setup_and_lock() {
    let sys = Sys::new();
    let p = sys.setup_pll();
    assert_eq!(p.len(), 7);
    assert_eq!(p[0], Action::Write(Reg::Csdisset, 0x42));
    assert_eq!(p[1], Action::WaitAllSet(Reg::Csdis, 0x42));
    assert_eq!(p[2], Action::Write(Reg::Gblstat, 0x301));
    assert_eq!(p[3], Action::Write(Reg::Pllctl1, 0x3F05_7700));
    assert_eq!(p[4], Action::Write(Reg::Pllctl2, 0x3FC0_723D));
    assert_eq!(p[5], Action::Write(Reg::Pllctl3, 0x3F05_7700));
    assert_eq!(p[6], Action::Write(Reg::Csdisclr, 0x42));
    // PLL1 and PLL2 disabled: every other source must be valid
    assert!(pll_locked(0xBD, 0x42));
    assert!(!pll_locked(0x3D, 0x42));
    assert!(pll_locked(0xFF, 0x00));
    assert!(!pll_locked(0xFE, 0x00));
}

#[test]
fn clock_selection_and_dividers() {
    let sys = Sys::new();
    let c = sys.setup_clock_source(SysClockSources::Pll1, SysClockSources::Pll1, SysClockSources::Pll1);
    assert_eq!(c[0], Action::Write(Reg::Ghvsrc, 0x0101_0001));
    assert_eq!(c[1], Action::Write(Reg::Rclksrc, 0x0109_0109));
    assert_eq!(c[2], Action::Write(Reg::Vclkasrc, 0x0909));
    assert_eq!(c[3], Action::Write(Reg::Vclkacon1, 0x0009_0009));
    let d = sys.peripherals_clock_divider(1, 2, 3, 4);
    assert_eq!(d[0], Action::Modify(Reg::Clkcntl, 0xF0FF_FFFF, 0x0100_0000));
    assert_eq!(d[1], Action::Modify(Reg::Clkcntl, 0xFFF0_FFFF, 0x0002_0000));
    assert_eq!(d[2], Action::Modify(Reg::Clc2cntl, 0xFFFF_F0F0, 0x0304));
    let pd = sys.set_pll_divider(0, 1);
    assert_eq!(pd[0], Action::Modify(Reg::Pllctl1, 0xE0FF_FFFF, 0));
    assert_eq!(pd[1], Action::Modify(Reg::Pllctl3, 0xE0FF_FFFF, 0x0100_0000));
    assert_eq!(modified(0x3F05_7700, 0xE0FF_FFFF, 0), 0x2005_7700);
    assert_eq!(
        sys.clock_domain_setup(true, ClockDomains::VClk3),
        Action::Write(Reg::Cddisclr, 0x100)
    );
    assert_eq!(
        sys.power_down(SleepMode::Doze),
        vec![Action::Write(Reg::Csdisset, 0x02), Action::Write(Reg::Cddis, 0xF3F)]
    );
}

#[test]
fn lpo_trim_choice() {
    let sys = Sys::new();
    assert_eq!(sys.trim_lpo(0x0012_0000), Action::Write(Reg::Lpomonctl, 0x0100_0012));
    assert_eq!(sys.trim_lpo(0xFFFF_0000), Action::Write(Reg::Lpomonctl, 0x0100_0010));
    assert_eq!(lpo_trim_value(0x0012_0000), 0x12);
    assert!(lpo_trim_available(0x0012_0000));
    assert!(!lpo_trim_available(0x00FF_1234));
}

#[test]
fn memory_init_and_pbist() {
    let sys = Sys::new();
    let m = sys.init_memory(Ram::Internal.mask() | Ram::Vim.mask());
    assert_eq!(
        m,
        vec![
            Action::Write(Reg::Minitgcr, 0xA),
            Action::Write(Reg::Msinena, 0x5),
            Action::WaitAllSet(Reg::Mstcgstat, 0x100),
            Action::Write(Reg::Minitgcr, 0x5),
        ]
    );
    let r = sys.pbist_run(0x3, 0x1);
    assert_eq!(r.len(), 12);
    assert_eq!(r[6], Action::Write(Reg::PbistAlgo, 0x3));
    assert_eq!(r[11], Action::Write(Reg::PbistDlr, 0x14));
    assert!(sys.pbist_fail(0x10));
    assert!(!sys.pbist_fail(0));
    assert!(sys.pbist_completed(0x1));
    assert_eq!(sys.pbist_self_test().len(), 9);
    assert_eq!(sys.die_id(0xFFFF_FFFF, 0xFFFF_FFFF), (0x003F_FFFF, 0x00FF_FFFF));
}

#[test]
fn flash_setup_values() {
    let f = Flash::new().setup(FlashWPowerModes::Active, 3, true, true);
    assert_eq!(
        f,
        vec![
            Action::Write(Reg::FlashFrdcntl, 0x311),
            Action::Write(Reg::FlashFsmwrena, 0x5),
            Action::Write(Reg::FlashEepromconfig, 0x0003_0002),
            Action::Write(Reg::FlashFsmwrena, 0xA),
            Action::Write(Reg::FlashFbfallback, 0xC00F),
        ]
    );
    let g = Flash::new().setup(FlashWPowerModes::Standby, 0x1F, false, false);
    assert_eq!(g[0], Action::Write(Reg::FlashFrdcntl, 0xF00));
    assert_eq!(
        Flash::new().diag_mode(DiagModes::AdressTagRegisterTest),
        Action::Modify(Reg::FlashFdiagctrl, 0xFFFF_FFFF, 5)
    );
}

#[test]
fn vim_channels() {
    let vim = Vim::new();
    assert_eq!(
        vim.set_type(33, VimType::FirInterrupt),
        Some(Action::Modify(Reg::VimFirqpr(1), 0xFFFF_FFFF, 0x2))
    );
    assert_eq!(
        vim.set_type(2, VimType::SysInterrupt),
        Some(Action::Modify(Reg::VimFirqpr(0), !0x4, 0))
    );
    assert_eq!(vim.set_type(128, VimType::SysInterrupt), None);
    assert_eq!(vim.interrupt_enable(64, true), Some(Action::Write(Reg::VimReqmaskset(2), 0x1)));
    assert_eq!(vim.interrupt_enable(200, true), None);
    assert_eq!(vim.isr_set(2, 0x1000), None);
    assert_eq!(vim.isr_set(3, 0x1000), Some(Action::Write(Reg::VimTable(3), 0x1000)));
}

#[test]
fn parity_fallback_handler() {
    let vim = Vim::new();
    // FIQ index 1: the ESM high-priority interrupt, reporting channel 11
    assert_eq!(
        vim.default_parity_fallback_handler(1, 0, 12),
        vec![
            Action::Write(Reg::VimParflg, 0x1),
            Action::Write(Reg::VimIntreq(0), 0x1),
            Action::Write(Reg::EsmSr1(0), 0x800),
        ]
    );
    assert_eq!(
        vim.default_parity_fallback_handler(0, 41, 0),
        vec![
            Action::Write(Reg::VimParflg, 0x1),
            Action::Write(Reg::VimReqmaskclr(1), 0x100),
            Action::Write(Reg::VimReqmaskset(1), 0x100),
        ]
    );
    assert_eq!(vim.default_parity_fallback_handler(0, 0, 0).len(), 1);
}

#[test]
fn tcram_and_sysexc() {
    let t = Tcram::new(TcRamID::Two);
    assert!(t.ecc_write_enabled(0x80));
    assert!(!t.ecc_write_enabled(0x7F));
    assert_eq!(t.clear_error(), Action::Write(Reg::TcramErrStatus(TcRamID::Two), 0x20));
    assert_eq!(t.control_register(), Reg::TcramCtrl(TcRamID::Two));
    assert!(SysException::power_on(0x8000));
    assert!(SysException::wd_iecpick_reset(0x2000));
    assert!(!SysException::sw_reset(0x0020));
    assert!(SysException::external(0x0008));
    assert_eq!(SysException::clear(Reset::OscFailure), Action::Write(Reg::SysEsr, 0x4000));
    assert_eq!(SysException::clear_all(), Action::Write(Reg::SysEsr, 0xffff));
}

#[test]
fn stc_self_check_sequence() {
    let r = Stc::new().self_test(24, true);
    assert_eq!(r[0], Action::Write(Reg::Stcclkdiv, 0x0100_0000));
    assert_eq!(r[1], Action::Write(Reg::StcGcr0, 24 << 16));
    assert_eq!(r[2], Action::Modify(Reg::StcGcr0, 0xFFFF_FFFF, 0x1));
    assert_eq!(r[3], Action::Write(Reg::StcScscr, 0x1A));
    assert_eq!(r[4], Action::Write(Reg::StcTpr, 0xFFFF_FFFF));
    assert_eq!(r[7], Action::Core(CoreOp::WaitForInterrupt));
    assert_eq!(r.len(), 12);
    let c = Stc::new().cpu_self_test(1, 0x100, false);
    assert_eq!(c[1], Action::Write(Reg::StcTpr, 0x100));
    assert_eq!(c.len(), 9);
}

#[test]
fn pmu_and_termination() {
    assert_eq!(overflow(), 0);
    assert_eq!(PmuEvent::CycleCount.number(), 0x11);
    assert_eq!(PmuEvent::TcmCorEccErrorAxiSlave.number(), 0x6D);
    assert_eq!(().report(), 0);
}

#[test]
fn pin_setup_unlocks_configures_and_locks() {
    let r = Iomm::new().setup_pins(&[PinMux::I2C_SDA, PinMux::GIOB3]);
    assert_eq!(
        r,
        vec![
            Action::Write(Reg::IommKicker0, 0x83E7_0B13),
            Action::Write(Reg::IommKicker1, 0x95A4_F1E0),
            Action::Modify(Reg::IommPinmmr(0), !(0xFF << 24), 1 << 25),
            Action::Modify(Reg::IommPinmmr(0), !0xFF, 1),
            Action::Write(Reg::IommKicker0, 0),
            Action::Write(Reg::IommKicker1, 0),
        ]
    );
    assert_eq!(Iomm::new().setup_pins(&[]).len(), 4);
}

#[test]
fn power_domains_enabled() {
    let r = Pcr::new().enable_all();
    assert_eq!(r.len(), 4);
    assert_eq!(r[3], Action::Write(Reg::PcrPspwrdwnclr(3), 0xFFFF_FFFF));
}

#[test]
fn pmu_counter_reset_bits() {
    assert_eq!(tms570::pmu::Counter::Event.reset_mask(), 0x2);
    assert_eq!(tms570::pmu::Counter::Cycle.reset_mask(), 0x4);
    assert_eq!(tms570::pmu::Counter::Both.reset_mask(), 0x6);
}
