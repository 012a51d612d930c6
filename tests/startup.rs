use tms570::reg::{Action, CoreOp, Reg};
use tms570::startup::{run_startup, Fatal, ResetCause, Startup, StartupConfig, StartupNext};

fn full_config() -> StartupConfig {
    StartupConfig {
        vfp: true,
        errata57: true,
        errata66: true,
        pbist_rom: true,
        pbist_ram: true,
        debug: false,
    }
}

const POWER_ON: u32 = 0x8000;
const EFC_DONE: u32 = 0x8000;
const OTP_TRIM: u32 = 0x0012_0000;
const SOURCES: u32 = 0x0101_0001;
const OSC_FAIL_LATCHED: u32 = 1 << 11;

fn passing_reads() -> Vec<u32> {
    vec![POWER_ON, 0, EFC_DONE, OTP_TRIM, SOURCES, OSC_FAIL_LATCHED, 0, 0, 0]
}

fn is_speedup(a: &Action) -> bool {
    match *a {
        Action::Modify(r, keep, _) => {
            ((r == Reg::Pllctl1 || r == Reg::Pllctl3) && keep == 0xE0FF_FFFF)
                || r == Reg::Clc2cntl
                || (r == Reg::Clkcntl && (keep == 0xF0FF_FFFF || keep == 0xFFF0_FFFF))
        }
        Action::Write(r, _) => {
            r == Reg::Ghvsrc || r == Reg::Vclkasrc || r == Reg::Rclksrc || r == Reg::Vclkacon1
        }
        _ => false,
    }
}

fn is_protection(a: &Action) -> bool {
    *a == Action::Core(CoreOp::RamEccEnable) || matches!(a, Action::Write(Reg::VimParflg, _))
}

fn touches(a: &Action, regs: &[Reg]) -> bool {
    match *a {
        Action::Write(r, _) | Action::Modify(r, _, _) => regs.contains(&r),
        _ => false,
    }
}

#[test]
fn full_startup_reaches_the_application() {
    let (trace, next) = run_startup(full_config(), &passing_reads());
    assert_eq!(next, StartupNext::Run);
    assert_eq!(trace[0], Action::Core(CoreOp::InitCoreRegisters));
    assert!(trace.contains(&Action::Core(CoreOp::Errata57)));
    assert!(trace.contains(&Action::Core(CoreOp::RamEccEnable)));
    assert!(trace.contains(&Action::Core(CoreOp::VfpEnable)));
    assert_eq!(*trace.last().unwrap(), Action::Core(CoreOp::CopyData));
    assert!(trace.contains(&Action::Write(Reg::Lpomonctl, 0x0100_0012)));
}

#[test]
fn flash_wait_states_precede_clock_speedup() {
    let (trace, _) = run_startup(full_config(), &passing_reads());
    let flash = trace
        .iter()
        .position(|a| matches!(a, Action::Write(Reg::FlashFrdcntl, _)))
        .unwrap();
    let first_speedup = trace.iter().position(is_speedup).unwrap();
    assert!(flash < first_speedup);
    assert_eq!(trace[flash], Action::Write(Reg::FlashFrdcntl, 0x311));
}

#[test]
fn pbist_failure_halts_before_protection() {
    let reads = vec![POWER_ON, 0, EFC_DONE, OTP_TRIM, SOURCES, OSC_FAIL_LATCHED, 0x1];
    let (trace, next) = run_startup(full_config(), &reads);
    assert_eq!(next, StartupNext::Halt(Fatal::PbistRom));
    assert!(!trace.iter().any(is_protection));
    let reads = vec![POWER_ON, 0, EFC_DONE, OTP_TRIM, SOURCES, OSC_FAIL_LATCHED, 0, 0x40];
    let (trace, next) = run_startup(full_config(), &reads);
    assert_eq!(next, StartupNext::Halt(Fatal::PbistStcRom));
    assert!(!trace.iter().any(is_protection));
    let reads = vec![POWER_ON, 0, EFC_DONE, OTP_TRIM, SOURCES, OSC_FAIL_LATCHED, 0, 0, 0x8];
    let (trace, next) = run_startup(full_config(), &reads);
    assert_eq!(next, StartupNext::Halt(Fatal::PbistRam));
    assert!(!trace.iter().any(is_protection));
}

#[test]
fn watchdog_reset_clears_its_flag_and_continues() {
    let (mut st, _) = Startup::new(full_config());
    let s = st.resume(0x2000);
    assert!(s.actions.is_empty());
    assert_eq!(s.next, StartupNext::Read(Reg::RtiWdstatus));
    let s = st.resume(0x08);
    assert_eq!(s.actions, vec![Action::Write(Reg::SysEsr, 0x2000)]);
    assert_eq!(s.next, StartupNext::Read(Reg::EsmSr1(2)));
    assert_eq!(st.cause, Some(ResetCause::WatchdogViolation));

    let (trace, next) = run_startup(full_config(), &vec![0x2000, 0x08]);
    assert_eq!(next, StartupNext::Read(Reg::EsmSr1(2)));
    let esr_writes: Vec<&Action> =
        trace.iter().filter(|a| matches!(a, Action::Write(Reg::SysEsr, _))).collect();
    assert_eq!(esr_writes, vec![&Action::Write(Reg::SysEsr, 0x2000)]);
}

#[test]
fn debugger_reset_is_told_apart() {
    let (mut st, _) = Startup::new(full_config());
    st.resume(0x2000);
    let s = st.resume(0x00);
    assert_eq!(s.actions, vec![Action::Write(Reg::SysEsr, 0x2000)]);
    assert_eq!(st.cause, Some(ResetCause::DebuggerReset));
    let (mut st, _) = Startup::new(full_config());
    st.resume(0x2000);
    st.resume(0x04);
    assert_eq!(st.cause, Some(ResetCause::DebuggerReset));
}

#[test]
fn efuse_autoload_error_halts_at_once() {
    let (trace, next) = run_startup(full_config(), &vec![POWER_ON, 0x2, 0, 0, 0]);
    assert_eq!(next, StartupNext::Halt(Fatal::EfuseAutoload));
    let (_, init) = Startup::new(full_config());
    let mut expected = init.actions;
    expected.push(Action::Write(Reg::SysEsr, 0xffff));
    assert_eq!(trace, expected);
    let clock_and_pbist = [
        Reg::Csdisset,
        Reg::Pllctl1,
        Reg::Pllctl2,
        Reg::Pllctl3,
        Reg::Ghvsrc,
        Reg::PbistPact,
        Reg::PbistDlr,
        Reg::Mstgcr,
    ];
    assert!(!trace.iter().any(|a| touches(a, &clock_and_pbist)));
}

#[test]
fn efuse_self_test_gate() {
    let (_, next) = run_startup(full_config(), &vec![POWER_ON, 0, 0]);
    assert_eq!(next, StartupNext::Halt(Fatal::EfuseSelfTest));
    let (_, next) = run_startup(full_config(), &vec![POWER_ON, 0, EFC_DONE | 0x4000]);
    assert_eq!(next, StartupNext::Halt(Fatal::EfuseSelfTest));
    let (_, next) = run_startup(full_config(), &vec![POWER_ON, 0, EFC_DONE]);
    assert_eq!(next, StartupNext::Read(Reg::OtpLpoTrim));
}

#[test]
fn clock_supervisor_failure_restores_sources_and_halts() {
    let reads = vec![POWER_ON, 0, EFC_DONE, OTP_TRIM, SOURCES, 0];
    let (trace, next) = run_startup(full_config(), &reads);
    assert_eq!(next, StartupNext::Halt(Fatal::ClockSupervisor));
    assert_eq!(*trace.last().unwrap(), Action::Write(Reg::Ghvsrc, SOURCES));
    assert!(!trace.iter().any(is_protection));
}

#[test]
fn reset_cause_dispatch() {
    let cause_of = |exc: u32| {
        let (mut st, _) = Startup::new(full_config());
        let s = st.resume(exc);
        (st.cause, s.actions)
    };
    assert_eq!(cause_of(0x8020), (Some(ResetCause::PowerOn), vec![Action::Write(Reg::SysEsr, 0xffff)]));
    assert_eq!(cause_of(0x4000), (Some(ResetCause::OscFailure), vec![]));
    assert_eq!(cause_of(0x0020), (Some(ResetCause::CpuReset), vec![Action::Write(Reg::SysEsr, 0x20)]));
    assert_eq!(
        cause_of(0x0010),
        (Some(ResetCause::SoftwareReset), vec![Action::Write(Reg::SysEsr, 0x10)])
    );
    assert_eq!(cause_of(0x0008), (Some(ResetCause::External), vec![]));
}

#[test]
fn debug_build_skips_sram_test() {
    let cfg = StartupConfig { debug: true, ..full_config() };
    let reads = vec![POWER_ON, 0, EFC_DONE, OTP_TRIM, SOURCES, OSC_FAIL_LATCHED, 0, 0];
    let (_, next) = run_startup(cfg, &reads);
    assert_eq!(next, StartupNext::Run);
}

#[test]
fn without_rom_tests_sram_comes_next() {
    let cfg = StartupConfig { pbist_rom: false, ..full_config() };
    let reads = vec![POWER_ON, 0, EFC_DONE, OTP_TRIM, SOURCES, OSC_FAIL_LATCHED];
    let (trace, next) = run_startup(cfg, &reads);
    assert_eq!(next, StartupNext::Read(Reg::PbistFsrf0));
    assert!(trace.contains(&Action::Write(Reg::PbistRinfol, 0x0830_0020)));
}

#[test]
fn terminal_phases_stay_put() {
    let (mut st, _) = Startup::new(full_config());
    st.resume(POWER_ON);
    let s = st.resume(0x2);
    assert_eq!(s.next, StartupNext::Halt(Fatal::EfuseAutoload));
    let s = st.resume(0);
    assert!(s.actions.is_empty());
    assert_eq!(s.next, StartupNext::Halt(Fatal::EfuseAutoload));
}

#[test]
fn reads_run_out() {
    let (trace, next) = run_startup(full_config(), &vec![]);
    assert_eq!(next, StartupNext::Read(Reg::SysEsr));
    assert_eq!(trace.len(), 5);
}
