//! Startup orchestrator: from reset to the application entry point.
//!
//! The sequence is linear with fatal gates and no retries: every failed integrity
//! check halts, since this code runs before any recovery infrastructure exists.

use vstd::prelude::*;
use crate::dwd::{DWD, time_violation_spec};
use crate::esm::{Esm, channel_of, status_bit_spec, status_reg_spec};
use crate::esm_ch::EsmError;
use crate::flash::{Flash, FlashWPowerModes};
use crate::pbist;
use crate::pcr::Pcr;
use crate::reg::{Action, CoreOp, Next, Reg, bit_set};
use crate::rti::ChipWatchDog;
use crate::sysexc::{Reset, SysException};
use crate::pcr::enable_all_spec;
use crate::flash::flash_setup_spec;
use crate::system::{
    ClockSupervisorTest, Ram, Sys, SysClockSources, clock_test_start_state, clock_test_step_spec,
    eclk_functional_mode_spec, init_memory_spec, lpo_choice_spec, pbist_stop_spec,
    peripherals_clock_divider_spec, set_pll_divider_spec, setup_clock_source_spec, setup_pll_spec,
    CLKTEST_SUPERVISOR,
};
use crate::vim::Vim;

verus! {

/// eFuse controller pin bit: self-test done.
pub const EFC_SELF_TEST_DONE: u32 = 0x8000;

/// eFuse controller pin bit: self-test error.
pub const EFC_SELF_TEST_ERROR: u32 = 0x4000;

/// Memory groups of the SRAM self-test: ESRAM1, ESRAM5, ESRAM6 and ESRAM8.
pub const PBIST_SRAM_GROUPS: u32 = pbist::ESRAM1 | pbist::ESRAM5 | pbist::ESRAM6 | pbist::ESRAM8;

/// Build- and board-time choices of the startup sequence.
#[derive(Clone, Copy, Debug, PartialEq, Eq, Structural)]
pub struct StartupConfig {
    /// The core has a floating-point unit to enable.
    pub vfp: bool,
    /// Apply the Cortex-R4 erratum 57 workaround.
    pub errata57: bool,
    /// Apply the Cortex-R4 erratum 66 workaround.
    pub errata66: bool,
    /// Run PBIST on the PBIST ROM and the STC ROM.
    pub pbist_rom: bool,
    /// Run PBIST on the SRAM banks.
    pub pbist_ram: bool,
    /// Debug build: the SRAM self-test is skipped, as it disturbs the stack.
    pub debug: bool,
}

/// Why the startup sequence halted.
#[derive(Clone, Copy, Debug, PartialEq, Eq, Structural)]
pub enum Fatal {
    /// eFuse content (analog trims) did not load.
    EfuseAutoload,
    /// eFuse controller self-test incomplete or failed.
    EfuseSelfTest,
    /// The clock supervisor did not detect the forced oscillator failure.
    ClockSupervisor,
    PbistRom,
    PbistStcRom,
    PbistRam,
}

/// The reset cause that the sequence recognised.
#[derive(Clone, Copy, Debug, PartialEq, Eq, Structural)]
pub enum ResetCause {
    PowerOn,
    OscFailure,
    /// The watchdog-or-debugger flag with a time violation in the watchdog status.
    WatchdogViolation,
    /// The watchdog-or-debugger flag without a time violation: a debugger reset.
    DebuggerReset,
    CpuReset,
    SoftwareReset,
    External,
}

/// What the sequence needs next.
#[derive(Clone, Copy, Debug, PartialEq, Eq, Structural)]
pub enum StartupNext {
    /// The value of this register, handed to `Startup::resume`.
    Read(Reg),
    /// Stop: disable interrupts and spin forever.
    Halt(Fatal),
    /// Call the application entry point.
    Run,
}

/// The accesses to perform, in order, then what is needed next.
pub struct StartupStep {
    pub actions: Vec<Action>,
    pub next: StartupNext,
}

/// Where the sequence stands; each waiting phase names the register it waits for.
#[derive(Clone, Copy, Debug, PartialEq, Eq, Structural)]
pub enum Phase {
    /// Waiting for the exception status register.
    ResetCause,
    /// Waiting for the watchdog status register.
    WatchdogStatus,
    /// Waiting for the ESM register of the eFuse autoload channel.
    EfuseAutoload,
    /// Waiting for the eFuse controller pins.
    EfuseSelfTest,
    /// Waiting for the OTP LPO trim word.
    LpoTrim,
    /// The clock-supervisor test runs.
    ClockTest,
    /// Waiting for the PBIST fail status of the PBIST ROM run.
    PbistRom,
    /// Waiting for the PBIST fail status of the STC ROM run.
    PbistStcRom,
    /// Waiting for the PBIST fail status of the SRAM run.
    PbistRam,
    Halted,
    Running,
}

/// A write that speeds the clocks up: reprogramming a PLL output divider or a
/// peripheral clock divider, or switching a clock-source selection.
pub open spec fn is_speedup(a: Action) -> bool {
    match a {
        Action::Modify(r, keep, _) => ((r == Reg::Pllctl1 || r == Reg::Pllctl3) && keep == 0xE0FF_FFFFu32)
            || r == Reg::Clc2cntl || (r == Reg::Clkcntl && (keep == 0xF0FF_FFFFu32 || keep
            == 0xFFF0_FFFFu32)),
        Action::Write(r, _) => r == Reg::Ghvsrc || r == Reg::Vclkasrc || r == Reg::Rclksrc || r
            == Reg::Vclkacon1,
        _ => false,
    }
}

/// The flash wait-state programming write.
pub open spec fn is_flash_setup(a: Action) -> bool {
    a matches Action::Write(Reg::FlashFrdcntl, _)
}

/// A step of the final setup before the application: the RAM ECC and VIM RAM
/// parity enables, vectored IRQ mode, and the data-section initialisation.
pub open spec fn is_final_setup(a: Action) -> bool {
    a == Action::Core(CoreOp::RamEccEnable) || a matches Action::Write(Reg::VimParflg, _) || a
        == Action::Core(CoreOp::IrqVicEnable) || a == Action::Core(CoreOp::ZeroBss) || a
        == Action::Core(CoreOp::CopyData)
}

pub open spec fn no_speedup(s: Seq<Action>) -> bool {
    forall|i: int| 0 <= i < s.len() ==> !is_speedup(#[trigger] s[i])
}

/// No step of the final setup in the accesses.
pub open spec fn no_final_setup(s: Seq<Action>) -> bool {
    forall|i: int| 0 <= i < s.len() ==> !is_final_setup(#[trigger] s[i])
}

/// Every speed-up write in the trace comes after a flash wait-state write.
pub open spec fn flash_before_speedup(s: Seq<Action>) -> bool {
    forall|i: int|
        0 <= i < s.len() && is_speedup(#[trigger] s[i]) ==> exists|j: int|
            0 <= j < i && is_flash_setup(#[trigger] s[j])
}

pub open spec fn has_flash_setup(s: Seq<Action>) -> bool {
    exists|j: int| 0 <= j < s.len() && is_flash_setup(#[trigger] s[j])
}

/// Phases reached only after the flash wait states were programmed.
pub open spec fn after_flash(p: Phase) -> bool {
    match p {
        Phase::LpoTrim | Phase::ClockTest | Phase::PbistRom | Phase::PbistStcRom | Phase::PbistRam
        | Phase::Running => true,
        _ => false,
    }
}

/// Accesses of one PBIST phase: stop the PBIST clocks, clear the done flag, run,
/// and wait until done.
pub open spec fn pbist_phase_spec(algo: u32, memories: u32) -> Seq<Action> {
    seq![Action::Write(Reg::PbistPact, 0x0), Action::Write(Reg::Mstcgstat, 0x1)]
        + crate::system::pbist_run_spec(algo, memories) + seq![Action::WaitAllSet(Reg::Mstcgstat, 0x1)]
}

/// Accesses of `Startup::new`: core registers of every mode, stack pointers,
/// event-bus export, then the configured errata workarounds.
pub open spec fn new_actions_spec(cfg: StartupConfig) -> Seq<Action> {
    seq![
        Action::Core(CoreOp::InitCoreRegisters),
        Action::Core(CoreOp::InitStackPointers),
        Action::Core(CoreOp::EventBusExportEnable),
    ] + (if cfg.errata57 { seq![Action::Core(CoreOp::Errata57)] } else { Seq::empty() }) + (if cfg.errata66 {
        seq![Action::Core(CoreOp::Errata66)]
    } else {
        Seq::empty()
    })
}

/// State of a sequence that has just begun.
pub open spec fn initial_state(cfg: StartupConfig) -> Startup {
    Startup {
        cfg,
        phase: Phase::ResetCause,
        cause: None,
        fatal: Fatal::EfuseAutoload,
        flash_programmed: false,
        clock_test: clock_test_start_state(),
    }
}

/// ESM register holding the eFuse autoload channel, and its bit.
pub open spec fn efuse_autoload_reg() -> Reg {
    status_reg_spec(channel_of(EsmError::EfuseAutoload))
}

pub open spec fn efuse_autoload_bit() -> u32 {
    status_bit_spec(channel_of(EsmError::EfuseAutoload))
}

/// After a clear eFuse autoload channel: PLL setup (lock not yet waited for), then
/// the start of the eFuse controller self-test, waiting until it ends.
pub open spec fn pll_and_efuse_spec() -> Seq<Action> {
    setup_pll_spec() + seq![
        Action::Write(Reg::EfcSelfTestCycles, 0x258),
        Action::Write(Reg::EfcSelfTestSign, 0x5362_F97F),
        Action::Write(Reg::EfcBoundary, 0x0000_200F),
        Action::WaitAnySet(Reg::EfcPins, EFC_SELF_TEST_DONE | EFC_SELF_TEST_ERROR),
    ]
}

/// The eFuse self-test passed: it is done and reports no error.
pub open spec fn efuse_ok(pins: u32) -> bool {
    pins & EFC_SELF_TEST_DONE != 0 && pins & EFC_SELF_TEST_ERROR == 0
}

/// After a passing eFuse self-test: peripheral clocks gated off around the power-up
/// of every peripheral power domain, then the flash wait states and bank power.
pub open spec fn power_and_flash_spec() -> Seq<Action> {
    seq![Action::Modify(Reg::Clkcntl, 0xFFFF_FEFF, 0)] + enable_all_spec() + seq![
        Action::Modify(Reg::Clkcntl, 0xFFFF_FFFF, 0x0000_0100),
    ] + flash_setup_spec(FlashWPowerModes::Active, 3, true, true)
}

/// Clock bring-up on the OTP trim word: LPO trim, all clock domains on, wait for
/// PLL lock, then switch the clocks to PLL1, set the peripheral dividers, drop the
/// PLL output dividers to their final value, ECLK in functional mode; and enter the
/// clock-supervisor test.
pub open spec fn clock_bringup_spec(otp_word: u32) -> Seq<Action> {
    seq![
        Action::Write(Reg::Lpomonctl, (0x1u32 << 24) | lpo_choice_spec(otp_word)),
        Action::Write(Reg::Cddis, 0x0),
        Action::WaitPllLock,
    ] + setup_clock_source_spec(SysClockSources::Pll1, SysClockSources::Pll1, SysClockSources::Pll1)
        + peripherals_clock_divider_spec(1, 1, 0, 0) + set_pll_divider_spec(0, 0)
        + eclk_functional_mode_spec(7, false) + seq![
        Action::Modify(Reg::Clktest, 0xFFFF_FFFF, CLKTEST_SUPERVISOR),
    ]
}

/// Last accesses before the application: RAM ECC, VIM RAM parity, hardware
/// initialisation of internal and VIM RAM, vectored IRQ mode, the FPU if present,
/// and only then the data sections.
pub open spec fn finish_spec(cfg: StartupConfig) -> Seq<Action> {
    seq![Action::Core(CoreOp::RamEccEnable), Action::Write(Reg::VimParflg, 0xA)] + init_memory_spec(0x5)
        + seq![Action::Core(CoreOp::IrqVicEnable)] + (if cfg.vfp {
        seq![Action::Core(CoreOp::VfpEnable)]
    } else {
        Seq::empty()
    }) + seq![Action::Core(CoreOp::ZeroBss), Action::Core(CoreOp::CopyData)]
}

/// Algorithms of the ROM self-tests.
pub open spec fn rom_algos() -> u32 {
    pbist::TRIPLEREADSLOW | pbist::TRIPLEREADFAST
}

/// After the ROM self-tests: the SRAM test when configured outside a debug build,
/// else protection and the application.
pub open spec fn after_rom_tests_spec(s: Startup) -> (Startup, Seq<Action>, StartupNext) {
    if s.cfg.pbist_ram && !s.cfg.debug {
        (
            Startup { phase: Phase::PbistRam, ..s },
            pbist_phase_spec(pbist::MARCH13N_SP, PBIST_SRAM_GROUPS),
            StartupNext::Read(Reg::PbistFsrf0),
        )
    } else {
        (Startup { phase: Phase::Running, ..s }, finish_spec(s.cfg), StartupNext::Run)
    }
}

/// After a passing clock-supervisor test: the PBIST ROM test when configured, else
/// on as after the ROM tests.
pub open spec fn after_clock_test_spec(s: Startup) -> (Startup, Seq<Action>, StartupNext) {
    if s.cfg.pbist_rom {
        (
            Startup { phase: Phase::PbistRom, ..s },
            pbist_phase_spec(rom_algos(), pbist::PBIST_ROM),
            StartupNext::Read(Reg::PbistFsrf0),
        )
    } else {
        after_rom_tests_spec(s)
    }
}

pub open spec fn halt_spec(s: Startup, f: Fatal) -> (Startup, Seq<Action>, StartupNext) {
    (Startup { phase: Phase::Halted, fatal: f, ..s }, Seq::empty(), StartupNext::Halt(f))
}

/// Moving on to the eFuse autoload check with the reset cause recognised.
pub open spec fn to_efuse_spec(s: Startup, cause: ResetCause, acts: Seq<Action>) -> (Startup, Seq<Action>, StartupNext) {
    (
        Startup { phase: Phase::EfuseAutoload, cause: Some(cause), ..s },
        acts,
        StartupNext::Read(efuse_autoload_reg()),
    )
}

/// One step of the startup sequence on the value read: the next state, the
/// accesses, and what is needed next.
pub open spec fn startup_step_spec(s: Startup, value: u32) -> (Startup, Seq<Action>, StartupNext) {
    match s.phase {
        Phase::ResetCause => if value & 0x8000 != 0 {
            to_efuse_spec(s, ResetCause::PowerOn, seq![Action::Write(Reg::SysEsr, 0xffff)])
        } else if value & 0x4000 != 0 {
            to_efuse_spec(s, ResetCause::OscFailure, Seq::empty())
        } else if value & 0x2000 != 0 {
            (Startup { phase: Phase::WatchdogStatus, ..s }, Seq::empty(), StartupNext::Read(Reg::RtiWdstatus))
        } else if value & 0x0020 != 0 {
            to_efuse_spec(s, ResetCause::CpuReset, seq![Action::Write(Reg::SysEsr, 0x0020)])
        } else if value & 0x0010 != 0 {
            to_efuse_spec(s, ResetCause::SoftwareReset, seq![Action::Write(Reg::SysEsr, 0x0010)])
        } else {
            to_efuse_spec(s, ResetCause::External, Seq::empty())
        },
        Phase::WatchdogStatus => to_efuse_spec(
            s,
            if time_violation_spec(value) {
                ResetCause::WatchdogViolation
            } else {
                ResetCause::DebuggerReset
            },
            seq![Action::Write(Reg::SysEsr, 0x2000)],
        ),
        Phase::EfuseAutoload => if bit_set(value, efuse_autoload_bit()) {
            halt_spec(s, Fatal::EfuseAutoload)
        } else {
            (Startup { phase: Phase::EfuseSelfTest, ..s }, pll_and_efuse_spec(), StartupNext::Read(Reg::EfcPins))
        },
        Phase::EfuseSelfTest => if !efuse_ok(value) {
            halt_spec(s, Fatal::EfuseSelfTest)
        } else {
            (
                Startup { phase: Phase::LpoTrim, flash_programmed: true, ..s },
                power_and_flash_spec(),
                StartupNext::Read(Reg::OtpLpoTrim),
            )
        },
        Phase::LpoTrim => (
            Startup { phase: Phase::ClockTest, clock_test: clock_test_start_state(), ..s },
            clock_bringup_spec(value),
            StartupNext::Read(Reg::Ghvsrc),
        ),
        Phase::ClockTest => {
            let (t, a, n) = clock_test_step_spec(s.clock_test, value);
            let s1 = Startup { clock_test: t, ..s };
            match n {
                Next::Read(r) => (s1, a, StartupNext::Read(r)),
                Next::Done(passed) => if passed {
                    let (s2, b, n2) = after_clock_test_spec(s1);
                    (s2, a + b, n2)
                } else {
                    (
                        Startup { phase: Phase::Halted, fatal: Fatal::ClockSupervisor, ..s1 },
                        a,
                        StartupNext::Halt(Fatal::ClockSupervisor),
                    )
                },
            }
        },
        Phase::PbistRom => if value != 0 {
            halt_spec(s, Fatal::PbistRom)
        } else {
            (
                Startup { phase: Phase::PbistStcRom, ..s },
                pbist_stop_spec() + pbist_phase_spec(rom_algos(), pbist::STC_ROM),
                StartupNext::Read(Reg::PbistFsrf0),
            )
        },
        Phase::PbistStcRom => if value != 0 {
            halt_spec(s, Fatal::PbistStcRom)
        } else {
            let (s2, b, n2) = after_rom_tests_spec(s);
            (s2, pbist_stop_spec() + b, n2)
        },
        Phase::PbistRam => if value != 0 {
            halt_spec(s, Fatal::PbistRam)
        } else {
            (Startup { phase: Phase::Running, ..s }, pbist_stop_spec() + finish_spec(s.cfg), StartupNext::Run)
        },
        Phase::Halted => (s, Seq::empty(), StartupNext::Halt(s.fatal)),
        Phase::Running => (s, Seq::empty(), StartupNext::Run),
    }
}

/// A run from state `s`, with `done` the accesses so far and `next` what the last
/// step asked for: each read asked for takes the next value, until a step asks for
/// no register or the values run out.
pub open spec fn run_from(s: Startup, done: Seq<Action>, next: StartupNext, reads: Seq<u32>) -> (Seq<Action>, StartupNext)
    decreases reads.len(),
{
    if reads.len() == 0 || !(next is Read) {
        (done, next)
    } else {
        let (s2, a, n2) = startup_step_spec(s, reads[0]);
        run_from(s2, done + a, n2, reads.drop_first())
    }
}

/// The accesses and final request of a whole startup run on the given reads.
pub open spec fn startup_run_spec(cfg: StartupConfig, reads: Seq<u32>) -> (Seq<Action>, StartupNext) {
    run_from(initial_state(cfg), new_actions_spec(cfg), StartupNext::Read(Reg::SysEsr), reads)
}

/// The startup sequence.
pub struct Startup {
    pub cfg: StartupConfig,
    pub phase: Phase,
    /// Recognised reset cause, once read.
    pub cause: Option<ResetCause>,
    /// Why the sequence halted (meaningful once halted).
    pub fatal: Fatal,
    /// Whether the flash wait states have been programmed.
    pub flash_programmed: bool,
    /// The clock-supervisor test, while it runs.
    pub clock_test: ClockSupervisorTest,
}

impl Startup {
    /// Consistency of the state: the phases after flash programming have it done.
    pub open spec fn wf(&self) -> bool {
        after_flash(self.phase) ==> self.flash_programmed
    }

    /// Begin after reset: initialise the core registers of every mode, the stack
    /// pointers, event-bus export, and the configured errata workarounds; then ask
    /// for the reset cause.
    pub fn new(cfg: StartupConfig) -> (r: (Startup, StartupStep))
        ensures
            r.0 == initial_state(cfg),
            r.1.actions@ == new_actions_spec(cfg),
            r.0.wf(),
            r.0.cfg == cfg,
            r.0.phase == Phase::ResetCause,
            !r.0.flash_programmed,
            r.1.next == StartupNext::Read(Reg::SysEsr),
            no_speedup(r.1.actions@),
            no_final_setup(r.1.actions@),
            !has_flash_setup(r.1.actions@),
            r.1.actions@.len() >= 3,
            r.1.actions@[0] == Action::Core(CoreOp::InitCoreRegisters),
            r.1.actions@[1] == Action::Core(CoreOp::InitStackPointers),
            r.1.actions@[2] == Action::Core(CoreOp::EventBusExportEnable),
    {
        let mut actions: Vec<Action> = Vec::new();
        actions.push(Action::Core(CoreOp::InitCoreRegisters));
        actions.push(Action::Core(CoreOp::InitStackPointers));
        actions.push(Action::Core(CoreOp::EventBusExportEnable));
        if cfg.errata57 {
            actions.push(Action::Core(CoreOp::Errata57));
        }
        if cfg.errata66 {
            actions.push(Action::Core(CoreOp::Errata66));
        }
        proof {
            assert forall|i: int| 0 <= i < actions@.len() implies #[trigger] actions@[i] matches Action::Core(_) by {}
            assert(actions@ =~= new_actions_spec(cfg));
        }
        let (clock_test, _) = ClockSupervisorTest::start();
        (
            Startup {
                cfg,
                phase: Phase::ResetCause,
                cause: None,
                fatal: Fatal::EfuseAutoload,
                flash_programmed: false,
                clock_test,
            },
            StartupStep { actions, next: StartupNext::Read(Reg::SysEsr) },
        )
    }

    fn halt(&mut self, fatal: Fatal) -> (r: StartupStep)
        requires
            old(self).wf(),
        ensures
            (*final(self), r.actions@, r.next) == halt_spec(*old(self), fatal),
            final(self).wf(),
            final(self).phase == Phase::Halted,
            final(self).fatal == fatal,
            final(self).cfg == old(self).cfg,
            final(self).flash_programmed == old(self).flash_programmed,
            r.actions@.len() == 0,
            r.next == StartupNext::Halt(fatal),
    {
        self.phase = Phase::Halted;
        self.fatal = fatal;
        StartupStep { actions: Vec::new(), next: StartupNext::Halt(fatal) }
    }

    /// Ask for the eFuse autoload channel.
    fn to_efuse_autoload(&mut self, actions: Vec<Action>) -> (r: StartupStep)
        requires
            old(self).wf(),
        ensures
            *final(self) == (Startup { phase: Phase::EfuseAutoload, ..*old(self) }),
            final(self).wf(),
            final(self).phase == Phase::EfuseAutoload,
            final(self).cfg == old(self).cfg,
            final(self).flash_programmed == old(self).flash_programmed,
            final(self).cause == old(self).cause,
            r.actions@ == actions@,
            r.next == StartupNext::Read(status_reg_spec(channel_of(EsmError::EfuseAutoload))),
    {
        self.phase = Phase::EfuseAutoload;
        StartupStep { actions, next: StartupNext::Read(Esm::status_register(EsmError::EfuseAutoload)) }
    }

    /// Go on with the value of the register asked for.
    #[verifier::rlimit(60)]
    pub fn resume(&mut self, value: u32) -> (r: StartupStep)
        requires
            old(self).wf(),
        ensures
            (*final(self), r.actions@, r.next) == startup_step_spec(*old(self), value),
            final(self).wf(),
            final(self).cfg == old(self).cfg,
            old(self).flash_programmed ==> final(self).flash_programmed,
            // flash wait states are programmed before the clocks speed up
            forall|i: int|
                0 <= i < r.actions@.len() && is_speedup(#[trigger] r.actions@[i])
                    ==> old(self).flash_programmed,
            final(self).flash_programmed ==> old(self).flash_programmed || has_flash_setup(r.actions@),
            // the final setup is made only on the way to the application
            !no_final_setup(r.actions@) ==> r.next == StartupNext::Run,
            r.next == StartupNext::Run ==> final(self).phase == Phase::Running,
            r.next matches StartupNext::Halt(f) ==> final(self).phase == Phase::Halted && final(self).fatal == f,
            r.next matches StartupNext::Read(_) ==> final(self).phase != Phase::Halted
                && final(self).phase != Phase::Running,
            // terminal phases stay put
            old(self).phase == Phase::Halted ==> r.actions@.len() == 0 && r.next == StartupNext::Halt(old(self).fatal),
            old(self).phase == Phase::Running ==> r.actions@.len() == 0 && r.next == StartupNext::Run,
            // reset-cause dispatch
            old(self).phase == Phase::ResetCause ==> (
                if value & 0x8000 != 0 {
                    r.actions@ == seq![Action::Write(Reg::SysEsr, 0xffff)]
                        && final(self).cause == Some(ResetCause::PowerOn)
                        && final(self).phase == Phase::EfuseAutoload
                } else if value & 0x4000 != 0 {
                    r.actions@.len() == 0 && final(self).cause == Some(ResetCause::OscFailure)
                        && final(self).phase == Phase::EfuseAutoload
                } else if value & 0x2000 != 0 {
                    r.actions@.len() == 0 && r.next == StartupNext::Read(Reg::RtiWdstatus)
                        && final(self).phase == Phase::WatchdogStatus
                } else if value & 0x0020 != 0 {
                    r.actions@ == seq![Action::Write(Reg::SysEsr, 0x0020)]
                        && final(self).cause == Some(ResetCause::CpuReset)
                        && final(self).phase == Phase::EfuseAutoload
                } else if value & 0x0010 != 0 {
                    r.actions@ == seq![Action::Write(Reg::SysEsr, 0x0010)]
                        && final(self).cause == Some(ResetCause::SoftwareReset)
                        && final(self).phase == Phase::EfuseAutoload
                } else {
                    r.actions@.len() == 0 && final(self).cause == Some(ResetCause::External)
                        && final(self).phase == Phase::EfuseAutoload
                }
            ),
            old(self).phase == Phase::WatchdogStatus ==> (
                r.actions@ == seq![Action::Write(Reg::SysEsr, 0x2000)]
                    && final(self).cause == Some(
                        if time_violation_spec(value) {
                            ResetCause::WatchdogViolation
                        } else {
                            ResetCause::DebuggerReset
                        },
                    ) && final(self).phase == Phase::EfuseAutoload
            ),
            final(self).phase == Phase::EfuseAutoload ==> r.next == StartupNext::Read(
                status_reg_spec(channel_of(EsmError::EfuseAutoload)),
            ),
            // fatal gates
            old(self).phase == Phase::EfuseAutoload ==> (bit_set(
                value,
                status_bit_spec(channel_of(EsmError::EfuseAutoload)),
            ) <==> r.next == StartupNext::Halt(Fatal::EfuseAutoload)),
            old(self).phase == Phase::EfuseAutoload && bit_set(
                value,
                status_bit_spec(channel_of(EsmError::EfuseAutoload)),
            ) ==> r.actions@.len() == 0,
            old(self).phase == Phase::EfuseSelfTest ==> (
                (value & EFC_SELF_TEST_DONE == 0 || value & EFC_SELF_TEST_ERROR != 0)
                    <==> r.next == StartupNext::Halt(Fatal::EfuseSelfTest)),
            old(self).phase == Phase::PbistRom ==> (value != 0 <==> r.next == StartupNext::Halt(
                Fatal::PbistRom,
            )),
            old(self).phase == Phase::PbistStcRom ==> (value != 0 <==> r.next == StartupNext::Halt(
                Fatal::PbistStcRom,
            )),
            old(self).phase == Phase::PbistRam ==> (value != 0 <==> r.next == StartupNext::Halt(
                Fatal::PbistRam,
            )),
            (old(self).phase == Phase::PbistRom || old(self).phase == Phase::PbistStcRom
                || old(self).phase == Phase::PbistRam) && value != 0 ==> r.actions@.len() == 0,
    {
        let mut actions: Vec<Action> = Vec::new();
        match self.phase {
            Phase::ResetCause => {
                if SysException::power_on(value) {
                    // every flag is stale on a power-on reset
                    actions.push(SysException::clear_all());
                    self.cause = Some(ResetCause::PowerOn);
                } else if SysException::osc_failure(value) {
                    self.cause = Some(ResetCause::OscFailure);
                } else if SysException::wd_iecpick_reset(value) {
                    self.phase = Phase::WatchdogStatus;
                    return StartupStep { actions, next: StartupNext::Read(Reg::RtiWdstatus) };
                } else if SysException::cpu_reset(value) {
                    actions.push(SysException::clear(Reset::Cpu));
                    self.cause = Some(ResetCause::CpuReset);
                } else if SysException::sw_reset(value) {
                    actions.push(SysException::clear(Reset::Sw));
                    self.cause = Some(ResetCause::SoftwareReset);
                } else {
                    self.cause = Some(ResetCause::External);
                }
                self.to_efuse_autoload(actions)
            },
            Phase::WatchdogStatus => {
                let wd = ChipWatchDog::new();
                if wd.time_violation(value) {
                    self.cause = Some(ResetCause::WatchdogViolation);
                } else {
                    self.cause = Some(ResetCause::DebuggerReset);
                }
                actions.push(SysException::clear(Reset::WdIcePick));
                self.to_efuse_autoload(actions)
            },
            Phase::EfuseAutoload => {
                if Esm::error_is_set(EsmError::EfuseAutoload, value) {
                    return self.halt(Fatal::EfuseAutoload);
                }
                let sys = Sys::new();
                let mut pll = sys.setup_pll();
                actions.append(&mut pll);
                // start the eFuse controller ECC self-test
                actions.push(Action::Write(Reg::EfcSelfTestCycles, 0x258));
                actions.push(Action::Write(Reg::EfcSelfTestSign, 0x5362_F97F));
                actions.push(Action::Write(Reg::EfcBoundary, 0x0000_200F));
                actions.push(Action::WaitAnySet(Reg::EfcPins, EFC_SELF_TEST_DONE | EFC_SELF_TEST_ERROR));
                proof {
                    assert(no_speedup(actions@));
                    assert(no_final_setup(actions@));
                }
                self.phase = Phase::EfuseSelfTest;
                StartupStep { actions, next: StartupNext::Read(Reg::EfcPins) }
            },
            Phase::EfuseSelfTest => {
                if value & EFC_SELF_TEST_DONE == 0 || value & EFC_SELF_TEST_ERROR != 0 {
                    return self.halt(Fatal::EfuseSelfTest);
                }
                let sys = Sys::new();
                // peripherals: gate the clock around the power-domain switch
                actions.push(sys.enable_pheripherals(false));
                let mut power = Pcr::new().enable_all();
                actions.append(&mut power);
                actions.push(sys.enable_pheripherals(true));
                // flash wait states before any clock speed-up
                let flash = Flash::new();
                let mut fl = flash.setup(FlashWPowerModes::Active, 3, true, true);
                actions.append(&mut fl);
                proof {
                    assert(is_flash_setup(actions@[6]));
                    assert(no_speedup(actions@));
                    assert(no_final_setup(actions@));
                }
                self.flash_programmed = true;
                self.phase = Phase::LpoTrim;
                StartupStep { actions, next: StartupNext::Read(Reg::OtpLpoTrim) }
            },
            Phase::LpoTrim => {
                let sys = Sys::new();
                actions.push(sys.trim_lpo(value));
                actions.push(sys.clock_domain_enable_all());
                actions.push(sys.wait_pll_lock());
                let mut src = sys.setup_clock_source(
                    SysClockSources::Pll1,
                    SysClockSources::Pll1,
                    SysClockSources::Pll1,
                );
                actions.append(&mut src);
                let mut div = sys.peripherals_clock_divider(1, 1, 0, 0);
                actions.append(&mut div);
                let mut pll = sys.set_pll_divider(0, 0);
                actions.append(&mut pll);
                let mut eclk = sys.eclk_functional_mode(7, false);
                actions.append(&mut eclk);
                let (test, mut first) = sys.clock_supervisor_test();
                actions.append(&mut first.actions);
                proof {
                    assert(no_final_setup(actions@));
                }
                self.clock_test = test;
                self.phase = Phase::ClockTest;
                StartupStep { actions, next: StartupNext::Read(Reg::Ghvsrc) }
            },
            Phase::ClockTest => {
                let s = self.clock_test.resume(value);
                let mut acts = s.actions;
                proof {
                    assert(no_final_setup(acts@));
                }
                match s.next {
                    Next::Read(reg) => StartupStep { actions: acts, next: StartupNext::Read(reg) },
                    Next::Done(passed) => {
                        if !passed {
                            self.phase = Phase::Halted;
                            self.fatal = Fatal::ClockSupervisor;
                            return StartupStep {
                                actions: acts,
                                next: StartupNext::Halt(Fatal::ClockSupervisor),
                            };
                        }
                        let ghost before = acts@;
                        let st = self.after_clock_test();
                        let mut rest = st.actions;
                        let ghost added = rest@;
                        acts.append(&mut rest);
                        proof {
                            assert forall|i: int|
                                0 <= i < acts@.len() && is_final_setup(#[trigger] acts@[i]) implies st.next
                                == StartupNext::Run by {
                                if i >= before.len() {
                                    assert(acts@[i] == added[i - before.len()]);
                                } else {
                                    assert(acts@[i] == before[i]);
                                }
                            }
                        }
                        StartupStep { actions: acts, next: st.next }
                    },
                }
            },
            Phase::PbistRom => {
                if value != 0 {
                    return self.halt(Fatal::PbistRom);
                }
                let mut stop = Sys::new().pbist_stop();
                actions.append(&mut stop);
                let mut run = Startup::pbist_phase(
                    pbist::TRIPLEREADSLOW | pbist::TRIPLEREADFAST,
                    pbist::STC_ROM,
                );
                actions.append(&mut run);
                proof {
                    assert(no_final_setup(actions@));
                }
                self.phase = Phase::PbistStcRom;
                StartupStep { actions, next: StartupNext::Read(Reg::PbistFsrf0) }
            },
            Phase::PbistStcRom => {
                if value != 0 {
                    return self.halt(Fatal::PbistStcRom);
                }
                let mut stop = Sys::new().pbist_stop();
                actions.append(&mut stop);
                proof {
                    assert(no_final_setup(actions@));
                }
                let ghost before = actions@;
                let st = self.after_rom_tests();
                let mut rest = st.actions;
                let ghost added = rest@;
                actions.append(&mut rest);
                proof {
                    assert forall|i: int|
                        0 <= i < actions@.len() && is_final_setup(#[trigger] actions@[i]) implies st.next
                        == StartupNext::Run by {
                        if i >= before.len() {
                            assert(actions@[i] == added[i - before.len()]);
                        } else {
                            assert(actions@[i] == before[i]);
                        }
                    }
                }
                StartupStep { actions, next: st.next }
            },
            Phase::PbistRam => {
                if value != 0 {
                    return self.halt(Fatal::PbistRam);
                }
                let mut stop = Sys::new().pbist_stop();
                actions.append(&mut stop);
                let mut rest = self.finish();
                actions.append(&mut rest);
                self.phase = Phase::Running;
                StartupStep { actions, next: StartupNext::Run }
            },
            Phase::Halted => StartupStep { actions, next: StartupNext::Halt(self.fatal) },
            Phase::Running => StartupStep { actions, next: StartupNext::Run },
        }
    }

    /// Accesses of one PBIST phase (see `pbist_phase_spec`).
    fn pbist_phase(algo: u32, memories: u32) -> (r: Vec<Action>)
        ensures
            r@ == pbist_phase_spec(algo, memories),
            no_final_setup(r@),
    {
        let mut r: Vec<Action> = Vec::new();
        // stop the PBIST clocks and clear the done flag
        r.push(Action::Write(Reg::PbistPact, 0x0));
        r.push(Action::Write(Reg::Mstcgstat, 0x1));
        let mut run = Sys::new().pbist_run(algo, memories);
        r.append(&mut run);
        r.push(Action::WaitAllSet(Reg::Mstcgstat, 0x1));
        proof {
            assert(r@ =~= pbist_phase_spec(algo, memories));
            assert(no_final_setup(r@));
        }
        r
    }

    /// After the clock-supervisor test passed: the ROM self-tests if configured,
    /// else on to the SRAM test.
    fn after_clock_test(&mut self) -> (r: StartupStep)
        requires
            old(self).flash_programmed,
        ensures
            (*final(self), r.actions@, r.next) == after_clock_test_spec(*old(self)),
            final(self).wf(),
            final(self).cfg == old(self).cfg,
            final(self).flash_programmed,
            after_flash(final(self).phase),
            !no_final_setup(r.actions@) ==> r.next == StartupNext::Run,
            r.next == StartupNext::Run ==> final(self).phase == Phase::Running,
            r.next matches StartupNext::Read(_) ==> final(self).phase != Phase::Halted
                && final(self).phase != Phase::Running,
            !(r.next matches StartupNext::Halt(_)),
    {
        if self.cfg.pbist_rom {
            let actions = Startup::pbist_phase(
                pbist::TRIPLEREADSLOW | pbist::TRIPLEREADFAST,
                pbist::PBIST_ROM,
            );
            self.phase = Phase::PbistRom;
            StartupStep { actions, next: StartupNext::Read(Reg::PbistFsrf0) }
        } else {
            self.after_rom_tests()
        }
    }

    /// After the ROM self-tests: the SRAM self-test if configured and not a debug
    /// build, else on to protection and the application.
    fn after_rom_tests(&mut self) -> (r: StartupStep)
        requires
            old(self).flash_programmed,
        ensures
            (*final(self), r.actions@, r.next) == after_rom_tests_spec(*old(self)),
            final(self).wf(),
            final(self).cfg == old(self).cfg,
            final(self).flash_programmed,
            after_flash(final(self).phase),
            !no_final_setup(r.actions@) ==> r.next == StartupNext::Run,
            r.next == StartupNext::Run ==> final(self).phase == Phase::Running,
            r.next matches StartupNext::Read(_) ==> final(self).phase != Phase::Halted
                && final(self).phase != Phase::Running,
            !(r.next matches StartupNext::Halt(_)),
    {
        if self.cfg.pbist_ram && !self.cfg.debug {
            let actions = Startup::pbist_phase(pbist::MARCH13N_SP, PBIST_SRAM_GROUPS);
            self.phase = Phase::PbistRam;
            StartupStep { actions, next: StartupNext::Read(Reg::PbistFsrf0) }
        } else {
            let actions = self.finish();
            self.phase = Phase::Running;
            StartupStep { actions, next: StartupNext::Run }
        }
    }

    /// Last steps before the application: RAM ECC, VIM RAM parity, hardware
    /// initialisation of internal and vector RAM, vectored IRQ mode, the FPU if
    /// present, then the data sections.
    fn finish(&self) -> (r: Vec<Action>)
        ensures
            r@ == finish_spec(self.cfg),
            !no_final_setup(r@),
    {
        let sys = Sys::new();
        let mut r: Vec<Action> = Vec::new();
        r.push(Action::Core(CoreOp::RamEccEnable));
        r.push(Vim::new().parity_enable(true));
        let rams = Ram::Internal.mask() | Ram::Vim.mask();
        assert(0x1u32 | 0x4u32 == 0x5u32) by (bit_vector);
        let mut init = sys.init_memory(rams);
        r.append(&mut init);
        r.push(Action::Core(CoreOp::IrqVicEnable));
        let ghost head = r@;
        assert(head =~= seq![Action::Core(CoreOp::RamEccEnable), Action::Write(Reg::VimParflg, 0xA)]
            + init_memory_spec(0x5) + seq![Action::Core(CoreOp::IrqVicEnable)]);
        if self.cfg.vfp {
            r.push(Action::Core(CoreOp::VfpEnable));
        }
        let ghost mid = r@;
        assert(mid =~= head + (if self.cfg.vfp {
            seq![Action::Core(CoreOp::VfpEnable)]
        } else {
            Seq::empty()
        }));
        r.push(Action::Core(CoreOp::ZeroBss));
        r.push(Action::Core(CoreOp::CopyData));
        assert(is_final_setup(r@[0]));
        assert(r@ =~= mid + seq![Action::Core(CoreOp::ZeroBss), Action::Core(CoreOp::CopyData)]);
        r
    }
}

/// The fatal checks decide the outcome. A step enters the application only after
/// the last configured check passes: the clock-supervisor test when no PBIST phase
/// follows it, or the last PBIST phase with a zero fail status. A step halts for a
/// given reason only when the check of that reason sees a failure.
pub proof fn lemma_gates_decide(s: Startup, value: u32)
    ensures
        ({
            let (s2, a, n) = startup_step_spec(s, value);
            let clock = clock_test_step_spec(s.clock_test, value).2;
            let sram = s.cfg.pbist_ram && !s.cfg.debug;
            &&& n == StartupNext::Run ==> (s.phase == Phase::Running || (s.phase == Phase::ClockTest
                && clock == Next::Done(true) && !s.cfg.pbist_rom && !sram) || (s.phase
                == Phase::PbistStcRom && value == 0 && !sram) || (s.phase == Phase::PbistRam && value
                == 0))
            &&& n == StartupNext::Halt(Fatal::EfuseAutoload) && s.phase != Phase::Halted ==> s.phase
                == Phase::EfuseAutoload && bit_set(value, efuse_autoload_bit())
            &&& n == StartupNext::Halt(Fatal::EfuseSelfTest) && s.phase != Phase::Halted ==> s.phase
                == Phase::EfuseSelfTest && !efuse_ok(value)
            &&& n == StartupNext::Halt(Fatal::ClockSupervisor) && s.phase != Phase::Halted ==> s.phase
                == Phase::ClockTest && clock == Next::Done(false)
            &&& n == StartupNext::Halt(Fatal::PbistRom) && s.phase != Phase::Halted ==> s.phase
                == Phase::PbistRom && value != 0
            &&& n == StartupNext::Halt(Fatal::PbistStcRom) && s.phase != Phase::Halted ==> s.phase
                == Phase::PbistStcRom && value != 0
            &&& n == StartupNext::Halt(Fatal::PbistRam) && s.phase != Phase::Halted ==> s.phase
                == Phase::PbistRam && value != 0
        }),
{
}

/// Run the startup sequence with the register reads given in order: each read the
/// sequence asks for takes the next value. Waits are taken as satisfied. Returns
/// every access made, and what the sequence needed when it stopped: a halt, the
/// application, or a read beyond the values given. This is exactly `Startup::new`
/// followed by `Startup::resume` on each read (`startup_run_spec`).
///
/// In every run, each clock speed-up write comes after the flash wait states were
/// programmed; and unless the run reaches the application, none of the final setup
/// was made (a failed fatal check halts before the ECC and VIM parity enables,
/// vectored IRQ mode and the data sections).
pub fn run_startup(cfg: StartupConfig, reads: &Vec<u32>) -> (r: (Vec<Action>, StartupNext))
    ensures
        (r.0@, r.1) == startup_run_spec(cfg, reads@),
        flash_before_speedup(r.0@),
        r.1 != StartupNext::Run ==> no_final_setup(r.0@),
{
    let (mut st, first) = Startup::new(cfg);
    let mut trace = first.actions;
    let mut next = first.next;
    let mut i: usize = 0;
    proof {
        assert forall|k: int| 0 <= k < trace@.len() && is_speedup(#[trigger] trace@[k]) implies exists|
            j: int,
        | 0 <= j < k && is_flash_setup(#[trigger] trace@[j]) by {}
        assert(reads@.subrange(0, reads@.len() as int) =~= reads@);
    }
    while i < reads.len()
        invariant
            st.wf(),
            flash_before_speedup(trace@),
            st.flash_programmed ==> has_flash_setup(trace@),
            next != StartupNext::Run ==> no_final_setup(trace@),
            i <= reads@.len(),
            run_from(st, trace@, next, reads@.subrange(i as int, reads@.len() as int))
                == startup_run_spec(cfg, reads@),
        ensures
            i <= reads@.len(),
            run_from(st, trace@, next, reads@.subrange(i as int, reads@.len() as int))
                == startup_run_spec(cfg, reads@),
            i == reads@.len() || !(next is Read),
        decreases reads.len() - i,
    {
        if !(next matches StartupNext::Read(_)) {
            break;
        }
        let ghost rest = reads@.subrange(i as int, reads@.len() as int);
        let ghost st_old = st;
        let ghost trace_old = trace@;
        let ghost next_old = next;
        let ghost was_flash = st.flash_programmed;
        let mut s = st.resume(reads[i]);
        let ghost before = trace@;
        let ghost added = s.actions@;
        trace.append(&mut s.actions);
        next = s.next;
        proof {
            assert(trace@ == before + added);
            assert forall|k: int| 0 <= k < trace@.len() && is_speedup(#[trigger] trace@[k]) implies exists|
                j: int,
            | 0 <= j < k && is_flash_setup(#[trigger] trace@[j]) by {
                if k < before.len() {
                    assert(trace@[k] == before[k]);
                    let j = choose|j: int| 0 <= j < k && is_flash_setup(#[trigger] before[j]);
                    assert(trace@[j] == before[j]);
                } else {
                    assert(trace@[k] == added[k - before.len()]);
                    let j = choose|j: int| 0 <= j < before.len() && is_flash_setup(#[trigger] before[j]);
                    assert(trace@[j] == before[j]);
                }
            }
            if st.flash_programmed {
                if was_flash {
                    let j = choose|j: int| 0 <= j < before.len() && is_flash_setup(#[trigger] before[j]);
                    assert(trace@[j] == before[j]);
                } else {
                    let j = choose|j: int| 0 <= j < added.len() && is_flash_setup(#[trigger] added[j]);
                    assert(trace@[before.len() + j] == added[j]);
                }
            }
            if next != StartupNext::Run {
                assert forall|k: int| 0 <= k < trace@.len() implies !is_final_setup(#[trigger] trace@[k]) by {
                    if k < before.len() {
                        assert(trace@[k] == before[k]);
                    } else {
                        assert(trace@[k] == added[k - before.len()]);
                    }
                }
            }
        }
        proof {
            assert(rest[0] == reads@[i as int]);
            assert(rest.drop_first() =~= reads@.subrange(i as int + 1, reads@.len() as int));
            assert(run_from(st_old, trace_old, next_old, rest) == run_from(
                st,
                trace@,
                next,
                rest.drop_first(),
            ));
        }
        i = i + 1;
    }
    proof {
        let rest = reads@.subrange(i as int, reads@.len() as int);
        assert(rest.len() == 0 || !(next is Read));
        assert(run_from(st, trace@, next, rest) == (trace@, next));
    }
    (trace, next)
}

} // verus!
