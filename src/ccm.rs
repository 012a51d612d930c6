//! CPU compare module (lockstep comparator) and its self-test.

use vstd::prelude::*;
use crate::esm::{Esm, channel_of, clear_action_spec, status_bit_spec, status_reg_spec};
use crate::esm_ch::{EsmError, EsmGroup};
use crate::reg::{Action, Next, Reg, Step, bit_set};

verus! {

/// Self-test error flag.
pub const STE: u32 = 0x1;

/// Self-test error type flag.
pub const STET: u32 = 0x1 << 1;

/// Self-test complete flag.
pub const STC: u32 = 0x1 << 8;

/// Compare error flag.
pub const CMPE: u32 = 0x1 << 16;

/// Kind of a failed comparator self-test.
#[derive(Clone, Copy, Debug, PartialEq, Eq, Structural)]
pub enum SelfTestError {
    /// The self-test did not fail.
    NoError,
    /// Failed during the compare-match test.
    CompareMatch,
    /// Failed during the compare-mismatch test.
    CompareMismatch,
}

/// Operating modes of the comparator, selected through its key register.
#[derive(Clone, Copy, Debug, PartialEq, Eq, Structural)]
pub enum CcmMode {
    Lockstep,
    SelfTest,
    ErrorForcing,
    SelfTestErrorForcing,
}

impl CcmMode {
    pub open spec fn key_spec(self) -> u32 {
        match self {
            CcmMode::Lockstep => 0x0,
            CcmMode::SelfTest => 0x6,
            CcmMode::ErrorForcing => 0x9,
            CcmMode::SelfTestErrorForcing => 0xF,
        }
    }

    /// Key register value selecting the mode.
    pub fn key(self) -> (r: u32)
        ensures
            r == self.key_spec(),
    {
        match self {
            CcmMode::Lockstep => 0x0,
            CcmMode::SelfTest => 0x6,
            CcmMode::ErrorForcing => 0x9,
            CcmMode::SelfTestErrorForcing => 0xF,
        }
    }
}

/// Where the comparator self-test stands: each phase waits for one register.
#[derive(Clone, Copy, Debug, PartialEq, Eq, Structural)]
pub enum CcmTestPhase {
    /// Self-test mode ran; waiting for the comparator status.
    LocalStatus,
    /// Waiting for the ESM register of the comparator self-test channel.
    SelfTestChannel,
    /// Error forcing ran; waiting for the ESM register of the lockstep channel.
    LockstepChannel,
    /// Waiting for the interrupt manager's FIQ index.
    FiqIndex,
    /// Self-test error forcing ran; waiting for the self-test channel again.
    ForcedSelfTestChannel,
    Finished,
}

pub open spec fn self_test_reg() -> Reg {
    status_reg_spec(channel_of(EsmError::CCMR4SelfTest))
}

pub open spec fn self_test_bit() -> u32 {
    status_bit_spec(channel_of(EsmError::CCMR4SelfTest))
}

pub open spec fn lockstep_reg() -> Reg {
    status_reg_spec(channel_of(EsmError::CCMR4LockStep))
}

pub open spec fn lockstep_bit() -> u32 {
    status_bit_spec(channel_of(EsmError::CCMR4LockStep))
}

/// FIQ index of the high-priority ESM interrupt.
pub const FIQ_ESM_HIGH: u32 = 1;

/// Accesses made once error forcing was seen to reach the lockstep channel and the
/// high-priority ESM interrupt: clear the lockstep channel, the group-two shadow
/// status and the self-test channel, reset the error pin, then run self-test error
/// forcing and wait until the comparator is back in lockstep.
pub open spec fn ccm_forced_self_test_spec() -> Seq<Action> {
    seq![
        clear_action_spec(channel_of(EsmError::CCMR4LockStep)),
        Action::Write(Reg::EsmSsr2, 1u32 << 1u32),
        clear_action_spec(channel_of(EsmError::CCMR4SelfTest)),
        Action::Write(Reg::EsmEkr, 0x5),
        Action::Write(Reg::CcmKeyr, 0xF),
        Action::WaitEqual(Reg::CcmKeyr, 0),
    ]
}

/// The CPU compare module. Operations return the register accesses to perform;
/// status tests take the status register as read.
#[derive(Clone, Copy, Debug)]
pub struct Ccm;

impl Ccm {
    pub fn new() -> Ccm {
        Ccm
    }

    pub fn set_mode(&self, mode: CcmMode) -> (r: Action)
        ensures
            r == Action::Write(Reg::CcmKeyr, mode.key_spec()),
    {
        Action::Write(Reg::CcmKeyr, mode.key())
    }

    pub fn self_test_error(&self, ccmsr: u32) -> (r: bool)
        ensures
            r == (ccmsr & STE != 0),
    {
        ccmsr & STE != 0
    }

    /// Kind of self-test failure, given the status register as read.
    pub fn self_test_error_type(&self, ccmsr: u32) -> (r: SelfTestError)
        ensures
            ccmsr & STE == 0 ==> r == SelfTestError::NoError,
            ccmsr & STE != 0 && ccmsr & STET != STET ==> r == SelfTestError::CompareMismatch,
            ccmsr & STE != 0 && ccmsr & STET == STET ==> r == SelfTestError::CompareMatch,
    {
        if self.self_test_error(ccmsr) {
            if (ccmsr & STET) != STET {
                return SelfTestError::CompareMismatch;
            } else {
                return SelfTestError::CompareMatch;
            }
        }
        SelfTestError::NoError
    }

    /// Whether the two CPUs' signals mismatched, given the status register.
    pub fn compare_error(&self, ccmsr: u32) -> (r: bool)
        ensures
            r == (ccmsr & CMPE != 0),
    {
        ccmsr & CMPE != 0
    }

    /// Clear a compare mismatch.
    pub fn clear_error(&self) -> (r: Action)
        ensures
            r == Action::Write(Reg::CcmSr, CMPE),
    {
        Action::Write(Reg::CcmSr, CMPE)
    }

    /// Start the comparator self-test (see `CcmSelfTest`).
    pub fn self_test(&self) -> (r: (CcmSelfTest, Step))
        ensures
            r.0.phase == CcmTestPhase::LocalStatus,
            r.1.actions@ == seq![Action::Write(Reg::CcmKeyr, 0x6), Action::WaitAllSet(Reg::CcmSr, STC)],
            r.1.next == Next::Read(Reg::CcmSr),
    {
        CcmSelfTest::start()
    }
}

/// Self-test of the lockstep comparator. The self-test must complete without error
/// both in the comparator status and on the ESM self-test channel; then error
/// forcing must be detected: the ESM lockstep channel latches and the FIQ index
/// names the high-priority ESM interrupt; then self-test error forcing must leave
/// the self-test channel clear. Any deviation ends the test as failed, which the
/// caller treats as fatal.
pub struct CcmSelfTest {
    pub phase: CcmTestPhase,
    pub passed: bool,
}

impl CcmSelfTest {
    /// Enter self-test mode and wait until the self-test completes.
    pub fn start() -> (r: (CcmSelfTest, Step))
        ensures
            r.0.phase == CcmTestPhase::LocalStatus,
            r.1.actions@ == seq![Action::Write(Reg::CcmKeyr, 0x6), Action::WaitAllSet(Reg::CcmSr, STC)],
            r.1.next == Next::Read(Reg::CcmSr),
    {
        let ccm = Ccm::new();
        let mut actions: Vec<Action> = Vec::new();
        actions.push(ccm.set_mode(CcmMode::SelfTest));
        actions.push(Action::WaitAllSet(Reg::CcmSr, STC));
        (
            CcmSelfTest { phase: CcmTestPhase::LocalStatus, passed: false },
            Step { actions, next: Next::Read(Reg::CcmSr) },
        )
    }

    /// Go on with the value of the register asked for.
    pub fn resume(&mut self, value: u32) -> (r: Step)
        ensures
            old(self).phase == CcmTestPhase::LocalStatus ==> if value & STE != 0 {
                &&& final(self).phase == CcmTestPhase::Finished && !final(self).passed
                &&& r.actions@.len() == 0 && r.next == Next::Done(false)
            } else {
                &&& final(self).phase == CcmTestPhase::SelfTestChannel
                &&& r.actions@.len() == 0 && r.next == Next::Read(self_test_reg())
            },
            old(self).phase == CcmTestPhase::SelfTestChannel ==> if bit_set(value, self_test_bit()) {
                &&& final(self).phase == CcmTestPhase::Finished && !final(self).passed
                &&& r.actions@.len() == 0 && r.next == Next::Done(false)
            } else {
                &&& final(self).phase == CcmTestPhase::LockstepChannel
                &&& r.actions@ == seq![
                    Action::Write(Reg::CcmKeyr, 0x9),
                    Action::WaitEqual(Reg::CcmKeyr, 0),
                ]
                &&& r.next == Next::Read(lockstep_reg())
            },
            old(self).phase == CcmTestPhase::LockstepChannel ==> if !bit_set(value, lockstep_bit()) {
                &&& final(self).phase == CcmTestPhase::Finished && !final(self).passed
                &&& r.actions@.len() == 0 && r.next == Next::Done(false)
            } else {
                &&& final(self).phase == CcmTestPhase::FiqIndex
                &&& r.actions@.len() == 0 && r.next == Next::Read(Reg::VimFiqIndex)
            },
            old(self).phase == CcmTestPhase::FiqIndex ==> if value != FIQ_ESM_HIGH {
                &&& final(self).phase == CcmTestPhase::Finished && !final(self).passed
                &&& r.actions@.len() == 0 && r.next == Next::Done(false)
            } else {
                &&& final(self).phase == CcmTestPhase::ForcedSelfTestChannel
                &&& r.actions@ == ccm_forced_self_test_spec()
                &&& r.next == Next::Read(self_test_reg())
            },
            old(self).phase == CcmTestPhase::ForcedSelfTestChannel ==> if bit_set(value, self_test_bit()) {
                &&& final(self).phase == CcmTestPhase::Finished && !final(self).passed
                &&& r.actions@.len() == 0 && r.next == Next::Done(false)
            } else {
                &&& final(self).phase == CcmTestPhase::Finished && final(self).passed
                &&& r.actions@ == seq![clear_action_spec(channel_of(EsmError::CCMR4SelfTest))]
                &&& r.next == Next::Done(true)
            },
            old(self).phase == CcmTestPhase::Finished ==> {
                &&& *final(self) == *old(self)
                &&& r.actions@.len() == 0 && r.next == Next::Done(old(self).passed)
            },
    {
        let ccm = Ccm::new();
        let mut actions: Vec<Action> = Vec::new();
        match self.phase {
            CcmTestPhase::LocalStatus => {
                if ccm.self_test_error(value) {
                    return self.fail();
                }
                self.phase = CcmTestPhase::SelfTestChannel;
                Step { actions, next: Next::Read(Esm::status_register(EsmError::CCMR4SelfTest)) }
            },
            CcmTestPhase::SelfTestChannel => {
                // the self-test failure shows only on the ESM channel
                if Esm::error_is_set(EsmError::CCMR4SelfTest, value) {
                    return self.fail();
                }
                actions.push(ccm.set_mode(CcmMode::ErrorForcing));
                actions.push(Action::WaitEqual(Reg::CcmKeyr, 0));
                self.phase = CcmTestPhase::LockstepChannel;
                Step { actions, next: Next::Read(Esm::status_register(EsmError::CCMR4LockStep)) }
            },
            CcmTestPhase::LockstepChannel => {
                if !Esm::error_is_set(EsmError::CCMR4LockStep, value) {
                    return self.fail();
                }
                self.phase = CcmTestPhase::FiqIndex;
                Step { actions, next: Next::Read(Reg::VimFiqIndex) }
            },
            CcmTestPhase::FiqIndex => {
                if value != FIQ_ESM_HIGH {
                    return self.fail();
                }
                actions.push(Esm::clear_error(EsmError::CCMR4LockStep));
                actions.push(Esm::shadow_stat_clear(EsmGroup::Two));
                actions.push(Esm::clear_error(EsmError::CCMR4SelfTest));
                // the error pin goes inactive once the low-time counter expires
                actions.push(Esm::error_reset());
                actions.push(ccm.set_mode(CcmMode::SelfTestErrorForcing));
                actions.push(Action::WaitEqual(Reg::CcmKeyr, 0));
                proof {
                    assert(actions@ =~= ccm_forced_self_test_spec());
                }
                self.phase = CcmTestPhase::ForcedSelfTestChannel;
                Step { actions, next: Next::Read(Esm::status_register(EsmError::CCMR4SelfTest)) }
            },
            CcmTestPhase::ForcedSelfTestChannel => {
                if Esm::error_is_set(EsmError::CCMR4SelfTest, value) {
                    return self.fail();
                }
                actions.push(Esm::clear_error(EsmError::CCMR4SelfTest));
                self.phase = CcmTestPhase::Finished;
                self.passed = true;
                Step { actions, next: Next::Done(true) }
            },
            CcmTestPhase::Finished => Step { actions, next: Next::Done(self.passed) },
        }
    }

    fn fail(&mut self) -> (r: Step)
        ensures
            final(self).phase == CcmTestPhase::Finished,
            !final(self).passed,
            r.actions@.len() == 0,
            r.next == Next::Done(false),
    {
        self.phase = CcmTestPhase::Finished;
        self.passed = false;
        Step { actions: Vec::new(), next: Next::Done(false) }
    }
}

} // verus!
