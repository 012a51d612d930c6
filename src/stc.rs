//! Self-test controller: signature-based CPU self-test.

use vstd::prelude::*;
use crate::reg::{Action, CoreOp, Reg};
use crate::system::Sys;

verus! {

/// Insert a stuck-at fault in the CPU so that the signature compare fails.
pub const SCSCR_FAULT_INS: u32 = 0x1 << 4;

/// Key that enables the self-test.
pub const SCSCR_SELF_CHECK_KEY: u32 = 0xA;

/// Interval setup: the interval count, then the restart bit if asked for.
pub open spec fn intervals_spec(intervals: u16, restart: bool) -> Seq<Action> {
    let first = seq![Action::Write(Reg::StcGcr0, (intervals as u32) << 16)];
    if restart {
        first.push(Action::Modify(Reg::StcGcr0, 0xFFFF_FFFF, 0x1))
    } else {
        first
    }
}

/// Activation: wait at least 16 bus cycles, enable the self-test, idle the CPU so
/// that the test can run, and let four no-ops absorb the mode change on wake-up.
pub open spec fn activate_spec() -> Seq<Action> {
    seq![
        Action::Delay(16),
        Action::Write(Reg::StcGcr1, SCSCR_SELF_CHECK_KEY),
        Action::Core(CoreOp::WaitForInterrupt),
        Action::Core(CoreOp::Nop),
        Action::Core(CoreOp::Nop),
        Action::Core(CoreOp::Nop),
        Action::Core(CoreOp::Nop),
    ]
}

/// The self-test controller. Operations return the register accesses to perform.
#[derive(Clone, Copy, Debug)]
pub struct Stc;

impl Stc {
    pub fn new() -> Stc {
        Stc
    }

    /// Self-check of the controller: STC clock at half the CPU clock, the given
    /// intervals, comparator self-check with a stuck-at fault inserted, maximum
    /// time-out, then run.
    pub fn self_test(&self, intervals: u16, restart: bool) -> (r: Vec<Action>)
        ensures
            r@ == seq![Action::Write(Reg::Stcclkdiv, 0x0100_0000)] + intervals_spec(intervals, restart)
                + seq![
                Action::Write(Reg::StcScscr, SCSCR_FAULT_INS | SCSCR_SELF_CHECK_KEY),
                Action::Write(Reg::StcTpr, 0xFFFF_FFFF),
            ] + activate_spec(),
    {
        let mut r: Vec<Action> = Vec::new();
        r.push(Sys::new().set_stc_clock_divider(0x0100_0000));
        let mut iv = self.setup_intervals(intervals, restart);
        r.append(&mut iv);
        r.push(Action::Write(Reg::StcScscr, SCSCR_FAULT_INS | SCSCR_SELF_CHECK_KEY));
        r.push(Action::Write(Reg::StcTpr, 0xFFFF_FFFF));
        let mut act = self.activate();
        r.append(&mut act);
        r
    }

    /// CPU self-test: the given intervals from the first, with a time-out preload.
    pub fn cpu_self_test(&self, intervals: u16, timeout: u32, restart: bool) -> (r: Vec<Action>)
        ensures
            r@ == intervals_spec(intervals, restart) + seq![Action::Write(Reg::StcTpr, timeout)]
                + activate_spec(),
    {
        let mut r = self.setup_intervals(intervals, restart);
        r.push(Action::Write(Reg::StcTpr, timeout));
        let mut act = self.activate();
        r.append(&mut act);
        r
    }

    fn setup_intervals(&self, intervals: u16, restart: bool) -> (r: Vec<Action>)
        ensures
            r@ == intervals_spec(intervals, restart),
    {
        let mut r: Vec<Action> = Vec::new();
        r.push(Action::Write(Reg::StcGcr0, (intervals as u32) << 16));
        if restart {
            r.push(Action::Modify(Reg::StcGcr0, 0xFFFF_FFFF, 0x1));
        }
        r
    }

    fn activate(&self) -> (r: Vec<Action>)
        ensures
            r@ == activate_spec(),
    {
        let mut r: Vec<Action> = Vec::new();
        r.push(Action::Delay(16));
        r.push(Action::Write(Reg::StcGcr1, SCSCR_SELF_CHECK_KEY));
        r.push(Action::Core(CoreOp::WaitForInterrupt));
        r.push(Action::Core(CoreOp::Nop));
        r.push(Action::Core(CoreOp::Nop));
        r.push(Action::Core(CoreOp::Nop));
        r.push(Action::Core(CoreOp::Nop));
        r
    }
}

} // verus!
