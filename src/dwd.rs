//! Digital watchdog interface.

use vstd::prelude::*;
use crate::config::RTICLK1;
use crate::reg::{Action, Reg};

verus! {

/// Watchdog status codes.
#[derive(Clone, Copy, Debug, PartialEq, Eq, Structural)]
pub enum WdViolation {
    NoTimeViolation,
    KeySeqViolation,
    StartTimeWindowViolation,
    EndTimeWindowViolation,
    TimeWindowViolation,
}

impl WdViolation {
    pub open spec fn code_spec(self) -> u8 {
        match self {
            WdViolation::NoTimeViolation => 0x00,
            WdViolation::KeySeqViolation => 0x04,
            WdViolation::StartTimeWindowViolation => 0x08,
            WdViolation::EndTimeWindowViolation => 0x10,
            WdViolation::TimeWindowViolation => 0x20,
        }
    }

    /// The status code of the violation.
    pub fn code(self) -> (r: u8)
        ensures
            r == self.code_spec(),
    {
        match self {
            WdViolation::NoTimeViolation => 0x00,
            WdViolation::KeySeqViolation => 0x04,
            WdViolation::StartTimeWindowViolation => 0x08,
            WdViolation::EndTimeWindowViolation => 0x10,
            WdViolation::TimeWindowViolation => 0x20,
        }
    }
}

/// Status code held in the low byte of the watchdog status register.
pub open spec fn status_code(wdstatus: u32) -> u8 {
    (wdstatus & 0xff) as u8
}

/// A time violation: any status code other than "no violation" and "key sequence
/// violation".
pub open spec fn time_violation_spec(wdstatus: u32) -> bool {
    status_code(wdstatus) != 0x00 && status_code(wdstatus) != 0x04
}

/// Preload for an expiry time at clock `clk`: `expire * clk / 2^13 - 1`, which the
/// preload register holds when it lies in `[0, 4094]`.
pub open spec fn preload_spec(expire: u32, clk: u32) -> int {
    (expire as int * clk as int) / 8192 - 1
}

/// Value reported with a preload out of range: the preload itself, or the largest
/// `u32` when it does not fit one.
pub open spec fn preload_error_spec(expire: u32, clk: u32) -> u32 {
    let p = preload_spec(expire, clk);
    if 0 <= p <= u32::MAX as int {
        p as u32
    } else {
        u32::MAX
    }
}

/// Outcome of the preload computation: the preload when in range, else the
/// failure value.
pub open spec fn dwd_preload_spec(expire: u32, clk: u32) -> Result<u32, u32> {
    let p = preload_spec(expire, clk);
    if 0 <= p < 4095 {
        Ok(p as u32)
    } else {
        Err(preload_error_spec(expire, clk))
    }
}

/// Outcome of `expire` on the RTI clock (expiry in microseconds, clock in MHz): the
/// preload write, or the failure value.
pub open spec fn expire_spec(expire: u32) -> Result<Action, u32> {
    match dwd_preload_spec(expire, RTICLK1) {
        Ok(p) => Ok(Action::Write(Reg::RtiDwdprld, p)),
        Err(e) => Err(e),
    }
}

/// Digital watchdog preload for an expiry time, from
/// `texp = (DWDPRLD + 1) * 2^13 / clk`: `Ok(expire * clk / 2^13 - 1)` when that
/// lies in `[0, 4094]`; otherwise `Err` with the preload, or the largest `u32` when
/// the preload is negative or does not fit.
pub fn dwd_preload(expire: u32, clk: u32) -> (r: Result<u32, u32>)
    ensures
        r == dwd_preload_spec(expire, clk),
        // the documented expiry (preload + 1) * 2^13 / clk maps back to `expire`
        // within one tick of 2^13 clock cycles
        r matches Ok(p) ==> {
            &&& p <= 4094
            &&& (p + 1) * 8192 <= (expire as int) * (clk as int)
            &&& (expire as int) * (clk as int) < (p + 2) * 8192
        },
{
    let e = expire as u64;
    let c = clk as u64;
    assert(e * c <= 0xFFFF_FFFFu64 * 0xFFFF_FFFFu64) by (nonlinear_arith)
        requires
            e <= 0xFFFF_FFFFu64,
            c <= 0xFFFF_FFFFu64,
    ;
    let ticks: u64 = e * c / 8192;
    if ticks == 0 {
        return Err(u32::MAX);
    }
    let preload: u64 = ticks - 1;
    if preload < 4095 {
        Ok(preload as u32)
    } else if preload <= u32::MAX as u64 {
        Err(preload as u32)
    } else {
        Err(u32::MAX)
    }
}

/// A digital watchdog. Operations return the register accesses to perform; status
/// tests take the status register as read.
pub trait DWD: Sized {
    fn new() -> Self;

    /// Arm the watchdog: clear its status, program the preload, enable the counter.
    /// When the preload is out of range nothing is programmed.
    fn start(&self, expire: u32) -> (r: Result<Vec<Action>, u32>)
        ensures
            match expire_spec(expire) {
                Ok(w) => r matches Ok(v) && v@ == seq![
                    Action::Write(Reg::RtiWdstatus, 0xFF),
                    w,
                    Action::Write(Reg::RtiDwdctrl, 0xA985_59DA),
                ],
                Err(e) => r == Err::<Vec<Action>, u32>(e),
            };

    /// Service the watchdog (the two-key sequence).
    fn reset(&self) -> (r: Vec<Action>)
        ensures
            r@ == seq![Action::Write(Reg::RtiWdkey, 0xE51A), Action::Write(Reg::RtiWdkey, 0xA35C)];

    /// Reset the system through the watchdog (a wrong second key).
    fn sys_reset(&self) -> (r: Vec<Action>)
        ensures
            r@ == seq![Action::Write(Reg::RtiWdkey, 0xE51A), Action::Write(Reg::RtiWdkey, 0x2345)];

    /// The violation that the status register reports, if its code is a known one.
    fn status(&self, wdstatus: u32) -> (r: Option<WdViolation>)
        ensures
            r matches Some(v) ==> v.code_spec() == status_code(wdstatus),
            r.is_none() ==> (forall|v: WdViolation| v.code_spec() != status_code(wdstatus));

    /// Whether the status register reports a time violation.
    fn time_violation(&self, wdstatus: u32) -> (r: bool)
        ensures
            r == time_violation_spec(wdstatus);

    fn status_clear(&self) -> (r: Action)
        ensures
            r == Action::Write(Reg::RtiWdstatus, 0xFF);

    /// Program the preload for an expiry time in microseconds (the RTI clock being
    /// in MHz), if the preload is in range.
    fn expire(&self, expire: u32) -> (r: Result<Action, u32>)
        ensures
            r == expire_spec(expire);

    fn counter_enable(&self) -> (r: Action)
        ensures
            r == Action::Write(Reg::RtiDwdctrl, 0xA985_59DA);

    /// Register holding the current down-counter value.
    fn count_down(&self) -> (r: Reg)
        ensures
            r == Reg::RtiDwdcntr;
}

} // verus!
