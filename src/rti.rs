//! Digital watchdog of the real-time interrupt module.

use vstd::prelude::*;
use crate::config::RTICLK1;
use crate::dwd::{DWD, WdViolation, dwd_preload};
use crate::reg::{Action, Reg};

verus! {

/// The RTI digital watchdog.
#[derive(Clone, Copy, Debug)]
pub struct ChipWatchDog;

impl DWD for ChipWatchDog {
    fn new() -> ChipWatchDog {
        ChipWatchDog
    }

    fn start(&self, expire: u32) -> (r: Result<Vec<Action>, u32>) {
        match self.expire(expire) {
            Ok(w) => {
                let mut v: Vec<Action> = Vec::new();
                v.push(self.status_clear());
                v.push(w);
                v.push(self.counter_enable());
                Ok(v)
            },
            Err(e) => Err(e),
        }
    }

    fn reset(&self) -> (r: Vec<Action>) {
        let mut v: Vec<Action> = Vec::new();
        v.push(Action::Write(Reg::RtiWdkey, 0xE51A));
        v.push(Action::Write(Reg::RtiWdkey, 0xA35C));
        v
    }

    fn sys_reset(&self) -> (r: Vec<Action>) {
        let mut v: Vec<Action> = Vec::new();
        v.push(Action::Write(Reg::RtiWdkey, 0xE51A));
        v.push(Action::Write(Reg::RtiWdkey, 0x2345));
        v
    }

    fn status(&self, wdstatus: u32) -> (r: Option<WdViolation>) {
        let code = (wdstatus & 0xff) as u8;
        if code == 0x00 {
            Some(WdViolation::NoTimeViolation)
        } else if code == 0x04 {
            Some(WdViolation::KeySeqViolation)
        } else if code == 0x08 {
            Some(WdViolation::StartTimeWindowViolation)
        } else if code == 0x10 {
            Some(WdViolation::EndTimeWindowViolation)
        } else if code == 0x20 {
            Some(WdViolation::TimeWindowViolation)
        } else {
            None
        }
    }

    fn time_violation(&self, wdstatus: u32) -> (r: bool) {
        let code = (wdstatus & 0xff) as u8;
        code != 0x04 && code != 0x00
    }

    fn status_clear(&self) -> (r: Action) {
        Action::Write(Reg::RtiWdstatus, 0xFF)
    }

    fn expire(&self, expire: u32) -> (r: Result<Action, u32>) {
        match dwd_preload(expire, RTICLK1) {
            Ok(p) => Ok(Action::Write(Reg::RtiDwdprld, p)),
            Err(e) => Err(e),
        }
    }

    fn counter_enable(&self) -> (r: Action) {
        Action::Write(Reg::RtiDwdctrl, 0xA985_59DA)
    }

    fn count_down(&self) -> (r: Reg) {
        Reg::RtiDwdcntr
    }
}

} // verus!
