//! System exception module: why the core restarted.

use vstd::prelude::*;
use crate::reg::{Action, Reg};

verus! {

/// Reset root causes, one bit each in the exception status register.
#[derive(Clone, Copy, Debug, PartialEq, Eq, Structural)]
pub enum Reset {
    /// Power-on reset.
    PowerOn,
    /// Oscillator failure.
    OscFailure,
    /// Windowed watchdog violation, or ICEPICK reset (a debugger loading code or
    /// resetting the system).
    WdIcePick,
    /// CPU reset: completion of a CPU self-test, or the CPU RESET bit toggled.
    Cpu,
    /// Software reset.
    Sw,
    /// Reset driven by an external device.
    External,
}

impl Reset {
    pub open spec fn mask_spec(self) -> u32 {
        match self {
            Reset::PowerOn => 0x8000,
            Reset::OscFailure => 0x4000,
            Reset::WdIcePick => 0x2000,
            Reset::Cpu => 0x0020,
            Reset::Sw => 0x0010,
            Reset::External => 0x0008,
        }
    }

    /// The cause's bit in the exception status register.
    pub fn mask(self) -> (r: u32)
        ensures
            r == self.mask_spec(),
    {
        match self {
            Reset::PowerOn => 0x8000,
            Reset::OscFailure => 0x4000,
            Reset::WdIcePick => 0x2000,
            Reset::Cpu => 0x0020,
            Reset::Sw => 0x0010,
            Reset::External => 0x0008,
        }
    }
}

/// The system exception module. Its tests take the exception status register as
/// read; its clears return the write to perform.
pub struct SysException;

impl SysException {
    /// Whether the cause's flag is set in the exception status value.
    pub fn is_set(exc: u32, flag: Reset) -> (r: bool)
        ensures
            r == (exc & flag.mask_spec() != 0),
    {
        exc & flag.mask() != 0
    }

    pub fn power_on(exc: u32) -> (r: bool)
        ensures
            r == (exc & 0x8000 != 0),
    {
        SysException::is_set(exc, Reset::PowerOn)
    }

    pub fn osc_failure(exc: u32) -> (r: bool)
        ensures
            r == (exc & 0x4000 != 0),
    {
        SysException::is_set(exc, Reset::OscFailure)
    }

    pub fn wd_iecpick_reset(exc: u32) -> (r: bool)
        ensures
            r == (exc & 0x2000 != 0),
    {
        SysException::is_set(exc, Reset::WdIcePick)
    }

    pub fn sw_reset(exc: u32) -> (r: bool)
        ensures
            r == (exc & 0x0010 != 0),
    {
        SysException::is_set(exc, Reset::Sw)
    }

    pub fn cpu_reset(exc: u32) -> (r: bool)
        ensures
            r == (exc & 0x0020 != 0),
    {
        SysException::is_set(exc, Reset::Cpu)
    }

    pub fn external(exc: u32) -> (r: bool)
        ensures
            r == (exc & 0x0008 != 0),
    {
        SysException::is_set(exc, Reset::External)
    }

    /// Clear one cause (its flag is write-one-to-clear).
    pub fn clear(flag: Reset) -> (r: Action)
        ensures
            r == Action::Write(Reg::SysEsr, flag.mask_spec()),
    {
        Action::Write(Reg::SysEsr, flag.mask())
    }

    /// Clear every cause flag.
    pub fn clear_all() -> (r: Action)
        ensures
            r == Action::Write(Reg::SysEsr, 0xffff),
    {
        Action::Write(Reg::SysEsr, 0xffff)
    }
}

} // verus!
