//! Flash wrapper: read wait states, bank power modes, diagnostics; and the OTP
//! low-power oscillator trim.

use vstd::prelude::*;
use crate::config;
use crate::reg::{Action, Reg};

verus! {

/// Low-power oscillator trim in an OTP trim word: the byte above the low half.
pub open spec fn lpo_trim_value_spec(otp_word: u32) -> u8 {
    (otp_word >> 16) as u8
}

/// LPO trim held in OTP, given the OTP trim word as read.
pub fn lpo_trim_value(otp_word: u32) -> (r: u8)
    ensures
        r == lpo_trim_value_spec(otp_word),
{
    (otp_word >> 16) as u8
}

/// Whether OTP memory holds a valid LPO trim (an erased value reads all ones).
pub fn lpo_trim_available(otp_word: u32) -> (r: bool)
    ensures
        r == (lpo_trim_value_spec(otp_word) != 0xFF),
{
    lpo_trim_value(otp_word) != 0xFF
}

/// Flash bank power modes.
#[derive(Clone, Copy, Debug, PartialEq, Eq, Structural)]
pub enum FlashWPowerModes {
    Sleep,
    Standby,
    Active,
}

impl FlashWPowerModes {
    pub open spec fn value_spec(self) -> u32 {
        match self {
            FlashWPowerModes::Sleep => 0x0,
            FlashWPowerModes::Standby => 0x1,
            FlashWPowerModes::Active => 0x3,
        }
    }

    pub fn value(self) -> (r: u32)
        ensures
            r == self.value_spec(),
            r < 4,
    {
        match self {
            FlashWPowerModes::Sleep => 0x0,
            FlashWPowerModes::Standby => 0x1,
            FlashWPowerModes::Active => 0x3,
        }
    }
}

/// Flash diagnostic modes.
#[derive(Clone, Copy, Debug, PartialEq, Eq, Structural)]
pub enum DiagModes {
    Disabled,
    ECCDataCorrectionTest,
    ECCSyndromeReportingTest,
    ECCMalfunctionTestSameData,
    ECCMalfunctionTestInvertedData,
    AdressTagRegisterTest,
    ECCDataCorrectionDiagnosticTest,
}

impl DiagModes {
    pub open spec fn value_spec(self) -> u32 {
        match self {
            DiagModes::Disabled => 0,
            DiagModes::ECCDataCorrectionTest => 1,
            DiagModes::ECCSyndromeReportingTest => 2,
            DiagModes::ECCMalfunctionTestSameData => 3,
            DiagModes::ECCMalfunctionTestInvertedData => 4,
            DiagModes::AdressTagRegisterTest => 5,
            DiagModes::ECCDataCorrectionDiagnosticTest => 7,
        }
    }

    pub fn value(self) -> (r: u32)
        ensures
            r == self.value_spec(),
    {
        match self {
            DiagModes::Disabled => 0,
            DiagModes::ECCDataCorrectionTest => 1,
            DiagModes::ECCSyndromeReportingTest => 2,
            DiagModes::ECCMalfunctionTestSameData => 3,
            DiagModes::ECCMalfunctionTestInvertedData => 4,
            DiagModes::AdressTagRegisterTest => 5,
            DiagModes::ECCDataCorrectionDiagnosticTest => 7,
        }
    }
}

/// EEPROM-emulation bank configuration: startup grace period, auto-suspend,
/// wait states.
pub const EEPROM_CONFIG: u32 = config::EEPROM_AUTOSTART_GRACE | (0 << 8) | (config::EEPROM_WAITSTATE
    << 16);

/// Read-control word: random-read wait states (four bits) from bit 8, address
/// setup wait state at bit 4, pipeline mode at bit 0.
pub open spec fn frdcntl_spec(ws: u8, address_ws: bool, pipeline: bool) -> u32 {
    (((ws & 0xF) as u32) << 8) | ((if address_ws { 1u32 } else { 0u32 }) << 4) | (if pipeline {
        1u32
    } else {
        0u32
    })
}

/// Accesses of `Flash::setup`: read control, then (with the FSM registers unlocked)
/// the EEPROM bank configuration, then the power mode of banks 0, 1 and 7.
pub open spec fn flash_setup_spec(power: FlashWPowerModes, ws: u8, address_ws: bool, pipeline: bool) -> Seq<Action> {
    let m = power.value_spec();
    seq![
        Action::Write(Reg::FlashFrdcntl, frdcntl_spec(ws, address_ws, pipeline)),
        Action::Write(Reg::FlashFsmwrena, 0x5),
        Action::Write(Reg::FlashEepromconfig, EEPROM_CONFIG),
        Action::Write(Reg::FlashFsmwrena, 0xA),
        Action::Write(Reg::FlashFbfallback, (m << 14) | (m << 2) | m),
    ]
}

/// The flash wrapper. Operations return the register accesses to perform.
#[derive(Clone, Copy, Debug)]
pub struct Flash;

impl Flash {
    pub fn new() -> Flash {
        Flash
    }

    /// Unlock the FSM registers for writing.
    fn unlock_fsm(&self) -> (r: Action)
        ensures
            r == Action::Write(Reg::FlashFsmwrena, 0x5),
    {
        Action::Write(Reg::FlashFsmwrena, 0x5)
    }

    /// Lock the FSM registers.
    fn lock_fsm(&self) -> (r: Action)
        ensures
            r == Action::Write(Reg::FlashFsmwrena, 0xA),
    {
        Action::Write(Reg::FlashFsmwrena, 0xA)
    }

    /// Select a diagnostic mode.
    pub fn diag_mode(&self, mode: DiagModes) -> (r: Action)
        ensures
            r == Action::Modify(Reg::FlashFdiagctrl, 0xFFFF_FFFF, mode.value_spec()),
    {
        Action::Modify(Reg::FlashFdiagctrl, 0xFFFF_FFFF, mode.value())
    }

    /// Set the read mode and wait states: `ws` random-read wait states (low four
    /// bits), `address_ws` the address setup wait state (pipeline mode only),
    /// `pipeline` pipeline mode; then the EEPROM bank wait states and the bank power
    /// mode.
    pub fn setup(&self, power: FlashWPowerModes, ws: u8, address_ws: bool, pipeline: bool) -> (r: Vec<Action>)
        ensures
            r@ == flash_setup_spec(power, ws, address_ws, pipeline),
    {
        let aswsten: u32 = (if address_ws { 1u32 } else { 0u32 }) << 4;
        let rwait: u32 = ((ws & 0xF) as u32) << 8;
        let enpipe: u32 = if pipeline { 1 } else { 0 };
        let mut r: Vec<Action> = Vec::new();
        r.push(Action::Write(Reg::FlashFrdcntl, rwait | aswsten | enpipe));
        r.push(self.unlock_fsm());
        r.push(Action::Write(Reg::FlashEepromconfig, EEPROM_CONFIG));
        r.push(self.lock_fsm());
        let mode = power.value();
        r.push(Action::Write(Reg::FlashFbfallback, (mode << 14) | (mode << 2) | mode));
        r
    }
}

} // verus!
