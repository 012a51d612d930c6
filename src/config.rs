//! Board configuration.

use vstd::prelude::*;

verus! {

/// VCLK frequency in Hz.
pub const VCLK: u32 = 80 * 1_000_000;

/// Low-frequency LPO trim used when OTP memory holds no valid value.
pub const LPO: u8 = 0x10;

/// RTI1 clock frequency in MHz, so that a watchdog expiry in microseconds times
/// this clock counts RTI clock cycles.
pub const RTICLK1: u32 = 80;

/// Error-pin low-time counter preload used by the ESM driver.
pub const LPC_PRELOAD: u32 = 16384;

/// Flash access wait states for bank 7 (EEPROM emulation).
pub const EEPROM_WAITSTATE: u32 = 0x3;

/// EEPROM auto-suspend enable.
pub const EEPROM_AUTOSUSP_EN: bool = false;

/// EEPROM auto-suspend startup grace period.
pub const EEPROM_AUTOSTART_GRACE: u32 = 0x2;

} // verus!
