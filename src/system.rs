//! System module (clocks, PLLs, memory hardware initialisation) and the
//! programmable built-in self-test controller.

use vstd::prelude::*;
use crate::config;
use crate::esm::{Esm, channel_of, clear_action_spec, status_bit_spec, status_reg_spec};
use crate::esm_ch::EsmError;
use crate::reg::{Action, Next, Reg, Step, bit_set, value_after_write};

verus! {

/// Low-power modes: clock sources to stop in the low byte, clock domains above.
#[derive(Clone, Copy, Debug, PartialEq, Eq, Structural)]
pub enum SleepMode {
    Doze,
    Snooze,
    /// All peripherals sleeping.
    Sleep,
}

impl SleepMode {
    pub open spec fn value_spec(self) -> u32 {
        match self {
            SleepMode::Doze => 0x000F_3F02,
            SleepMode::Snooze => 0x000F_3F03,
            SleepMode::Sleep => 0x000F_FFFF,
        }
    }

    pub fn value(self) -> (r: u32)
        ensures
            r == self.value_spec(),
    {
        match self {
            SleepMode::Doze => 0x000F_3F02,
            SleepMode::Snooze => 0x000F_3F03,
            SleepMode::Sleep => 0x000F_FFFF,
        }
    }
}

/// Clock domains that can be switched off.
#[derive(Clone, Copy, Debug, PartialEq, Eq, Structural)]
pub enum ClockDomains {
    AvClk1,
    AvClk2,
    VClk3,
    VClk4,
    AvClk3,
    AvClk4,
}

impl ClockDomains {
    pub open spec fn bit_spec(self) -> u32 {
        match self {
            ClockDomains::AvClk1 => 4,
            ClockDomains::AvClk2 => 5,
            ClockDomains::VClk3 => 8,
            ClockDomains::VClk4 => 9,
            ClockDomains::AvClk3 => 10,
            ClockDomains::AvClk4 => 11,
        }
    }

    /// Bit of the domain in the clock-domain disable registers.
    pub fn bit(self) -> (r: u32)
        ensures
            r == self.bit_spec(),
            r < 32,
    {
        match self {
            ClockDomains::AvClk1 => 4,
            ClockDomains::AvClk2 => 5,
            ClockDomains::VClk3 => 8,
            ClockDomains::VClk4 => 9,
            ClockDomains::AvClk3 => 10,
            ClockDomains::AvClk4 => 11,
        }
    }
}

/// Clock sources.
#[derive(Clone, Copy, Debug, PartialEq, Eq, Structural)]
pub enum SysClockSources {
    Osc,
    Pll1,
    External1,
    /// Low-power oscillator, low-frequency clock.
    Lpolow,
    /// Low-power oscillator, high-frequency clock.
    LpiHigh,
    Pll2,
    External2,
    /// Synchronous VCLK1.
    Vclk,
}

impl SysClockSources {
    pub open spec fn number_spec(self) -> u32 {
        match self {
            SysClockSources::Osc => 0,
            SysClockSources::Pll1 => 1,
            SysClockSources::External1 => 3,
            SysClockSources::Lpolow => 4,
            SysClockSources::LpiHigh => 5,
            SysClockSources::Pll2 => 6,
            SysClockSources::External2 => 7,
            SysClockSources::Vclk => 9,
        }
    }

    /// Source number used by the source-selection registers.
    pub fn number(self) -> (r: u32)
        ensures
            r == self.number_spec(),
            r < 16,
    {
        match self {
            SysClockSources::Osc => 0,
            SysClockSources::Pll1 => 1,
            SysClockSources::External1 => 3,
            SysClockSources::Lpolow => 4,
            SysClockSources::LpiHigh => 5,
            SysClockSources::Pll2 => 6,
            SysClockSources::External2 => 7,
            SysClockSources::Vclk => 9,
        }
    }
}

/// On-chip memories with hardware initialisation, one bit each.
#[derive(Clone, Copy, Debug, PartialEq, Eq, Structural)]
pub enum Ram {
    Internal,
    Dma,
    Vim,
    Het1,
    Htu1,
    Can1,
    Can2,
    MibSPI1,
    Adc1,
    Can3,
    MibSPI3,
    MibSPI5,
    FlexRayTU,
    Adc2,
    Het2,
    Htu2,
}

impl Ram {
    pub open spec fn mask_spec(self) -> u32 {
        match self {
            Ram::Internal => 0x1,
            Ram::Dma => 0x2,
            Ram::Vim => 0x4,
            Ram::Het1 => 0x8,
            Ram::Htu1 => 0x10,
            Ram::Can1 => 0x20,
            Ram::Can2 => 0x40,
            Ram::MibSPI1 => 0x80,
            Ram::Adc1 => 0x100,
            Ram::Can3 => 0x400,
            Ram::MibSPI3 => 0x800,
            Ram::MibSPI5 => 0x1000,
            Ram::FlexRayTU => 0x2000,
            Ram::Adc2 => 0x4000,
            Ram::Het2 => 0x8000,
            Ram::Htu2 => 0x10000,
        }
    }

    /// The memory's bit in the memory-initialisation enable register.
    pub fn mask(self) -> (r: u32)
        ensures
            r == self.mask_spec(),
    {
        match self {
            Ram::Internal => 0x1,
            Ram::Dma => 0x2,
            Ram::Vim => 0x4,
            Ram::Het1 => 0x8,
            Ram::Htu1 => 0x10,
            Ram::Can1 => 0x20,
            Ram::Can2 => 0x40,
            Ram::MibSPI1 => 0x80,
            Ram::Adc1 => 0x100,
            Ram::Can3 => 0x400,
            Ram::MibSPI3 => 0x800,
            Ram::MibSPI5 => 0x1000,
            Ram::FlexRayTU => 0x2000,
            Ram::Adc2 => 0x4000,
            Ram::Het2 => 0x8000,
            Ram::Htu2 => 0x10000,
        }
    }
}

/// Clock source of the external clock prescaler.
#[derive(Clone, Copy, Debug, PartialEq, Eq, Structural)]
pub enum EcpClockSource {
    TiedLow,
    HCLK,
    External,
    TiedHigh,
}

/// Memory self-test controller off (ROM clock HCLK / 2).
pub const MSTGCR_OFF: u32 = 0x0000_0100 | 0x5;

/// Memory self-test controller on (ROM clock HCLK / 2).
pub const MSTGCR_ON: u32 = 0x0000_0100 | 0xA;

/// Both PLLs as a clock-source mask: sources 1 and 6.
pub const PLLS: u32 = (0x1 << 1) | (0x1 << 6);

/// PLL1 control word before lock: reset on oscillator slip off, bypass on PLL slip,
/// output divider at its maximum (slowest), reset on oscillator fail off, reference
/// divider 6, multiplier field 0x77.
pub const PLLCTL1_BEFORE_LOCK: u32 = 0x2000_0000 | (0x1F << 24) | ((6 - 1) << 16) | 0x7700;

/// PLL1 control word 2: spreading rate, bandwidth adjustment, internal output
/// divider 2, spreading amount.
pub const PLLCTL2_INIT: u32 = (255 << 22) | (7 << 12) | ((2 - 1) << 9) | 61;

/// PLL2 control word before lock: internal output divider 2, output divider at its
/// maximum, reference divider 6, multiplier field 0x77.
pub const PLLCTL3_BEFORE_LOCK: u32 = ((2 - 1) << 29) | (0x1F << 24) | ((6 - 1) << 16) | 0x7700;

/// GCLK, HCLK and VCLK source selection used while the clock supervisor is tested:
/// all three on the low-power oscillator.
pub const GHVSRC_CLOCK_TEST: u32 = 0x0505_0005;

/// Clock-test register bits that enable the clock-supervisor test mode.
pub const CLKTEST_SUPERVISOR: u32 = 0x0300_0000;

/// PLL shutdown and setup, in order: disable both PLLs and wait until both report
/// disabled, clear the global status while they are off, program both PLLs with
/// their before-lock words, enable both again (lock is not waited for).
pub open spec fn setup_pll_spec() -> Seq<Action> {
    seq![
        Action::Write(Reg::Csdisset, PLLS),
        Action::WaitAllSet(Reg::Csdis, PLLS),
        Action::Write(Reg::Gblstat, 0x301),
        Action::Write(Reg::Pllctl1, PLLCTL1_BEFORE_LOCK),
        Action::Write(Reg::Pllctl2, PLLCTL2_INIT),
        Action::Write(Reg::Pllctl3, PLLCTL3_BEFORE_LOCK),
        Action::Write(Reg::Csdisclr, PLLS),
    ]
}

/// Output-divider reprogramming of both PLLs (PLLCTL2 is read and written back).
pub open spec fn set_pll_divider_spec(div1: u8, div3: u8) -> Seq<Action> {
    seq![
        Action::Modify(Reg::Pllctl1, 0xE0FF_FFFF, (div1 as u32) << 24),
        Action::Modify(Reg::Pllctl3, 0xE0FF_FFFF, (div3 as u32) << 24),
        Action::Modify(Reg::Pllctl2, 0xFFFF_FFFF, 0),
    ]
}

/// GCLK/HCLK/VCLK source selection; RTI and asynchronous peripheral clocks on VCLK.
pub open spec fn setup_clock_source_spec(gclk: SysClockSources, hclk: SysClockSources, vclk: SysClockSources) -> Seq<Action> {
    seq![
        Action::Write(
            Reg::Ghvsrc,
            (gclk.number_spec() << 24) | (hclk.number_spec() << 16) | vclk.number_spec(),
        ),
        Action::Write(Reg::Rclksrc, (0x1u32 << 24) | (9u32 << 16) | (0x1u32 << 8) | 9u32),
        Action::Write(Reg::Vclkasrc, (9u32 << 8) | 9u32),
        Action::Write(Reg::Vclkacon1, (9u32 << 16) | 9u32),
    ]
}

/// VCLK, VCLK2, VCLK3 and VCLK4 divider writes.
pub open spec fn peripherals_clock_divider_spec(vclk1: u8, vclk2: u8, vclk3: u8, vclk4: u8) -> Seq<Action> {
    seq![
        Action::Modify(Reg::Clkcntl, 0xF0FF_FFFF, (vclk1 as u32) << 24),
        Action::Modify(Reg::Clkcntl, 0xFFF0_FFFF, (vclk2 as u32) << 16),
        Action::Modify(Reg::Clc2cntl, 0xFFFF_F0F0, ((vclk3 as u32) << 8) | (vclk4 as u32)),
    ]
}

/// Hardware initialisation of the memories of a mask, waiting for completion.
pub open spec fn init_memory_spec(rams: u32) -> Seq<Action> {
    seq![
        Action::Write(Reg::Minitgcr, 0xA),
        Action::Write(Reg::Msinena, rams),
        Action::WaitAllSet(Reg::Mstcgstat, 0x0000_0100),
        Action::Write(Reg::Minitgcr, 0x5),
    ]
}

/// ECLK pin in functional mode with the prescaler divider.
pub open spec fn eclk_functional_mode_spec(divider: u16, oscin: bool) -> Seq<Action> {
    seq![
        Action::Write(Reg::SysPc1, 0x1),
        Action::Write(Reg::SysPc2, 0x1),
        Action::Write(Reg::SysPc4, 0x0),
        Action::Write(Reg::SysPc7, 0x0),
        Action::Write(Reg::SysPc8, 0x0),
        Action::Write(Reg::SysPc9, 0x1),
        Action::Write(Reg::Ecpcntl, ((if oscin { 1u32 } else { 0u32 }) << 24) | (divider as u32)),
    ]
}

/// PBIST stop: clocks off, controller off.
pub open spec fn pbist_stop_spec() -> Seq<Action> {
    seq![Action::Write(Reg::PbistPact, 0x0), Action::Write(Reg::Mstgcr, MSTGCR_OFF)]
}

/// Accesses of one PBIST run of `algo` on the memory groups `memories`.
pub open spec fn pbist_run_spec(algo: u32, memories: u32) -> Seq<Action> {
    seq![
        Action::Write(Reg::Mstgcr, MSTGCR_OFF),
        Action::Write(Reg::Minitgcr, 0x5),
        Action::Write(Reg::Msinena, 0x1),
        Action::Write(Reg::Mstgcr, MSTGCR_ON),
        Action::Delay(32),
        Action::Write(Reg::PbistPact, 0x3),
        Action::Write(Reg::PbistAlgo, algo),
        Action::Write(Reg::PbistRinfol, memories),
        Action::Write(Reg::PbistRinfou, 0x0),
        Action::Write(Reg::PbistOver, 0x0),
        Action::Write(Reg::PbistRom, 0x3),
        Action::Write(Reg::PbistDlr, 0x14),
    ]
}

/// Low-power oscillator trim in an OTP trim word (its upper half).
pub open spec fn lpo_trim_spec(otp_word: u32) -> u32 {
    otp_word >> 16
}

/// Trim value programmed into the LPO monitor: the OTP value when OTP holds one
/// (anything but all ones), else the configured fallback.
pub open spec fn lpo_choice_spec(otp_word: u32) -> u32 {
    if lpo_trim_spec(otp_word) != 0xFFFF {
        lpo_trim_spec(otp_word)
    } else {
        config::LPO as u32
    }
}

/// Whether OTP memory holds a valid LPO trim, given the OTP trim word.
fn lpo_trim_available(otp_word: u32) -> (r: bool)
    ensures
        r == (lpo_trim_spec(otp_word) != 0xFFFF),
{
    (otp_word >> 16) != 0xFFFF
}

/// The system module, with the PBIST controller. Operations return the register
/// accesses to perform.
#[derive(Clone, Copy, Debug)]
pub struct Sys;

impl Sys {
    pub fn new() -> Sys {
        Sys
    }

    /// Gate the peripheral clocks on (`true`) or off.
    pub fn enable_pheripherals(&self, enable: bool) -> (r: Action)
        ensures
            r == if enable {
                Action::Modify(Reg::Clkcntl, 0xFFFF_FFFF, 0x0000_0100)
            } else {
                Action::Modify(Reg::Clkcntl, 0xFFFF_FEFF, 0)
            },
    {
        if enable {
            Action::Modify(Reg::Clkcntl, 0xFFFF_FFFF, 0x0000_0100)
        } else {
            Action::Modify(Reg::Clkcntl, 0xFFFF_FEFF, 0)
        }
    }

    /// Disable both PLLs and wait until they report disabled.
    pub fn disable_pll(&self) -> (r: Vec<Action>)
        ensures
            r@ == setup_pll_spec().subrange(0, 2),
    {
        let mut v: Vec<Action> = Vec::new();
        v.push(Action::Write(Reg::Csdisset, PLLS));
        v.push(Action::WaitAllSet(Reg::Csdis, PLLS));
        assert(v@ =~= setup_pll_spec().subrange(0, 2));
        v
    }

    /// Enable both PLLs.
    pub fn enable_pll(&self) -> (r: Action)
        ensures
            r == Action::Write(Reg::Csdisclr, PLLS),
    {
        Action::Write(Reg::Csdisclr, PLLS)
    }

    /// Clear the sticky PLL-slip and oscillator-fail flags of the global status.
    pub fn clear_global_status(&self) -> (r: Action)
        ensures
            r == Action::Write(Reg::Gblstat, 0x301),
    {
        Action::Write(Reg::Gblstat, 0x301)
    }

    /// Set both PLLs up for lock (see `setup_pll_spec`).
    pub fn setup_pll(&self) -> (r: Vec<Action>)
        ensures
            r@ == setup_pll_spec(),
    {
        let mut v = self.disable_pll();
        v.push(self.clear_global_status());
        v.push(Action::Write(Reg::Pllctl1, PLLCTL1_BEFORE_LOCK));
        v.push(Action::Write(Reg::Pllctl2, PLLCTL2_INIT));
        v.push(Action::Write(Reg::Pllctl3, PLLCTL3_BEFORE_LOCK));
        v.push(self.enable_pll());
        assert(v@ =~= setup_pll_spec());
        v
    }

    /// Wait until every clock source that is not disabled reports valid.
    pub fn wait_pll_lock(&self) -> (r: Action)
        ensures
            r == Action::WaitPllLock,
    {
        Action::WaitPllLock
    }

    /// Program the PLL output dividers (PLL1 and PLL2).
    pub fn set_pll_divider(&self, div1: u8, div3: u8) -> (r: Vec<Action>)
        ensures
            r@ == set_pll_divider_spec(div1, div3),
    {
        let mut v: Vec<Action> = Vec::new();
        v.push(Action::Modify(Reg::Pllctl1, 0xE0FF_FFFF, (div1 as u32) << 24));
        v.push(Action::Modify(Reg::Pllctl3, 0xE0FF_FFFF, (div3 as u32) << 24));
        v.push(Action::Modify(Reg::Pllctl2, 0xFFFF_FFFF, 0));
        v
    }

    /// Select the GCLK, HCLK and VCLK sources; the RTI and asynchronous peripheral
    /// clocks run from VCLK.
    pub fn setup_clock_source(
        &self,
        gclk: SysClockSources,
        hclk: SysClockSources,
        vclk: SysClockSources,
    ) -> (r: Vec<Action>)
        ensures
            r@ == setup_clock_source_spec(gclk, hclk, vclk),
    {
        let v9 = SysClockSources::Vclk.number();
        let mut v: Vec<Action> = Vec::new();
        v.push(
            Action::Write(Reg::Ghvsrc, (gclk.number() << 24) | (hclk.number() << 16) | vclk.number()),
        );
        v.push(Action::Write(Reg::Rclksrc, (0x1 << 24) | (v9 << 16) | (0x1 << 8) | v9));
        v.push(Action::Write(Reg::Vclkasrc, (v9 << 8) | v9));
        v.push(Action::Write(Reg::Vclkacon1, (v9 << 16) | v9));
        v
    }

    /// Program the LPO trim: the OTP value when available, else the fallback.
    /// `otp_word` is the OTP trim word as read.
    pub fn trim_lpo(&self, otp_word: u32) -> (r: Action)
        ensures
            r == Action::Write(Reg::Lpomonctl, (0x1u32 << 24) | lpo_choice_spec(otp_word)),
    {
        let lpo = if lpo_trim_available(otp_word) {
            otp_word >> 16
        } else {
            config::LPO as u32
        };
        Action::Write(Reg::Lpomonctl, (0x1 << 24) | lpo)
    }

    /// Stop the clock sources and domains of a low-power mode.
    pub fn power_down(&self, mode: SleepMode) -> (r: Vec<Action>)
        ensures
            r@ == seq![
                Action::Write(Reg::Csdisset, mode.value_spec() & 0xFF),
                Action::Write(Reg::Cddis, (mode.value_spec() >> 8) & 0xFFF),
            ],
    {
        let v = mode.value();
        let mut r: Vec<Action> = Vec::new();
        r.push(Action::Write(Reg::Csdisset, v & 0xFF));
        r.push(Action::Write(Reg::Cddis, (v >> 8) & 0xFFF));
        r
    }

    /// Release (`true`) or hold the peripherals in reset.
    pub fn activate_peripherals(&self, act: bool) -> (r: Action)
        ensures
            r == if act {
                Action::Modify(Reg::Clkcntl, 0xFFFF_FEFF, 0)
            } else {
                Action::Modify(Reg::Clkcntl, 0xFFFF_FFFF, 0x0000_0100)
            },
    {
        if act {
            Action::Modify(Reg::Clkcntl, 0xFFFF_FEFF, 0)
        } else {
            Action::Modify(Reg::Clkcntl, 0xFFFF_FFFF, 0x0000_0100)
        }
    }

    /// Program the VCLK, VCLK2, VCLK3 and VCLK4 dividers. VCLK and VCLK2 ratios are
    /// changed by two separate writes, as the hardware demands.
    pub fn peripherals_clock_divider(&self, vclk1: u8, vclk2: u8, vclk3: u8, vclk4: u8) -> (r: Vec<
        Action,
    >)
        ensures
            r@ == peripherals_clock_divider_spec(vclk1, vclk2, vclk3, vclk4),
    {
        let div1 = (vclk1 as u32) << 24;
        let div2 = (vclk2 as u32) << 16;
        let div3 = (vclk3 as u32) << 8;
        let div4 = vclk4 as u32;
        let mut r: Vec<Action> = Vec::new();
        r.push(Action::Modify(Reg::Clkcntl, 0xF0FF_FFFF, div1));
        r.push(Action::Modify(Reg::Clkcntl, 0xFFF0_FFFF, div2));
        r.push(Action::Modify(Reg::Clc2cntl, 0xFFFF_F0F0, div3 | div4));
        r
    }

    /// Enable (then let PBIST reset for 32 cycles) or disable the memory self-test
    /// controller; its ROM clock is HCLK / 2.
    fn memory_self_controller(&self, enable: bool) -> (r: Vec<Action>)
        ensures
            r@ == if enable {
                seq![Action::Write(Reg::Mstgcr, MSTGCR_ON), Action::Delay(32)]
            } else {
                seq![Action::Write(Reg::Mstgcr, MSTGCR_OFF)]
            },
    {
        let mut r: Vec<Action> = Vec::new();
        if enable {
            r.push(Action::Write(Reg::Mstgcr, MSTGCR_ON));
            r.push(Action::Delay(32));
        } else {
            r.push(Action::Write(Reg::Mstgcr, MSTGCR_OFF));
        }
        r
    }

    /// Enable or disable memory hardware initialisation.
    fn memory_controller_enable(&self, enable: bool) -> (r: Action)
        ensures
            r == Action::Write(Reg::Minitgcr, if enable { 0xAu32 } else { 0x5u32 }),
    {
        if enable {
            Action::Write(Reg::Minitgcr, 0xA)
        } else {
            Action::Write(Reg::Minitgcr, 0x5)
        }
    }

    /// Hardware-initialise the memories of the mask and wait for completion.
    pub fn init_memory(&self, rams: u32) -> (r: Vec<Action>)
        ensures
            r@ == init_memory_spec(rams),
    {
        let mut r: Vec<Action> = Vec::new();
        r.push(self.memory_controller_enable(true));
        r.push(Action::Write(Reg::Msinena, rams));
        r.push(Action::WaitAllSet(Reg::Mstcgstat, 0x0000_0100));
        r.push(self.memory_controller_enable(false));
        r
    }

    /// Enable every clock domain.
    pub fn clock_domain_enable_all(&self) -> (r: Action)
        ensures
            r == Action::Write(Reg::Cddis, 0x0),
    {
        Action::Write(Reg::Cddis, 0x0)
    }

    /// Switch one clock domain: `disable == true` writes the clear register.
    pub fn clock_domain_setup(&self, disable: bool, domain: ClockDomains) -> (r: Action)
        ensures
            r == Action::Write(
                if disable { Reg::Cddisclr } else { Reg::Cddisset },
                1u32 << domain.bit_spec(),
            ),
    {
        if disable {
            Action::Write(Reg::Cddisclr, 1u32 << domain.bit())
        } else {
            Action::Write(Reg::Cddisset, 1u32 << domain.bit())
        }
    }

    /// Put the ECLK pin in functional mode with the prescaler divider; `oscin`
    /// selects OSCIN as prescaler source. Suspend (ECPCOS) is kept at zero.
    pub fn eclk_functional_mode(&self, divider: u16, oscin: bool) -> (r: Vec<Action>)
        ensures
            r@ == eclk_functional_mode_spec(divider, oscin),
    {
        let mut r: Vec<Action> = Vec::new();
        r.push(Action::Write(Reg::SysPc1, 0x1));
        r.push(Action::Write(Reg::SysPc2, 0x1));
        r.push(Action::Write(Reg::SysPc4, 0x0));
        r.push(Action::Write(Reg::SysPc7, 0x0));
        r.push(Action::Write(Reg::SysPc8, 0x0));
        r.push(Action::Write(Reg::SysPc9, 0x1));
        let os: u32 = if oscin { 1 } else { 0 };
        r.push(Action::Write(Reg::Ecpcntl, (os << 24) | (divider as u32)));
        r
    }

    /// Put the ECLK pin in GPIO mode.
    pub fn eclk_gpio_setup(&self) -> (r: Action)
        ensures
            r == Action::Write(Reg::SysPc1, 0x0),
    {
        Action::Write(Reg::SysPc1, 0x0)
    }

    pub fn set_stc_clock_divider(&self, divider: u32) -> (r: Action)
        ensures
            r == Action::Write(Reg::Stcclkdiv, divider),
    {
        Action::Write(Reg::Stcclkdiv, divider)
    }

    /// Wafer and lot numbers, given the two die-id registers as read.
    pub fn die_id(&self, dieidl: u32, dieidh: u32) -> (r: (u32, u32))
        ensures
            r == (dieidl & 0x003F_FFFF, (dieidl & 0x3FF) | (dieidh & 0x00FF_FC00)),
    {
        let wafer = dieidl & 0x003F_FFFF;
        let lotnum = (dieidl & (0xFFC0_0000 >> 22)) | (dieidh & (0x0000_3FFF << 10));
        assert(0xFFC0_0000u32 >> 22u32 == 0x3FF) by (bit_vector);
        assert(0x0000_3FFFu32 << 10u32 == 0x00FF_FC00) by (bit_vector);
        (wafer, lotnum)
    }

    /// Hand PBIST to the CPU: stop its clocks, clear its done flag, enable the
    /// controller and its clocks.
    pub fn pbist_self_test(&self) -> (r: Vec<Action>)
        ensures
            r@ == seq![
                Action::Write(Reg::PbistPact, 0x0),
                Action::Write(Reg::Mstgcr, MSTGCR_OFF),
                Action::Write(Reg::Minitgcr, 0x5),
                Action::Write(Reg::Mstcgstat, 0x1),
                Action::Write(Reg::Msinena, 0x1),
                Action::Write(Reg::Mstgcr, MSTGCR_ON),
                Action::Delay(32),
                Action::Write(Reg::PbistPact, 0x3),
                Action::Write(Reg::PbistDlr, 0x10),
            ],
    {
        let mut r: Vec<Action> = Vec::new();
        r.push(Action::Write(Reg::PbistPact, 0x0));
        let mut off = self.memory_self_controller(false);
        r.append(&mut off);
        r.push(self.memory_controller_enable(false));
        r.push(Action::Write(Reg::Mstcgstat, 0x1));
        r.push(Action::Write(Reg::Msinena, 0x1));
        let mut on = self.memory_self_controller(true);
        r.append(&mut on);
        r.push(Action::Write(Reg::PbistPact, 0x3));
        r.push(Action::Write(Reg::PbistDlr, 0x10));
        assert(r@ =~= seq![
            Action::Write(Reg::PbistPact, 0x0),
            Action::Write(Reg::Mstgcr, MSTGCR_OFF),
            Action::Write(Reg::Minitgcr, 0x5),
            Action::Write(Reg::Mstcgstat, 0x1),
            Action::Write(Reg::Msinena, 0x1),
            Action::Write(Reg::Mstgcr, MSTGCR_ON),
            Action::Delay(32),
            Action::Write(Reg::PbistPact, 0x3),
            Action::Write(Reg::PbistDlr, 0x10),
        ]);
        r
    }

    /// Start a PBIST run of the algorithm mask `algo` on the memory-group mask
    /// `memories`. Not every algorithm suits every memory group, and some runs
    /// (ROM tests) cannot share a run with others.
    pub fn pbist_run(&self, algo: u32, memories: u32) -> (r: Vec<Action>)
        ensures
            r@ == pbist_run_spec(algo, memories),
    {
        let mut r = self.memory_self_controller(false);
        r.push(self.memory_controller_enable(false));
        r.push(Action::Write(Reg::Msinena, 0x1));
        let mut on = self.memory_self_controller(true);
        r.append(&mut on);
        r.push(Action::Write(Reg::PbistPact, 0x3));
        r.push(Action::Write(Reg::PbistAlgo, algo));
        r.push(Action::Write(Reg::PbistRinfol, memories));
        r.push(Action::Write(Reg::PbistRinfou, 0x0));
        r.push(Action::Write(Reg::PbistOver, 0x0));
        r.push(Action::Write(Reg::PbistRom, 0x3));
        r.push(Action::Write(Reg::PbistDlr, 0x14));
        assert(r@ =~= pbist_run_spec(algo, memories));
        r
    }

    /// Whether the PBIST run is done, given MSTCGSTAT as read.
    pub fn pbist_completed(&self, mstcgstat: u32) -> (r: bool)
        ensures
            r == (mstcgstat & 0x1 != 0),
    {
        mstcgstat & 0x1 != 0
    }

    /// Whether the PBIST run failed, given the fail-status register as read.
    pub fn pbist_fail(&self, fsrf0: u32) -> (r: bool)
        ensures
            r == (fsrf0 != 0),
    {
        fsrf0 != 0
    }

    /// Stop PBIST: clocks off, controller off.
    pub fn pbist_stop(&self) -> (r: Vec<Action>)
        ensures
            r@ == pbist_stop_spec(),
    {
        let mut r: Vec<Action> = Vec::new();
        r.push(Action::Write(Reg::PbistPact, 0x0));
        let mut off = self.memory_self_controller(false);
        r.append(&mut off);
        r
    }

    /// Start the clock-supervisor test (see `ClockSupervisorTest`).
    pub fn clock_supervisor_test(&self) -> (r: (ClockSupervisorTest, Step))
        ensures
            r.0 == clock_test_start_state(),
            r.1.actions@ == seq![Action::Modify(Reg::Clktest, 0xFFFF_FFFF, CLKTEST_SUPERVISOR)],
            r.1.next == Next::Read(Reg::Ghvsrc),
    {
        ClockSupervisorTest::start()
    }
}

/// Where the clock-supervisor test stands.
#[derive(Clone, Copy, Debug, PartialEq, Eq, Structural)]
pub enum ClockTestPhase {
    /// Waiting for the clock-source selection, to restore it afterwards.
    Saving,
    /// Waiting for the ESM status register holding the oscillator-fail channel.
    Checking,
    Finished,
}

/// Bit and register of the oscillator-fail channel.
pub open spec fn osc_fail_reg() -> Reg {
    status_reg_spec(channel_of(EsmError::OscFail))
}

pub open spec fn osc_fail_bit() -> u32 {
    status_bit_spec(channel_of(EsmError::OscFail))
}

/// Accesses that end the clock-supervisor test: clear the oscillator-fail channel
/// if it latched, leave test mode, enable the oscillator again and wait until it is
/// valid, clear the global status, restore the saved source selection. These are
/// made whether or not the failure was detected.
pub open spec fn clock_test_restore_spec(saved: u32, detected: bool) -> Seq<Action> {
    let tail = seq![
        Action::Modify(Reg::Clktest, !CLKTEST_SUPERVISOR, 0),
        Action::Write(Reg::Csdisclr, 0x1),
        Action::WaitAnySet(Reg::Csvstat, 0x3),
        Action::Write(Reg::Gblstat, 0x301),
        Action::Write(Reg::Ghvsrc, saved),
    ];
    if detected {
        seq![clear_action_spec(channel_of(EsmError::OscFail))] + tail
    } else {
        tail
    }
}

/// State of a clock-supervisor test that has just started.
pub open spec fn clock_test_start_state() -> ClockSupervisorTest {
    ClockSupervisorTest { phase: ClockTestPhase::Saving, saved_ghvsrc: 0, passed: false }
}

/// One step of the clock-supervisor test on the value read: the next state, the
/// accesses, and what is needed next.
pub open spec fn clock_test_step_spec(t: ClockSupervisorTest, value: u32) -> (ClockSupervisorTest, Seq<Action>, Next) {
    match t.phase {
        ClockTestPhase::Saving => (
            ClockSupervisorTest { phase: ClockTestPhase::Checking, saved_ghvsrc: value, passed: t.passed },
            seq![
                Action::Write(Reg::Ghvsrc, GHVSRC_CLOCK_TEST),
                Action::Write(Reg::Csdisset, 0x1),
                Action::WaitAnySet(Reg::Gblstat, 0x1),
            ],
            Next::Read(osc_fail_reg()),
        ),
        ClockTestPhase::Checking => {
            let detected = bit_set(value, osc_fail_bit());
            (
                ClockSupervisorTest { phase: ClockTestPhase::Finished, saved_ghvsrc: t.saved_ghvsrc, passed: detected },
                clock_test_restore_spec(t.saved_ghvsrc, detected),
                Next::Done(detected),
            )
        },
        ClockTestPhase::Finished => (t, Seq::empty(), Next::Done(t.passed)),
    }
}

/// Clock-supervisor self-test: with the clock sources on the low-power oscillator,
/// the main oscillator is disabled, and the oscillator-fail ESM channel must latch.
/// The source selection in force before the test is restored in any case.
pub struct ClockSupervisorTest {
    pub phase: ClockTestPhase,
    /// GCLK/HCLK/VCLK source selection read at the start.
    pub saved_ghvsrc: u32,
    /// Whether the failure was detected (meaningful once finished).
    pub passed: bool,
}

impl ClockSupervisorTest {
    /// Enter clock-test mode and ask for the current source selection.
    pub fn start() -> (r: (ClockSupervisorTest, Step))
        ensures
            r.0 == clock_test_start_state(),
            r.1.actions@ == seq![Action::Modify(Reg::Clktest, 0xFFFF_FFFF, CLKTEST_SUPERVISOR)],
            r.1.next == Next::Read(Reg::Ghvsrc),
    {
        let mut actions: Vec<Action> = Vec::new();
        actions.push(Action::Modify(Reg::Clktest, 0xFFFF_FFFF, CLKTEST_SUPERVISOR));
        (
            ClockSupervisorTest { phase: ClockTestPhase::Saving, saved_ghvsrc: 0, passed: false },
            Step { actions, next: Next::Read(Reg::Ghvsrc) },
        )
    }

    /// Go on with the value of the register asked for.
    pub fn resume(&mut self, value: u32) -> (r: Step)
        ensures
            (*final(self), r.actions@, r.next) == clock_test_step_spec(*old(self), value),
            old(self).phase == ClockTestPhase::Saving ==> {
                &&& final(self).phase == ClockTestPhase::Checking
                &&& final(self).saved_ghvsrc == value
                &&& r.actions@ == seq![
                    Action::Write(Reg::Ghvsrc, GHVSRC_CLOCK_TEST),
                    Action::Write(Reg::Csdisset, 0x1),
                    Action::WaitAnySet(Reg::Gblstat, 0x1),
                ]
                &&& r.next == Next::Read(osc_fail_reg())
            },
            old(self).phase == ClockTestPhase::Checking ==> {
                let detected = bit_set(value, osc_fail_bit());
                &&& final(self).phase == ClockTestPhase::Finished
                &&& final(self).passed == detected
                &&& r.actions@ == clock_test_restore_spec(old(self).saved_ghvsrc, detected)
                &&& r.next == Next::Done(detected)
            },
            old(self).phase == ClockTestPhase::Finished ==> {
                &&& *final(self) == *old(self)
                &&& r.actions@.len() == 0
                &&& r.next == Next::Done(old(self).passed)
            },
    {
        let mut actions: Vec<Action> = Vec::new();
        match self.phase {
            ClockTestPhase::Saving => {
                self.saved_ghvsrc = value;
                actions.push(Action::Write(Reg::Ghvsrc, GHVSRC_CLOCK_TEST));
                // disable the oscillator so that it fails
                actions.push(Action::Write(Reg::Csdisset, 0x1));
                actions.push(Action::WaitAnySet(Reg::Gblstat, 0x1));
                self.phase = ClockTestPhase::Checking;
                Step { actions, next: Next::Read(Esm::status_register(EsmError::OscFail)) }
            },
            ClockTestPhase::Checking => {
                let detected = Esm::error_is_set(EsmError::OscFail, value);
                if detected {
                    actions.push(Esm::clear_error(EsmError::OscFail));
                }
                actions.push(Action::Modify(Reg::Clktest, !CLKTEST_SUPERVISOR, 0));
                actions.push(Action::Write(Reg::Csdisclr, 0x1));
                actions.push(Action::WaitAnySet(Reg::Csvstat, 0x3));
                actions.push(Action::Write(Reg::Gblstat, 0x301));
                actions.push(Action::Write(Reg::Ghvsrc, self.saved_ghvsrc));
                proof {
                    assert(actions@ =~= clock_test_restore_spec(self.saved_ghvsrc, detected));
                }
                self.phase = ClockTestPhase::Finished;
                self.passed = detected;
                Step { actions, next: Next::Done(detected) }
            },
            ClockTestPhase::Finished => Step { actions, next: Next::Done(self.passed) },
        }
    }
}

/// Whatever the oscillator-fail channel reads, the clock-supervisor test ends with
/// the clock-source selection register holding the value it held before the test.
pub proof fn lemma_clock_test_restores_sources(saved: u32, detected: bool, before_restore: u32)
    ensures
        ({
            let acts = clock_test_restore_spec(saved, detected);
            &&& acts.len() > 0
            &&& acts.last() == Action::Write(Reg::Ghvsrc, saved)
            &&& value_after_write(Reg::Ghvsrc, before_restore, saved) == saved
        }),
{
}

} // verus!
