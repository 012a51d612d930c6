//! Dual-clock comparator: counts two clocks against each other and flags a drift.

use vstd::prelude::*;
use crate::reg::{Action, Reg};
pub use crate::reg::DccId;

verus! {

/// Key that enables clock source 1.
pub const ENABLE_KEY: u32 = 0xA;

/// Clock sources of the two counters.
#[allow(non_camel_case_types)]
#[derive(Clone, Copy, Debug, PartialEq, Eq, Structural)]
pub enum DccClockSource {
    CNT0_HF_LPO,
    CNT0_TCK,
    CNT0_OSCIN,
    CNT1_PLL1,
    CNT1_PLL2,
    CNT1_LF_LPO,
    CNT1_HF_LPO,
    CNT1_EXTCLKIN1,
    CNT1_EXTCLKIN2,
    CNT1_VCLK,
    CNT1_N2HET1_31,
}

impl DccClockSource {
    pub open spec fn value_spec(self) -> u32 {
        match self {
            DccClockSource::CNT0_HF_LPO => 0x5,
            DccClockSource::CNT0_TCK => 0xA,
            DccClockSource::CNT0_OSCIN => 0xF,
            DccClockSource::CNT1_PLL1 => 0x0,
            DccClockSource::CNT1_PLL2 => 0x1,
            DccClockSource::CNT1_LF_LPO => 0x2,
            DccClockSource::CNT1_HF_LPO => 0x3,
            DccClockSource::CNT1_EXTCLKIN1 => 0x5,
            DccClockSource::CNT1_EXTCLKIN2 => 0x6,
            DccClockSource::CNT1_VCLK => 0x8,
            DccClockSource::CNT1_N2HET1_31 => 0xA,
        }
    }

    /// Source selection value.
    pub fn value(self) -> (r: u32)
        ensures
            r == self.value_spec(),
    {
        match self {
            DccClockSource::CNT0_HF_LPO => 0x5,
            DccClockSource::CNT0_TCK => 0xA,
            DccClockSource::CNT0_OSCIN => 0xF,
            DccClockSource::CNT1_PLL1 => 0x0,
            DccClockSource::CNT1_PLL2 => 0x1,
            DccClockSource::CNT1_LF_LPO => 0x2,
            DccClockSource::CNT1_HF_LPO => 0x3,
            DccClockSource::CNT1_EXTCLKIN1 => 0x5,
            DccClockSource::CNT1_EXTCLKIN2 => 0x6,
            DccClockSource::CNT1_VCLK => 0x8,
            DccClockSource::CNT1_N2HET1_31 => 0xA,
        }
    }
}

/// Key field of the counter-1 source register (bits 12 to 15).
pub const KEY_FIELD: u32 = 0xF << 12;

/// Key value that leaves the counter-1 source at its default.
pub const DISABLE_KEY: u32 = 0x5;

/// One dual-clock comparator. Operations return the register accesses to perform.
#[derive(Clone, Copy, Debug)]
pub struct Dcc {
    pub id: DccId,
}

impl Dcc {
    pub fn new(id: DccId) -> (r: Dcc)
        ensures
            r.id == id,
    {
        Dcc { id }
    }

    /// Start (`true`) or stop counting.
    pub fn enable(&self, enable: bool) -> (r: Action)
        ensures
            r == Action::Modify(
                Reg::DccGctrl(self.id),
                if enable { 0xFFFF_FFFAu32 } else { 0xFFFF_FFF5u32 },
                0,
            ),
    {
        if enable {
            Action::Modify(Reg::DccGctrl(self.id), 0xFFFF_FFFA, 0)
        } else {
            Action::Modify(Reg::DccGctrl(self.id), 0xFFFF_FFF5, 0)
        }
    }

    /// Select the counter-0 clock source.
    pub fn clock0_source(&self, clk_src: DccClockSource) -> (r: Action)
        ensures
            r == Action::Write(Reg::DccCnt0ClkSrc(self.id), clk_src.value_spec()),
    {
        Action::Write(Reg::DccCnt0ClkSrc(self.id), clk_src.value())
    }

    /// Select the counter-1 clock source without enabling it.
    pub fn clock1_source(&self, clk_src: DccClockSource) -> (r: Action)
        ensures
            r == Action::Write(Reg::DccCnt1ClkSrc(self.id), clk_src.value_spec()),
    {
        Action::Write(Reg::DccCnt1ClkSrc(self.id), clk_src.value())
    }

    /// Select both clock sources and enable source 1.
    pub fn select_source(&self, clk0_src: DccClockSource, clk1_src: DccClockSource) -> (r: Vec<Action>)
        ensures
            r@ == seq![
                Action::Write(Reg::DccCnt0ClkSrc(self.id), clk0_src.value_spec()),
                Action::Write(Reg::DccCnt1ClkSrc(self.id), clk1_src.value_spec()),
                Action::Modify(Reg::DccCnt1ClkSrc(self.id), !KEY_FIELD, ENABLE_KEY << 12u32),
            ],
    {
        let mut r: Vec<Action> = Vec::new();
        r.push(self.clock0_source(clk0_src));
        r.push(self.clock1_source(clk1_src));
        r.push(self.clock1_source_enable(true));
        r
    }

    /// Enable or disable the counter-1 source selection: set the key field of the
    /// counter-1 source register, keeping the source bits (source 0 is always
    /// enabled). With any key but the enable key the counter uses its default source.
    pub fn clock1_source_enable(&self, enable: bool) -> (r: Action)
        ensures
            r == Action::Modify(
                Reg::DccCnt1ClkSrc(self.id),
                !KEY_FIELD,
                (if enable { ENABLE_KEY } else { DISABLE_KEY }) << 12u32,
            ),
    {
        if enable {
            Action::Modify(Reg::DccCnt1ClkSrc(self.id), !KEY_FIELD, ENABLE_KEY << 12)
        } else {
            Action::Modify(Reg::DccCnt1ClkSrc(self.id), !KEY_FIELD, DISABLE_KEY << 12)
        }
    }

    /// Counter-0 seed.
    pub fn counter0_seed(&self, cnt0: u32) -> (r: Action)
        ensures
            r == Action::Write(Reg::DccCnt0Seed(self.id), cnt0),
    {
        Action::Write(Reg::DccCnt0Seed(self.id), cnt0)
    }

    /// Counter-0 tolerance: the valid-window seed.
    pub fn tollerance(&self, valid0: u32) -> (r: Action)
        ensures
            r == Action::Write(Reg::DccValid0Seed(self.id), valid0),
    {
        Action::Write(Reg::DccValid0Seed(self.id), valid0)
    }

    /// Counter-1 seed.
    pub fn counter1_seed(&self, cnt1: u32) -> (r: Action)
        ensures
            r == Action::Write(Reg::DccCnt1Seed(self.id), cnt1),
    {
        Action::Write(Reg::DccCnt1Seed(self.id), cnt1)
    }

    /// Whether the comparator flagged an error, given its status register as read.
    pub fn error(&self, stat: u32) -> (r: bool)
        ensures
            r == (stat & 0x1 != 0),
    {
        stat & 0x1 != 0
    }
}

} // verus!
