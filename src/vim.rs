//! Vectored interrupt manager: channel types and masks, and the parity protection
//! of its vector RAM.

use vstd::prelude::*;
use crate::esm::{Esm, channel_of, clear_action_spec, status_bit_spec, status_reg_spec};
use crate::esm_ch::{EsmChannel, EsmError};
use crate::reg::{Action, Next, Reg, Step, bit_set};

verus! {

/// Number of interrupt channels.
pub const VIM_CHANNELS: usize = 128;

/// Channels per request register.
pub const VIM_CH_GROUPS: usize = 32;

/// Parity control: parity checking and test mode on.
pub const TEST_ENABLE: u32 = 0x10;

/// Whether a channel raises an IRQ or an FIQ.
#[derive(Clone, Copy, Debug, PartialEq, Eq, Structural)]
pub enum VimType {
    SysInterrupt,
    FirInterrupt,
}

/// The interrupt manager. Operations return the register accesses to perform.
#[derive(Clone, Copy, Debug)]
pub struct Vim;

impl Vim {
    pub fn new() -> Vim {
        Vim
    }

    /// Point a channel's vector-table entry at a handler address. Channels 0 to 2
    /// are reserved, and channels from 128 on do not exist: nothing is written then.
    pub fn isr_set(&self, ch: usize, isr: u32) -> (r: Option<Action>)
        ensures
            (ch > 2 && ch < VIM_CHANNELS) <==> r.is_some(),
            r matches Some(a) ==> a == Action::Write(Reg::VimTable(ch), isr),
    {
        if ch > 2 && ch < VIM_CHANNELS {
            Some(Action::Write(Reg::VimTable(ch), isr))
        } else {
            None
        }
    }

    /// Set the handler run on a parity error in the vector RAM.
    pub fn parity_fallback_handler(&self, fb: u32) -> (r: Action)
        ensures
            r == Action::Write(Reg::VimFbparerr, fb),
    {
        Action::Write(Reg::VimFbparerr, fb)
    }

    /// Switch vector RAM parity checking on or off.
    pub fn parity_enable(&self, enable: bool) -> (r: Action)
        ensures
            r == Action::Write(Reg::VimParflg, if enable { 0xAu32 } else { 0x5u32 }),
    {
        if enable {
            Action::Write(Reg::VimParflg, 0xA)
        } else {
            Action::Write(Reg::VimParflg, 0x5)
        }
    }

    /// Clear the vector RAM parity error flag.
    pub fn parity_flag_clear(&self) -> (r: Action)
        ensures
            r == Action::Write(Reg::VimParflg, 0x1),
    {
        Action::Write(Reg::VimParflg, 0x1)
    }

    /// Start the vector RAM parity self-check (see `VimParityCheck`).
    pub fn parity_check(&self) -> (r: (VimParityCheck, Step))
        ensures
            r.0.phase == ParityPhase::SaveControl,
            r.1.actions@.len() == 0,
            r.1.next == Next::Read(Reg::VimParctl),
    {
        VimParityCheck::start()
    }

    /// Make a channel an IRQ or an FIQ; channels from 128 on do not exist.
    pub fn set_type(&self, ch: usize, int_type: VimType) -> (r: Option<Action>)
        ensures
            ch < VIM_CHANNELS <==> r.is_some(),
            r matches Some(a) ==> a == match int_type {
                VimType::SysInterrupt => Action::Modify(
                    Reg::VimFirqpr(ch / 32),
                    !(1u32 << ((ch % 32) as u32)),
                    0,
                ),
                VimType::FirInterrupt => Action::Modify(
                    Reg::VimFirqpr(ch / 32),
                    0xFFFF_FFFF,
                    1u32 << ((ch % 32) as u32),
                ),
            },
    {
        if ch < VIM_CHANNELS {
            let grp = ch / VIM_CH_GROUPS;
            let id: u32 = 1u32 << ((ch % VIM_CH_GROUPS) as u32);
            match int_type {
                VimType::SysInterrupt => Some(Action::Modify(Reg::VimFirqpr(grp), !id, 0)),
                VimType::FirInterrupt => Some(Action::Modify(Reg::VimFirqpr(grp), 0xFFFF_FFFF, id)),
            }
        } else {
            None
        }
    }

    /// Mask or unmask a channel's requests; channels from 128 on do not exist.
    pub fn interrupt_enable(&self, ch: usize, enable: bool) -> (r: Option<Action>)
        ensures
            ch < VIM_CHANNELS <==> r.is_some(),
            r matches Some(a) ==> a == Action::Write(
                if enable { Reg::VimReqmaskset(ch / 32) } else { Reg::VimReqmaskclr(ch / 32) },
                1u32 << ((ch % 32) as u32),
            ),
    {
        if ch < VIM_CHANNELS {
            let grp = ch / VIM_CH_GROUPS;
            let id: u32 = 1u32 << ((ch % VIM_CH_GROUPS) as u32);
            if enable {
                Some(Action::Write(Reg::VimReqmaskset(grp), id))
            } else {
                Some(Action::Write(Reg::VimReqmaskclr(grp), id))
            }
        } else {
            None
        }
    }

    /// Acknowledge the ESM interrupt request (channel 0).
    pub fn clear_esm_interrupt(&self) -> (r: Action)
        ensures
            r == Action::Write(Reg::VimIntreq(0), 0x1),
    {
        Action::Write(Reg::VimIntreq(0), 0x1)
    }

    /// Default response to a vector RAM parity error, given the FIQ and IRQ index
    /// registers and the ESM high-level offset register as read. Clears the parity
    /// flag; for the high-priority ESM interrupt (which cannot be masked)
    /// acknowledges it and clears the ESM channel it reports; for another pending
    /// channel masks and unmasks it.
    pub fn default_parity_fallback_handler(&self, fiq_index: u32, irq_index: u32, ioffhr: u32) -> (r: Vec<Action>)
        ensures
            r@.len() >= 1,
            r@[0] == Action::Write(Reg::VimParflg, 0x1),
            fiq_index == 0 && irq_index == 0 ==> r@.len() == 1,
            ({
                let v = if fiq_index != 0 { fiq_index - 1 } else { irq_index - 1 };
                &&& (fiq_index != 0 || irq_index != 0) && v == 0 ==> {
                    &&& r@.len() >= 2
                    &&& r@[1] == Action::Write(Reg::VimIntreq(0), 0x1)
                    &&& (1 <= ioffhr <= 96 ==> r@.len() == 3 && r@[2] == clear_action_spec(
                        EsmChannel { group: ((ioffhr - 1) / 32) as usize, ch: ((ioffhr - 1) % 32) as usize },
                    ))
                    &&& (ioffhr == 0 || ioffhr > 96 ==> r@.len() == 2)
                }
                &&& (fiq_index != 0 || irq_index != 0) && v > 0 && v < 128 ==> r@ == seq![
                    Action::Write(Reg::VimParflg, 0x1),
                    Action::Write(Reg::VimReqmaskclr((v / 32) as usize), 1u32 << ((v % 32) as u32)),
                    Action::Write(Reg::VimReqmaskset((v / 32) as usize), 1u32 << ((v % 32) as u32)),
                ]
                &&& (fiq_index != 0 || irq_index != 0) && v >= 128 ==> r@.len() == 1
            }),
    {
        let mut r: Vec<Action> = Vec::new();
        r.push(self.parity_flag_clear());
        if fiq_index == 0 && irq_index == 0 {
            return r;
        }
        let v = if fiq_index != 0 {
            fiq_index - 1
        } else {
            irq_index - 1
        };
        if v == 0 {
            // the high-priority ESM interrupt cannot be masked: clear its cause
            r.push(self.clear_esm_interrupt());
            if let Some(vec) = Esm::high_level_interrupt(ioffhr) {
                if vec < 96 {
                    if let Some(c) = EsmChannel::from_index(vec as u8) {
                        if let Some(a) = Esm::clear_channel(c) {
                            r.push(a);
                        }
                    }
                }
            }
        } else if v < 128 {
            let off = self.interrupt_enable(v as usize, false).unwrap();
            let on = self.interrupt_enable(v as usize, true).unwrap();
            r.push(off);
            r.push(on);
        }
        r
    }
}

/// Where the vector RAM parity self-check stands.
#[derive(Clone, Copy, Debug, PartialEq, Eq, Structural)]
pub enum ParityPhase {
    /// Waiting for the parity control register, to restore it afterwards.
    SaveControl,
    /// Waiting for the first parity RAM word, to flip a bit of it.
    Inject,
    /// Waiting for the read-back that trips the parity error.
    Provoke,
    /// Waiting for the ESM register of the VIM parity channel.
    Check,
    /// Waiting for the parity word again, to flip the bit back.
    Repair,
    Finished,
}

pub open spec fn vim_parity_reg() -> Reg {
    status_reg_spec(channel_of(EsmError::VimParity))
}

pub open spec fn vim_parity_bit() -> u32 {
    status_bit_spec(channel_of(EsmError::VimParity))
}

/// Self-check of the vector RAM parity protection: with parity test mode on, one
/// parity bit is flipped and read back, and the VIM parity ESM channel must latch.
/// The bit is flipped back and the parity control restored; the check passes if
/// the channel latched.
pub struct VimParityCheck {
    pub phase: ParityPhase,
    pub saved_parctl: u32,
    pub passed: bool,
}

impl VimParityCheck {
    pub fn start() -> (r: (VimParityCheck, Step))
        ensures
            r.0.phase == ParityPhase::SaveControl,
            r.1.actions@.len() == 0,
            r.1.next == Next::Read(Reg::VimParctl),
    {
        (
            VimParityCheck { phase: ParityPhase::SaveControl, saved_parctl: 0, passed: false },
            Step { actions: Vec::new(), next: Next::Read(Reg::VimParctl) },
        )
    }

    /// Go on with the value of the register asked for.
    pub fn resume(&mut self, value: u32) -> (r: Step)
        ensures
            old(self).phase == ParityPhase::SaveControl ==> {
                &&& final(self).phase == ParityPhase::Inject && final(self).saved_parctl == value
                &&& r.actions@ == seq![Action::Write(Reg::VimParctl, TEST_ENABLE)]
                &&& r.next == Next::Read(Reg::VimParityRam0)
            },
            old(self).phase == ParityPhase::Inject ==> {
                &&& final(self).phase == ParityPhase::Provoke
                &&& final(self).saved_parctl == old(self).saved_parctl
                &&& r.actions@ == seq![
                    Action::Write(Reg::VimParityRam0, value ^ 0x1),
                    Action::Write(Reg::VimParflg, 0xA),
                ]
                &&& r.next == Next::Read(Reg::VimParityRam0)
            },
            old(self).phase == ParityPhase::Provoke ==> {
                &&& final(self).phase == ParityPhase::Check
                &&& final(self).saved_parctl == old(self).saved_parctl
                &&& r.actions@.len() == 0
                &&& r.next == Next::Read(vim_parity_reg())
            },
            old(self).phase == ParityPhase::Check ==> if bit_set(value, vim_parity_bit()) {
                &&& final(self).phase == ParityPhase::Repair
                &&& final(self).saved_parctl == old(self).saved_parctl
                &&& r.actions@ == seq![
                    Action::Write(Reg::VimParflg, 0x1),
                    clear_action_spec(channel_of(EsmError::VimParity)),
                ]
                &&& r.next == Next::Read(Reg::VimParityRam0)
            } else {
                &&& final(self).phase == ParityPhase::Finished && !final(self).passed
                &&& r.actions@ == seq![Action::Write(Reg::VimParctl, old(self).saved_parctl)]
                &&& r.next == Next::Done(false)
            },
            old(self).phase == ParityPhase::Repair ==> {
                &&& final(self).phase == ParityPhase::Finished && final(self).passed
                &&& r.actions@ == seq![
                    Action::Write(Reg::VimParityRam0, value ^ 0x1),
                    Action::Write(Reg::VimParctl, old(self).saved_parctl),
                ]
                &&& r.next == Next::Done(true)
            },
            old(self).phase == ParityPhase::Finished ==> {
                &&& *final(self) == *old(self)
                &&& r.actions@.len() == 0 && r.next == Next::Done(old(self).passed)
            },
    {
        let vim = Vim::new();
        let mut actions: Vec<Action> = Vec::new();
        match self.phase {
            ParityPhase::SaveControl => {
                self.saved_parctl = value;
                // parity checking and parity test mode on
                actions.push(Action::Write(Reg::VimParctl, TEST_ENABLE));
                self.phase = ParityPhase::Inject;
                Step { actions, next: Next::Read(Reg::VimParityRam0) }
            },
            ParityPhase::Inject => {
                // flip a bit for fault injection
                actions.push(Action::Write(Reg::VimParityRam0, value ^ 0x1));
                actions.push(vim.parity_enable(true));
                self.phase = ParityPhase::Provoke;
                // reading the data back causes the parity error
                Step { actions, next: Next::Read(Reg::VimParityRam0) }
            },
            ParityPhase::Provoke => {
                self.phase = ParityPhase::Check;
                Step { actions, next: Next::Read(Esm::status_register(EsmError::VimParity)) }
            },
            ParityPhase::Check => {
                if Esm::error_is_set(EsmError::VimParity, value) {
                    actions.push(vim.parity_flag_clear());
                    actions.push(Esm::clear_error(EsmError::VimParity));
                    self.phase = ParityPhase::Repair;
                    Step { actions, next: Next::Read(Reg::VimParityRam0) }
                } else {
                    actions.push(Action::Write(Reg::VimParctl, self.saved_parctl));
                    self.phase = ParityPhase::Finished;
                    self.passed = false;
                    Step { actions, next: Next::Done(false) }
                }
            },
            ParityPhase::Repair => {
                actions.push(Action::Write(Reg::VimParityRam0, value ^ 0x1));
                actions.push(Action::Write(Reg::VimParctl, self.saved_parctl));
                self.phase = ParityPhase::Finished;
                self.passed = true;
                Step { actions, next: Next::Done(true) }
            },
            ParityPhase::Finished => Step { actions, next: Next::Done(self.passed) },
        }
    }
}

} // verus!
