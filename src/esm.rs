//! Error Signaling Module: latched fault status, routing to the interrupt path and
//! the error pin.

use vstd::prelude::*;
use crate::esm_ch::{EsmChannel, EsmError, EsmGroup, esm_ch_spec, esm_group_spec};
use crate::reg::{Action, Reg, bit_set, value_after_write};

verus! {

/// Status register that latches a channel: channels below 31 of a group sit in
/// that group's SR1 register, all others in its SR4 register.
pub open spec fn status_reg_spec(c: EsmChannel) -> Reg {
    if c.ch < 31 {
        Reg::EsmSr1(c.group)
    } else {
        Reg::EsmSr4(c.group)
    }
}

/// Bit of the status register that latches a channel: the channel number in SR1,
/// the channel number less 32 in SR4, taken modulo the 32 bits of the register
/// (so channel 31 lands on bit 31 of SR4).
pub open spec fn status_bit_spec(c: EsmChannel) -> u32 {
    if c.ch < 31 {
        c.ch as u32
    } else {
        ((c.ch - 32) % 32) as u32
    }
}

/// The (group, channel) pair of a named fault, as a spec value.
pub open spec fn channel_of(e: EsmError) -> EsmChannel {
    EsmChannel { group: esm_group_spec(e), ch: esm_ch_spec(e) }
}

/// The write that clears a latched channel.
pub open spec fn clear_action_spec(c: EsmChannel) -> Action {
    Action::Write(status_reg_spec(c), 1u32 << status_bit_spec(c))
}

/// Register and bit holding one channel's latched status.
#[derive(Clone, Copy, Debug, PartialEq, Eq, Structural)]
pub struct StatusBit {
    pub reg: Reg,
    pub bit: u32,
}

/// Where a channel of groups one to three is latched. Group four has no status
/// register, so it has no location.
pub fn status_bit(c: EsmChannel) -> (r: Option<StatusBit>)
    requires
        c.ch < 64,
    ensures
        c.group < 3 <==> r.is_some(),
        r matches Some(s) ==> s.reg == status_reg_spec(c) && s.bit == status_bit_spec(c)
            && s.bit < 32,
{
    if c.group >= 3 {
        return None;
    }
    if c.ch < 31 {
        Some(StatusBit { reg: Reg::EsmSr1(c.group), bit: c.ch as u32 })
    } else if c.ch == 31 {
        Some(StatusBit { reg: Reg::EsmSr4(c.group), bit: 31 })
    } else {
        Some(StatusBit { reg: Reg::EsmSr4(c.group), bit: (c.ch - 32) as u32 })
    }
}

/// Register and bit of a channel in a pair of routing registers: channels 0 to 31
/// in the first register of the pair, 32 to 63 in the second.
pub open spec fn routing_bit_spec(ch: usize) -> u32 {
    if ch < 32 {
        1u32 << (ch as u32)
    } else {
        1u32 << ((ch - 32) as u32)
    }
}

/// The Error Signaling Module. Its operations return the register accesses they
/// make; a test of a latched bit takes the status register as read.
pub struct Esm;

impl Esm {
    /// Register to read for `error_is_set` of a named fault.
    pub fn status_register(err: EsmError) -> (r: Reg)
        ensures
            r == status_reg_spec(channel_of(err)),
    {
        let ch = err.ch();
        let group = err.group();
        if ch < 31 {
            Reg::EsmSr1(group)
        } else {
            Reg::EsmSr4(group)
        }
    }

    /// Whether the fault is latched, given its status register (see
    /// `status_register`) as read.
    pub fn error_is_set(err: EsmError, status: u32) -> (r: bool)
        ensures
            r == bit_set(status, status_bit_spec(channel_of(err))),
    {
        let loc = status_bit(err.channel());
        let s = loc.unwrap();
        (status >> s.bit) & 1 == 1
    }

    /// Clear a latched fault: write one to its status bit.
    pub fn clear_error(err: EsmError) -> (r: Action)
        ensures
            r == clear_action_spec(channel_of(err)),
    {
        let s = status_bit(err.channel()).unwrap();
        Action::Write(s.reg, 1u32 << s.bit)
    }

    /// Clear a latched channel given by number, if it has a status register.
    pub fn clear_channel(c: EsmChannel) -> (r: Option<Action>)
        requires
            c.ch < 64,
        ensures
            c.group < 3 <==> r.is_some(),
            r matches Some(a) ==> a == clear_action_spec(c),
    {
        match status_bit(c) {
            Some(s) => Some(Action::Write(s.reg, 1u32 << s.bit)),
            None => None,
        }
    }

    /// Clear every latched status bit and the group-two shadow status.
    pub fn clear_all_errors() -> (r: Vec<Action>)
        ensures
            r@ == seq![
                Action::Write(Reg::EsmSr1(0), 0xFFFF_FFFF),
                Action::Write(Reg::EsmSr1(1), 0xFFFF_FFFF),
                Action::Write(Reg::EsmSr1(2), 0xFFFF_FFFF),
                Action::Write(Reg::EsmSsr2, 0xFFFF_FFFF),
                Action::Write(Reg::EsmSr4(0), 0xFFFF_FFFF),
            ],
    {
        let mut v: Vec<Action> = Vec::new();
        v.push(Action::Write(Reg::EsmSr1(0), 0xFFFF_FFFF));
        v.push(Action::Write(Reg::EsmSr1(1), 0xFFFF_FFFF));
        v.push(Action::Write(Reg::EsmSr1(2), 0xFFFF_FFFF));
        v.push(Action::Write(Reg::EsmSsr2, 0xFFFF_FFFF));
        v.push(Action::Write(Reg::EsmSr4(0), 0xFFFF_FFFF));
        v
    }

    /// Clear the shadow status flag of a group.
    pub fn shadow_stat_clear(group: EsmGroup) -> (r: Action)
        ensures
            r == Action::Write(Reg::EsmSsr2, 1u32 << (group.index_spec() as u32)),
    {
        Action::Write(Reg::EsmSsr2, 1u32 << (group.index() as u32))
    }

    /// Stop routing the fault to the CPU interrupt path.
    pub fn disable_interrupt(err: EsmError) -> (r: Action)
        ensures
            r == Action::Write(
                if esm_ch_spec(err) < 32 { Reg::EsmIecr1 } else { Reg::EsmIecr4 },
                routing_bit_spec(esm_ch_spec(err)),
            ),
    {
        let ch = err.ch();
        if ch < 32 {
            Action::Write(Reg::EsmIecr1, 1u32 << (ch as u32))
        } else {
            Action::Write(Reg::EsmIecr4, 1u32 << ((ch - 32) as u32))
        }
    }

    /// Route the fault to the CPU interrupt path.
    pub fn enable_interrupt(err: EsmError) -> (r: Action)
        ensures
            r == Action::Write(
                if esm_ch_spec(err) < 32 { Reg::EsmIesr1 } else { Reg::EsmIesr4 },
                routing_bit_spec(esm_ch_spec(err)),
            ),
    {
        let ch = err.ch();
        if ch < 32 {
            Action::Write(Reg::EsmIesr1, 1u32 << (ch as u32))
        } else {
            Action::Write(Reg::EsmIesr4, 1u32 << ((ch - 32) as u32))
        }
    }

    /// Stop driving the error pin on the fault.
    pub fn disable_error(err: EsmError) -> (r: Action)
        ensures
            r == Action::Write(
                if esm_ch_spec(err) < 32 { Reg::EsmDepapr1 } else { Reg::EsmIepcr4 },
                routing_bit_spec(esm_ch_spec(err)),
            ),
    {
        let ch = err.ch();
        if ch < 32 {
            Action::Write(Reg::EsmDepapr1, 1u32 << (ch as u32))
        } else {
            Action::Write(Reg::EsmIepcr4, 1u32 << ((ch - 32) as u32))
        }
    }

    /// Drive the error pin on the fault.
    pub fn enable_error(err: EsmError) -> (r: Action)
        ensures
            r == Action::Write(
                if esm_ch_spec(err) < 32 { Reg::EsmEepapr1 } else { Reg::EsmIepsr4 },
                routing_bit_spec(esm_ch_spec(err)),
            ),
    {
        let ch = err.ch();
        if ch < 32 {
            Action::Write(Reg::EsmEepapr1, 1u32 << (ch as u32))
        } else {
            Action::Write(Reg::EsmIepsr4, 1u32 << ((ch - 32) as u32))
        }
    }

    /// Start the error-pin reset sequence: the pin goes inactive once the
    /// low-time counter expires.
    pub fn error_reset() -> (r: Action)
        ensures
            r == Action::Write(Reg::EsmEkr, 0x5),
    {
        Action::Write(Reg::EsmEkr, 0x5)
    }

    /// Put the error pin in normal operation.
    pub fn normal_operation() -> (r: Action)
        ensures
            r == Action::Write(Reg::EsmEkr, 0x0),
    {
        Action::Write(Reg::EsmEkr, 0x0)
    }

    /// Program the error-pin low-time counter preload (the register holds the
    /// preload less one).
    pub fn set_preload(preload: u16) -> (r: Action)
        requires
            preload >= 1,
        ensures
            r == Action::Write(Reg::EsmLtcpr, (preload - 1) as u32),
    {
        Action::Write(Reg::EsmLtcpr, (preload - 1) as u32)
    }

    /// Whether the error pin is active, given the error-pin status register.
    pub fn error_pin_active(epsr: u32) -> (r: bool)
        ensures
            r == (epsr == 0),
    {
        epsr == 0
    }

    /// Pending high-level interrupt channel, given the high-level offset register:
    /// the offset less one, or nothing when the offset is zero.
    pub fn high_level_interrupt(ioffhr: u32) -> (r: Option<u32>)
        ensures
            ioffhr == 0 ==> r.is_none(),
            ioffhr != 0 ==> r == Some((ioffhr - 1) as u32),
    {
        if ioffhr == 0 {
            None
        } else {
            Some(ioffhr - 1)
        }
    }

    /// Pending low-level interrupt channel, given the low-level offset register:
    /// the offset less one, or nothing when the offset is zero.
    pub fn low_level_interrupt(iofflr: u32) -> (r: Option<u32>)
        ensures
            iofflr == 0 ==> r.is_none(),
            iofflr != 0 ==> r == Some((iofflr - 1) as u32),
    {
        if iofflr == 0 {
            None
        } else {
            Some(iofflr - 1)
        }
    }

    /// Reset the module: disable all error-pin and interrupt routing, clear every
    /// latched error, then reset the error pin if it is active (else put it in normal
    /// operation), and program the low-time counter preload. `epsr` is the error-pin
    /// status register as read.
    pub fn reset(preload: u16, epsr: u32) -> (r: Vec<Action>)
        requires
            preload >= 1,
        ensures
            r@ == seq![
                Action::Write(Reg::EsmDepapr1, 0xFFFF_FFFF),
                Action::Write(Reg::EsmIepcr4, 0xFFFF_FFFF),
                Action::Write(Reg::EsmIecr1, 0xFFFF_FFFF),
                Action::Write(Reg::EsmIecr4, 0xFFFF_FFFF),
                Action::Write(Reg::EsmSr1(0), 0xFFFF_FFFF),
                Action::Write(Reg::EsmSr1(1), 0xFFFF_FFFF),
                Action::Write(Reg::EsmSr1(2), 0xFFFF_FFFF),
                Action::Write(Reg::EsmSsr2, 0xFFFF_FFFF),
                Action::Write(Reg::EsmSr4(0), 0xFFFF_FFFF),
                Action::Write(Reg::EsmEkr, if epsr == 0 { 0x5u32 } else { 0x0u32 }),
                Action::Write(Reg::EsmLtcpr, (preload - 1) as u32),
            ],
    {
        let mut v: Vec<Action> = Vec::new();
        v.push(Action::Write(Reg::EsmDepapr1, 0xFFFF_FFFF));
        v.push(Action::Write(Reg::EsmIepcr4, 0xFFFF_FFFF));
        v.push(Action::Write(Reg::EsmIecr1, 0xFFFF_FFFF));
        v.push(Action::Write(Reg::EsmIecr4, 0xFFFF_FFFF));
        let mut clear = Esm::clear_all_errors();
        v.append(&mut clear);
        if Esm::error_pin_active(epsr) {
            v.push(Esm::error_reset());
        } else {
            v.push(Esm::normal_operation());
        }
        v.push(Esm::set_preload(preload));
        v
    }
}

/// Clearing an ESM channel writes one to its latched bit, which is not a toggle:
/// clearing twice leaves the status register as clearing once does, and clearing a
/// channel that is not latched leaves the register unchanged.
pub proof fn lemma_clear_error_idempotent(err: EsmError, status: u32)
    ensures
        ({
            let c = channel_of(err);
            let r = status_reg_spec(c);
            let m = 1u32 << status_bit_spec(c);
            &&& clear_action_spec(c) == Action::Write(r, m)
            &&& value_after_write(r, value_after_write(r, status, m), m)
                == value_after_write(r, status, m)
            &&& !bit_set(status, status_bit_spec(c)) ==> value_after_write(r, status, m) == status
        }),
{
    let c = channel_of(err);
    let b = status_bit_spec(c);
    let m = 1u32 << b;
    assert(b < 32);
    assert((status & !m) & !m == status & !m) by (bit_vector);
    assert(b < 32 && (status >> b) & 1 != 1 ==> status & !(1u32 << b) == status) by (bit_vector);
}

} // verus!
