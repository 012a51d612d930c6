//! Data-abort handling: classify an abort through the ESM and the memory
//! controllers, then recover or halt.

use vstd::prelude::*;
use crate::esm::{Esm, channel_of, clear_action_spec, status_bit_spec, status_reg_spec};
use crate::esm_ch::EsmError;
use crate::reg::{Action, CoreOp, Reg, TcRamID, bit_set};
use crate::tcram::Tcram;

verus! {

/// Diagnostic-mode field of the flash diagnostic control register.
pub const FLASH_DIAG_MODE: u32 = 0x7;

/// Response to a data abort.
pub struct AbortResponse {
    /// Accesses to perform, in order.
    pub actions: Vec<Action>,
    /// Whether the CPU must stop: the actions then end with interrupts disabled, and
    /// the caller spins forever.
    pub halted: bool,
}

/// Halting: disable interrupts (and spin).
pub open spec fn halt_spec() -> Seq<Action> {
    seq![Action::Core(CoreOp::InterruptsDisable)]
}

/// Part of the response for one RAM bank: nothing if its uncorrectable-ECC channel
/// is clear; a halt if the bank's writes are ECC-protected (a real memory error);
/// else clear the bank's error flag and the channel, and reset the error pin.
pub open spec fn ram_abort_spec(set: bool, ramctrl: u32, id: TcRamID, err: EsmError) -> (Seq<Action>, bool) {
    if !set {
        (Seq::empty(), false)
    } else if ramctrl & 0x80 != 0 {
        (halt_spec(), true)
    } else {
        (
            seq![
                Action::Write(Reg::TcramErrStatus(id), 0x20),
                clear_action_spec(channel_of(err)),
                Action::Write(Reg::EsmEkr, 0x5),
            ],
            false,
        )
    }
}

/// Part of the response for flash: nothing if its uncorrectable-ECC channel is
/// clear; a halt unless the flash is in a diagnostic mode; else clear the channel
/// and reset the error pin.
pub open spec fn flash_abort_spec(set: bool, fdiagctrl: u32) -> (Seq<Action>, bool) {
    if !set {
        (Seq::empty(), false)
    } else if fdiagctrl & FLASH_DIAG_MODE == 0 {
        (halt_spec(), true)
    } else {
        (
            seq![
                clear_action_spec(channel_of(EsmError::FMCUncorrectableECC)),
                Action::Write(Reg::EsmEkr, 0x5),
            ],
            false,
        )
    }
}

pub open spec fn latched(status: u32, err: EsmError) -> bool {
    bit_set(status, status_bit_spec(channel_of(err)))
}

/// The whole response: even bank, odd bank, flash, in that order, stopping at the
/// first halt; without a halt, run the application's hook and return onto the
/// faulting instruction.
pub open spec fn data_abort_spec(status: u32, ramctrl1: u32, ramctrl2: u32, fdiagctrl: u32) -> (Seq<Action>, bool) {
    let (a1, h1) = ram_abort_spec(
        latched(status, EsmError::RamEvenUnCorrectableECC),
        ramctrl1,
        TcRamID::One,
        EsmError::RamEvenUnCorrectableECC,
    );
    let (a2, h2) = ram_abort_spec(
        latched(status, EsmError::RamOddUnCorrectableECC),
        ramctrl2,
        TcRamID::Two,
        EsmError::RamOddUnCorrectableECC,
    );
    let (a3, h3) = flash_abort_spec(latched(status, EsmError::FMCUncorrectableECC), fdiagctrl);
    if h1 {
        (a1, true)
    } else if h2 {
        (a1 + a2, true)
    } else if h3 {
        (a1 + a2 + a3, true)
    } else {
        (
            a1 + a2 + a3 + seq![
                Action::Core(CoreOp::CustomAbortHook),
                Action::Core(CoreOp::AbortReturn),
            ],
            false,
        )
    }
}

/// ESM status register holding the three uncorrectable-error channels that the
/// handler consults.
pub fn abort_status_register() -> (r: Reg)
    ensures
        r == status_reg_spec(channel_of(EsmError::RamEvenUnCorrectableECC)),
        r == status_reg_spec(channel_of(EsmError::RamOddUnCorrectableECC)),
        r == status_reg_spec(channel_of(EsmError::FMCUncorrectableECC)),
{
    Esm::status_register(EsmError::RamEvenUnCorrectableECC)
}

fn ram_abort(status: u32, ramctrl: u32, id: TcRamID, err: EsmError, actions: &mut Vec<Action>) -> (halted: bool)
    ensures
        ({
            let (a, h) = ram_abort_spec(
                bit_set(status, status_bit_spec(channel_of(err))),
                ramctrl,
                id,
                err,
            );
            final(actions)@ == old(actions)@ + a && halted == h
        }),
{
    let ghost before = actions@;
    if !Esm::error_is_set(err, status) {
        assert(actions@ =~= before + Seq::empty());
        return false;
    }
    let tcram = Tcram::new(id);
    if tcram.ecc_write_enabled(ramctrl) {
        // a real RAM error
        actions.push(Action::Core(CoreOp::InterruptsDisable));
        assert(actions@ =~= before + halt_spec());
        return true;
    }
    actions.push(tcram.clear_error());
    actions.push(Esm::clear_error(err));
    actions.push(Esm::error_reset());
    assert(actions@ =~= before + seq![
        Action::Write(Reg::TcramErrStatus(id), 0x20),
        clear_action_spec(channel_of(err)),
        Action::Write(Reg::EsmEkr, 0x5),
    ]);
    false
}

/// Decide the response to a data abort, entered with interrupts disabled.
///
/// `status` is the ESM register of `abort_status_register`, `ramctrl1` and
/// `ramctrl2` the control registers of the even and odd RAM controllers, and
/// `fdiagctrl` the flash diagnostic control register, all as read. An uncorrectable
/// error where writes are ECC-protected halts; one met while probing (writes not
/// protected, or flash in a diagnostic mode) is cleared and the faulting
/// instruction is executed again.
pub fn data_abort(status: u32, ramctrl1: u32, ramctrl2: u32, fdiagctrl: u32) -> (r: AbortResponse)
    ensures
        (r.actions@, r.halted) == data_abort_spec(status, ramctrl1, ramctrl2, fdiagctrl),
{
    let mut actions: Vec<Action> = Vec::new();
    if ram_abort(status, ramctrl1, TcRamID::One, EsmError::RamEvenUnCorrectableECC, &mut actions) {
        assert(actions@ =~= Seq::empty() + actions@);
        return AbortResponse { actions, halted: true };
    }
    let ghost a1 = actions@;
    if ram_abort(status, ramctrl2, TcRamID::Two, EsmError::RamOddUnCorrectableECC, &mut actions) {
        return AbortResponse { actions, halted: true };
    }
    let ghost a12 = actions@;
    // flash access error
    if Esm::error_is_set(EsmError::FMCUncorrectableECC, status) {
        if fdiagctrl & FLASH_DIAG_MODE == 0 {
            actions.push(Action::Core(CoreOp::InterruptsDisable));
            assert(actions@ =~= a12 + halt_spec());
            return AbortResponse { actions, halted: true };
        }
        actions.push(Esm::clear_error(EsmError::FMCUncorrectableECC));
        actions.push(Esm::error_reset());
    }
    let ghost a123 = actions@;
    actions.push(Action::Core(CoreOp::CustomAbortHook));
    // the hazard is cleared: execute the faulting instruction again
    actions.push(Action::Core(CoreOp::AbortReturn));
    proof {
        let (f, h3) = flash_abort_spec(latched(status, EsmError::FMCUncorrectableECC), fdiagctrl);
        assert(a123 =~= a12 + f);
        assert(actions@ =~= a123 + seq![
            Action::Core(CoreOp::CustomAbortHook),
            Action::Core(CoreOp::AbortReturn),
        ]);
    }
    AbortResponse { actions, halted: false }
}

} // verus!
