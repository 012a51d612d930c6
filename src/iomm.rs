//! I/O multiplexing module: selects the function of each pin.

use vstd::prelude::*;
use crate::pinmux::PinMux;
use crate::reg::{Action, Reg};

verus! {

/// First half of the key that unlocks pin multiplexing.
pub const KICK0_KEY: u32 = 0x83E7_0B13;

/// Second half of the key that unlocks pin multiplexing.
pub const KICK1_KEY: u32 = 0x95A4_F1E0;

/// Unlock (`true`) or lock pin multiplexing.
pub open spec fn kicker_spec(open: bool) -> Seq<Action> {
    if open {
        seq![Action::Write(Reg::IommKicker0, KICK0_KEY), Action::Write(Reg::IommKicker1, KICK1_KEY)]
    } else {
        seq![Action::Write(Reg::IommKicker0, 0x0), Action::Write(Reg::IommKicker1, 0x0)]
    }
}

/// Select a pin function: in the pin's control register, clear the pin's byte and
/// set the bit of the option.
pub open spec fn configure_spec(pin: PinMux) -> Action {
    Action::Modify(
        Reg::IommPinmmr(pin.group_spec()),
        !(0xFFu32 << (pin.shift_spec() as u32)),
        1u32 << ((pin.shift_spec() + pin.option_spec()) as u32),
    )
}

/// The I/O multiplexing module. Operations return the register accesses to perform.
#[derive(Clone, Copy, Debug)]
pub struct Iomm;

impl Iomm {
    pub fn new() -> Iomm {
        Iomm
    }

    /// The key is not trivial, so that pins are not re-multiplexed by accident; for
    /// the same reason this is not public.
    fn kicker(&self, open: bool) -> (r: Vec<Action>)
        ensures
            r@ == kicker_spec(open),
    {
        let mut r: Vec<Action> = Vec::new();
        if open {
            r.push(Action::Write(Reg::IommKicker0, KICK0_KEY));
            r.push(Action::Write(Reg::IommKicker1, KICK1_KEY));
        } else {
            r.push(Action::Write(Reg::IommKicker0, 0x0));
            r.push(Action::Write(Reg::IommKicker1, 0x0));
        }
        r
    }

    fn configure(&self, pin: PinMux) -> (r: Action)
        ensures
            r == configure_spec(pin),
    {
        let shift = pin.shift();
        let option = pin.option();
        let bit: u32 = 1u32 << ((shift + option) as u32);
        Action::Modify(Reg::IommPinmmr(pin.group()), !(0xFFu32 << (shift as u32)), bit)
    }

    /// Select the functions of the pins, in order, with multiplexing unlocked for
    /// the duration.
    pub fn setup_pins(&self, pins: &[PinMux]) -> (r: Vec<Action>)
        ensures
            r@ == kicker_spec(true) + pins@.map_values(|p: PinMux| configure_spec(p)) + kicker_spec(
                false,
            ),
    {
        let mut r = self.kicker(true);
        let mut i: usize = 0;
        while i < pins.len()
            invariant
                i <= pins@.len(),
                r@ == kicker_spec(true) + pins@.subrange(0, i as int).map_values(
                    |p: PinMux| configure_spec(p),
                ),
            decreases pins.len() - i,
        {
            let a = self.configure(pins[i]);
            r.push(a);
            proof {
                assert(pins@.subrange(0, i as int + 1).map_values(|p: PinMux| configure_spec(p))
                    =~= pins@.subrange(0, i as int).map_values(|p: PinMux| configure_spec(p)).push(a));
            }
            i = i + 1;
        }
        let mut close = self.kicker(false);
        r.append(&mut close);
        proof {
            assert(pins@.subrange(0, pins@.len() as int) =~= pins@);
        }
        r
    }
}

} // verus!
