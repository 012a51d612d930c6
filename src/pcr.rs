//! Peripheral central resource: peripheral power domains.

use vstd::prelude::*;
use crate::reg::{Action, Reg};

verus! {

/// Power up every peripheral power domain.
pub open spec fn enable_all_spec() -> Seq<Action> {
    seq![
        Action::Write(Reg::PcrPspwrdwnclr(0), 0xFFFF_FFFF),
        Action::Write(Reg::PcrPspwrdwnclr(1), 0xFFFF_FFFF),
        Action::Write(Reg::PcrPspwrdwnclr(2), 0xFFFF_FFFF),
        Action::Write(Reg::PcrPspwrdwnclr(3), 0xFFFF_FFFF),
    ]
}

/// The peripheral central resource. Operations return the register accesses to
/// perform.
#[derive(Clone, Copy, Debug)]
pub struct Pcr;

impl Pcr {
    pub fn new() -> Pcr {
        Pcr
    }

    /// Power up every peripheral power domain.
    pub fn enable_all(&self) -> (r: Vec<Action>)
        ensures
            r@ == enable_all_spec(),
    {
        let mut r: Vec<Action> = Vec::new();
        r.push(Action::Write(Reg::PcrPspwrdwnclr(0), 0xFFFF_FFFF));
        r.push(Action::Write(Reg::PcrPspwrdwnclr(1), 0xFFFF_FFFF));
        r.push(Action::Write(Reg::PcrPspwrdwnclr(2), 0xFFFF_FFFF));
        r.push(Action::Write(Reg::PcrPspwrdwnclr(3), 0xFFFF_FFFF));
        r
    }
}

} // verus!
