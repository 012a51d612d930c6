//! Tightly-coupled RAM controllers.

use vstd::prelude::*;
use crate::reg::{Action, Reg};
pub use crate::reg::TcRamID;

verus! {

/// ECC-write enable bit of the RAM control register.
pub const ECC_WRITE_ENABLE: u32 = 0x80;

/// One RAM controller.
#[derive(Clone, Copy, Debug)]
pub struct Tcram {
    pub id: TcRamID,
}

impl Tcram {
    pub fn new(id: TcRamID) -> (r: Tcram)
        ensures
            r.id == id,
    {
        Tcram { id }
    }

    /// Register to read for `ecc_write_enabled`.
    pub fn control_register(&self) -> (r: Reg)
        ensures
            r == Reg::TcramCtrl(self.id),
    {
        Reg::TcramCtrl(self.id)
    }

    /// Whether writes are ECC-protected, given the control register as read.
    pub fn ecc_write_enabled(&self, ramctrl: u32) -> (r: bool)
        ensures
            r == (ramctrl & ECC_WRITE_ENABLE != 0),
    {
        ramctrl & ECC_WRITE_ENABLE != 0
    }

    /// Clear the controller's latched uncorrectable-error flag.
    pub fn clear_error(&self) -> (r: Action)
        ensures
            r == Action::Write(Reg::TcramErrStatus(self.id), 0x20),
    {
        Action::Write(Reg::TcramErrStatus(self.id), 0x20)
    }
}

} // verus!
