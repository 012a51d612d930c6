//! Pin multiplexing: the control-register field of each pin function.
//!
//! Reference: TMS570LS31x/21x data manual, "Signal Multiplexing and Control".

use vstd::prelude::*;

verus! {

/// A pin function: which pin, in which control register, at which bit offset,
/// with which option.
#[allow(non_camel_case_types)]
#[derive(Clone, Copy, Debug, PartialEq, Eq, Structural)]
pub enum PinMux {
    GIOB3,
    GIOA0,
    MIBSPI3NCS_3,
    I2C_SCL,
    H2HET1_29,
    zTZ1,
    MIBSPI3NCS_2,
    I2C_SDA,
    H2HET1_27,
    zTZ2,
    GIOA1,
    H2NET1_11,
    MIBSPI3NCS_4,
    H2NET2_18,
    GIOA2,
    H2HET2_0,
    EQEP2I,
    GIOA5,
    EXTCLKIN1,
    EPWM1A,
    H2HET1_22,
    GIOA6,
    N2HET2_4,
    EPWM1B,
    GIOA7,
    N2HET2_6,
    EPWM2A,
    H2HET1_3,
    SPI4NCS_0,
    MIBSPI3NCS_1,
    N2HET1_25,
    H2NET1_6,
    SCIRX,
    EPWM5A,
    H2NET1_13,
    SCITX,
    EPWM5B,
    MIBSPI1NCS_2,
    N2HET1_19,
    MIBSPI3NCS_0,
    AD2EVT,
    GIOB2,
    EQEP1I,
    N2NET1_28,
    MIBSPI1NCS_5,
    N2NET1_26,
}

impl PinMux {
    pub open spec fn pin_spec(self) -> usize {
        match self {
            PinMux::GIOB3 => 1,
            PinMux::GIOA0 => 2,
            PinMux::MIBSPI3NCS_3 => 3,
            PinMux::I2C_SCL => 3,
            PinMux::H2HET1_29 => 3,
            PinMux::zTZ1 => 3,
            PinMux::MIBSPI3NCS_2 => 4,
            PinMux::I2C_SDA => 4,
            PinMux::H2HET1_27 => 4,
            PinMux::zTZ2 => 4,
            PinMux::GIOA1 => 5,
            PinMux::H2NET1_11 => 6,
            PinMux::MIBSPI3NCS_4 => 6,
            PinMux::H2NET2_18 => 6,
            PinMux::GIOA2 => 9,
            PinMux::H2HET2_0 => 9,
            PinMux::EQEP2I => 9,
            PinMux::GIOA5 => 14,
            PinMux::EXTCLKIN1 => 14,
            PinMux::EPWM1A => 14,
            PinMux::H2HET1_22 => 15,
            PinMux::GIOA6 => 16,
            PinMux::N2HET2_4 => 16,
            PinMux::EPWM1B => 16,
            PinMux::GIOA7 => 22,
            PinMux::N2HET2_6 => 22,
            PinMux::EPWM2A => 22,
            PinMux::H2HET1_3 => 24,
            PinMux::SPI4NCS_0 => 24,
            PinMux::MIBSPI3NCS_1 => 37,
            PinMux::N2HET1_25 => 37,
            PinMux::H2NET1_6 => 38,
            PinMux::SCIRX => 38,
            PinMux::EPWM5A => 38,
            PinMux::H2NET1_13 => 39,
            PinMux::SCITX => 39,
            PinMux::EPWM5B => 39,
            PinMux::MIBSPI1NCS_2 => 40,
            PinMux::N2HET1_19 => 40,
            PinMux::MIBSPI3NCS_0 => 55,
            PinMux::AD2EVT => 55,
            PinMux::GIOB2 => 55,
            PinMux::EQEP1I => 55,
            PinMux::N2NET1_28 => 91,
            PinMux::MIBSPI1NCS_5 => 91,
            PinMux::N2NET1_26 => 92,
        }
    }

    pub open spec fn group_spec(self) -> usize {
        match self {
            PinMux::GIOB3 => 0,
            PinMux::GIOA0 => 0,
            PinMux::MIBSPI3NCS_3 => 0,
            PinMux::I2C_SCL => 0,
            PinMux::H2HET1_29 => 0,
            PinMux::zTZ1 => 0,
            PinMux::MIBSPI3NCS_2 => 0,
            PinMux::I2C_SDA => 0,
            PinMux::H2HET1_27 => 0,
            PinMux::zTZ2 => 0,
            PinMux::GIOA1 => 1,
            PinMux::H2NET1_11 => 1,
            PinMux::MIBSPI3NCS_4 => 1,
            PinMux::H2NET2_18 => 1,
            PinMux::GIOA2 => 2,
            PinMux::H2HET2_0 => 2,
            PinMux::EQEP2I => 2,
            PinMux::GIOA5 => 2,
            PinMux::EXTCLKIN1 => 2,
            PinMux::EPWM1A => 2,
            PinMux::H2HET1_22 => 3,
            PinMux::GIOA6 => 3,
            PinMux::N2HET2_4 => 3,
            PinMux::EPWM1B => 3,
            PinMux::GIOA7 => 4,
            PinMux::N2HET2_6 => 4,
            PinMux::EPWM2A => 4,
            PinMux::H2HET1_3 => 4,
            PinMux::SPI4NCS_0 => 4,
            PinMux::MIBSPI3NCS_1 => 7,
            PinMux::N2HET1_25 => 7,
            PinMux::H2NET1_6 => 7,
            PinMux::SCIRX => 7,
            PinMux::EPWM5A => 7,
            PinMux::H2NET1_13 => 8,
            PinMux::SCITX => 8,
            PinMux::EPWM5B => 8,
            PinMux::MIBSPI1NCS_2 => 8,
            PinMux::N2HET1_19 => 8,
            PinMux::MIBSPI3NCS_0 => 9,
            PinMux::AD2EVT => 9,
            PinMux::GIOB2 => 9,
            PinMux::EQEP1I => 9,
            PinMux::N2NET1_28 => 11,
            PinMux::MIBSPI1NCS_5 => 11,
            PinMux::N2NET1_26 => 12,
        }
    }

    pub open spec fn shift_spec(self) -> usize {
        match self {
            PinMux::GIOB3 => 0,
            PinMux::GIOA0 => 8,
            PinMux::MIBSPI3NCS_3 => 16,
            PinMux::I2C_SCL => 16,
            PinMux::H2HET1_29 => 16,
            PinMux::zTZ1 => 16,
            PinMux::MIBSPI3NCS_2 => 24,
            PinMux::I2C_SDA => 24,
            PinMux::H2HET1_27 => 24,
            PinMux::zTZ2 => 24,
            PinMux::GIOA1 => 0,
            PinMux::H2NET1_11 => 8,
            PinMux::MIBSPI3NCS_4 => 8,
            PinMux::H2NET2_18 => 8,
            PinMux::GIOA2 => 0,
            PinMux::H2HET2_0 => 0,
            PinMux::EQEP2I => 0,
            PinMux::GIOA5 => 24,
            PinMux::EXTCLKIN1 => 24,
            PinMux::EPWM1A => 24,
            PinMux::H2HET1_22 => 8,
            PinMux::GIOA6 => 16,
            PinMux::N2HET2_4 => 16,
            PinMux::EPWM1B => 16,
            PinMux::GIOA7 => 0,
            PinMux::N2HET2_6 => 0,
            PinMux::EPWM2A => 0,
            PinMux::H2HET1_3 => 24,
            PinMux::SPI4NCS_0 => 24,
            PinMux::MIBSPI3NCS_1 => 8,
            PinMux::N2HET1_25 => 8,
            PinMux::H2NET1_6 => 16,
            PinMux::SCIRX => 16,
            PinMux::EPWM5A => 16,
            PinMux::H2NET1_13 => 0,
            PinMux::SCITX => 0,
            PinMux::EPWM5B => 0,
            PinMux::MIBSPI1NCS_2 => 8,
            PinMux::N2HET1_19 => 8,
            PinMux::MIBSPI3NCS_0 => 16,
            PinMux::AD2EVT => 16,
            PinMux::GIOB2 => 16,
            PinMux::EQEP1I => 16,
            PinMux::N2NET1_28 => 24,
            PinMux::MIBSPI1NCS_5 => 24,
            PinMux::N2NET1_26 => 0,
        }
    }

    pub open spec fn option_spec(self) -> usize {
        match self {
            PinMux::GIOB3 => 0,
            PinMux::GIOA0 => 0,
            PinMux::MIBSPI3NCS_3 => 0,
            PinMux::I2C_SCL => 1,
            PinMux::H2HET1_29 => 2,
            PinMux::zTZ1 => 3,
            PinMux::MIBSPI3NCS_2 => 0,
            PinMux::I2C_SDA => 1,
            PinMux::H2HET1_27 => 2,
            PinMux::zTZ2 => 3,
            PinMux::GIOA1 => 0,
            PinMux::H2NET1_11 => 0,
            PinMux::MIBSPI3NCS_4 => 1,
            PinMux::H2NET2_18 => 2,
            PinMux::GIOA2 => 0,
            PinMux::H2HET2_0 => 3,
            PinMux::EQEP2I => 4,
            PinMux::GIOA5 => 0,
            PinMux::EXTCLKIN1 => 1,
            PinMux::EPWM1A => 2,
            PinMux::H2HET1_22 => 0,
            PinMux::GIOA6 => 0,
            PinMux::N2HET2_4 => 1,
            PinMux::EPWM1B => 2,
            PinMux::GIOA7 => 0,
            PinMux::N2HET2_6 => 1,
            PinMux::EPWM2A => 2,
            PinMux::H2HET1_3 => 0,
            PinMux::SPI4NCS_0 => 1,
            PinMux::MIBSPI3NCS_1 => 0,
            PinMux::N2HET1_25 => 1,
            PinMux::H2NET1_6 => 0,
            PinMux::SCIRX => 1,
            PinMux::EPWM5A => 2,
            PinMux::H2NET1_13 => 0,
            PinMux::SCITX => 1,
            PinMux::EPWM5B => 2,
            PinMux::MIBSPI1NCS_2 => 0,
            PinMux::N2HET1_19 => 1,
            PinMux::MIBSPI3NCS_0 => 0,
            PinMux::AD2EVT => 1,
            PinMux::GIOB2 => 2,
            PinMux::EQEP1I => 3,
            PinMux::N2NET1_28 => 0,
            PinMux::MIBSPI1NCS_5 => 1,
            PinMux::N2NET1_26 => 0,
        }
    }

    /// Package pin number.
    pub fn pin(self) -> (r: usize)
        ensures
            r == self.pin_spec(),
    {
        match self {
            PinMux::GIOB3 => 1,
            PinMux::GIOA0 => 2,
            PinMux::MIBSPI3NCS_3 => 3,
            PinMux::I2C_SCL => 3,
            PinMux::H2HET1_29 => 3,
            PinMux::zTZ1 => 3,
            PinMux::MIBSPI3NCS_2 => 4,
            PinMux::I2C_SDA => 4,
            PinMux::H2HET1_27 => 4,
            PinMux::zTZ2 => 4,
            PinMux::GIOA1 => 5,
            PinMux::H2NET1_11 => 6,
            PinMux::MIBSPI3NCS_4 => 6,
            PinMux::H2NET2_18 => 6,
            PinMux::GIOA2 => 9,
            PinMux::H2HET2_0 => 9,
            PinMux::EQEP2I => 9,
            PinMux::GIOA5 => 14,
            PinMux::EXTCLKIN1 => 14,
            PinMux::EPWM1A => 14,
            PinMux::H2HET1_22 => 15,
            PinMux::GIOA6 => 16,
            PinMux::N2HET2_4 => 16,
            PinMux::EPWM1B => 16,
            PinMux::GIOA7 => 22,
            PinMux::N2HET2_6 => 22,
            PinMux::EPWM2A => 22,
            PinMux::H2HET1_3 => 24,
            PinMux::SPI4NCS_0 => 24,
            PinMux::MIBSPI3NCS_1 => 37,
            PinMux::N2HET1_25 => 37,
            PinMux::H2NET1_6 => 38,
            PinMux::SCIRX => 38,
            PinMux::EPWM5A => 38,
            PinMux::H2NET1_13 => 39,
            PinMux::SCITX => 39,
            PinMux::EPWM5B => 39,
            PinMux::MIBSPI1NCS_2 => 40,
            PinMux::N2HET1_19 => 40,
            PinMux::MIBSPI3NCS_0 => 55,
            PinMux::AD2EVT => 55,
            PinMux::GIOB2 => 55,
            PinMux::EQEP1I => 55,
            PinMux::N2NET1_28 => 91,
            PinMux::MIBSPI1NCS_5 => 91,
            PinMux::N2NET1_26 => 92,
        }
    }

    /// Index of the pin-mux control register.
    pub fn group(self) -> (r: usize)
        ensures
            r == self.group_spec(),
            r < 47,
    {
        match self {
            PinMux::GIOB3 => 0,
            PinMux::GIOA0 => 0,
            PinMux::MIBSPI3NCS_3 => 0,
            PinMux::I2C_SCL => 0,
            PinMux::H2HET1_29 => 0,
            PinMux::zTZ1 => 0,
            PinMux::MIBSPI3NCS_2 => 0,
            PinMux::I2C_SDA => 0,
            PinMux::H2HET1_27 => 0,
            PinMux::zTZ2 => 0,
            PinMux::GIOA1 => 1,
            PinMux::H2NET1_11 => 1,
            PinMux::MIBSPI3NCS_4 => 1,
            PinMux::H2NET2_18 => 1,
            PinMux::GIOA2 => 2,
            PinMux::H2HET2_0 => 2,
            PinMux::EQEP2I => 2,
            PinMux::GIOA5 => 2,
            PinMux::EXTCLKIN1 => 2,
            PinMux::EPWM1A => 2,
            PinMux::H2HET1_22 => 3,
            PinMux::GIOA6 => 3,
            PinMux::N2HET2_4 => 3,
            PinMux::EPWM1B => 3,
            PinMux::GIOA7 => 4,
            PinMux::N2HET2_6 => 4,
            PinMux::EPWM2A => 4,
            PinMux::H2HET1_3 => 4,
            PinMux::SPI4NCS_0 => 4,
            PinMux::MIBSPI3NCS_1 => 7,
            PinMux::N2HET1_25 => 7,
            PinMux::H2NET1_6 => 7,
            PinMux::SCIRX => 7,
            PinMux::EPWM5A => 7,
            PinMux::H2NET1_13 => 8,
            PinMux::SCITX => 8,
            PinMux::EPWM5B => 8,
            PinMux::MIBSPI1NCS_2 => 8,
            PinMux::N2HET1_19 => 8,
            PinMux::MIBSPI3NCS_0 => 9,
            PinMux::AD2EVT => 9,
            PinMux::GIOB2 => 9,
            PinMux::EQEP1I => 9,
            PinMux::N2NET1_28 => 11,
            PinMux::MIBSPI1NCS_5 => 11,
            PinMux::N2NET1_26 => 12,
        }
    }

    /// Bit offset of the pin's field in its register.
    pub fn shift(self) -> (r: usize)
        ensures
            r == self.shift_spec(),
            r <= 24,
    {
        match self {
            PinMux::GIOB3 => 0,
            PinMux::GIOA0 => 8,
            PinMux::MIBSPI3NCS_3 => 16,
            PinMux::I2C_SCL => 16,
            PinMux::H2HET1_29 => 16,
            PinMux::zTZ1 => 16,
            PinMux::MIBSPI3NCS_2 => 24,
            PinMux::I2C_SDA => 24,
            PinMux::H2HET1_27 => 24,
            PinMux::zTZ2 => 24,
            PinMux::GIOA1 => 0,
            PinMux::H2NET1_11 => 8,
            PinMux::MIBSPI3NCS_4 => 8,
            PinMux::H2NET2_18 => 8,
            PinMux::GIOA2 => 0,
            PinMux::H2HET2_0 => 0,
            PinMux::EQEP2I => 0,
            PinMux::GIOA5 => 24,
            PinMux::EXTCLKIN1 => 24,
            PinMux::EPWM1A => 24,
            PinMux::H2HET1_22 => 8,
            PinMux::GIOA6 => 16,
            PinMux::N2HET2_4 => 16,
            PinMux::EPWM1B => 16,
            PinMux::GIOA7 => 0,
            PinMux::N2HET2_6 => 0,
            PinMux::EPWM2A => 0,
            PinMux::H2HET1_3 => 24,
            PinMux::SPI4NCS_0 => 24,
            PinMux::MIBSPI3NCS_1 => 8,
            PinMux::N2HET1_25 => 8,
            PinMux::H2NET1_6 => 16,
            PinMux::SCIRX => 16,
            PinMux::EPWM5A => 16,
            PinMux::H2NET1_13 => 0,
            PinMux::SCITX => 0,
            PinMux::EPWM5B => 0,
            PinMux::MIBSPI1NCS_2 => 8,
            PinMux::N2HET1_19 => 8,
            PinMux::MIBSPI3NCS_0 => 16,
            PinMux::AD2EVT => 16,
            PinMux::GIOB2 => 16,
            PinMux::EQEP1I => 16,
            PinMux::N2NET1_28 => 24,
            PinMux::MIBSPI1NCS_5 => 24,
            PinMux::N2NET1_26 => 0,
        }
    }

    /// Option number within the pin's field.
    pub fn option(self) -> (r: usize)
        ensures
            r == self.option_spec(),
            r < 8,
    {
        match self {
            PinMux::GIOB3 => 0,
            PinMux::GIOA0 => 0,
            PinMux::MIBSPI3NCS_3 => 0,
            PinMux::I2C_SCL => 1,
            PinMux::H2HET1_29 => 2,
            PinMux::zTZ1 => 3,
            PinMux::MIBSPI3NCS_2 => 0,
            PinMux::I2C_SDA => 1,
            PinMux::H2HET1_27 => 2,
            PinMux::zTZ2 => 3,
            PinMux::GIOA1 => 0,
            PinMux::H2NET1_11 => 0,
            PinMux::MIBSPI3NCS_4 => 1,
            PinMux::H2NET2_18 => 2,
            PinMux::GIOA2 => 0,
            PinMux::H2HET2_0 => 3,
            PinMux::EQEP2I => 4,
            PinMux::GIOA5 => 0,
            PinMux::EXTCLKIN1 => 1,
            PinMux::EPWM1A => 2,
            PinMux::H2HET1_22 => 0,
            PinMux::GIOA6 => 0,
            PinMux::N2HET2_4 => 1,
            PinMux::EPWM1B => 2,
            PinMux::GIOA7 => 0,
            PinMux::N2HET2_6 => 1,
            PinMux::EPWM2A => 2,
            PinMux::H2HET1_3 => 0,
            PinMux::SPI4NCS_0 => 1,
            PinMux::MIBSPI3NCS_1 => 0,
            PinMux::N2HET1_25 => 1,
            PinMux::H2NET1_6 => 0,
            PinMux::SCIRX => 1,
            PinMux::EPWM5A => 2,
            PinMux::H2NET1_13 => 0,
            PinMux::SCITX => 1,
            PinMux::EPWM5B => 2,
            PinMux::MIBSPI1NCS_2 => 0,
            PinMux::N2HET1_19 => 1,
            PinMux::MIBSPI3NCS_0 => 0,
            PinMux::AD2EVT => 1,
            PinMux::GIOB2 => 2,
            PinMux::EQEP1I => 3,
            PinMux::N2NET1_28 => 0,
            PinMux::MIBSPI1NCS_5 => 1,
            PinMux::N2NET1_26 => 0,
        }
    }
}

} // verus!
