//! Error Signaling Module channel assignments of the TMS570LS0714
//! (datasheet SPNS226C, table "ESM Channel Assignments").

use vstd::prelude::*;

verus! {

/// Severity group of the Error Signaling Module.
///
/// Group one has 64 channels, groups two and three have 32 each; group four is the
/// convention for flat channel numbers from 96 on.
#[derive(Clone, Copy, Debug, PartialEq, Eq, Structural)]
pub enum EsmGroup {
    One,
    Two,
    Three,
    Four,
}

impl EsmGroup {
    pub open spec fn index_spec(self) -> usize {
        match self {
            EsmGroup::One => 0,
            EsmGroup::Two => 1,
            EsmGroup::Three => 2,
            EsmGroup::Four => 3,
        }
    }

    /// Position of the group among the four: 0 for group one.
    pub fn index(self) -> (r: usize)
        ensures
            r == self.index_spec(),
    {
        match self {
            EsmGroup::One => 0,
            EsmGroup::Two => 1,
            EsmGroup::Three => 2,
            EsmGroup::Four => 3,
        }
    }
}

/// A named fault condition, signalled on one ESM channel.
#[derive(Clone, Copy, Debug, PartialEq, Eq, Structural)]
pub enum EsmError {
    /// MibADC2 - RAM parity error
    MibADC2Ram,
    /// DMA - MPU configuration violation
    DmaMpu,
    /// DMA - control packet RAM parity error
    DmaParity,
    /// DMA - error on DMA read access, imprecise error
    DmaErrorImprecise,
    /// FMC - correctable ECC error: bus1 and bus2 interfaces
    /// (does not include accesses to Bank 7)
    FmcError,
    /// N2HET1 - RAM parity error
    N2HET1Parity,
    /// HET TU1/HET TU2 - dual-control packet RAM parity error
    HETTUxParity,
    /// HET TU1/HET TU2 - MPU configuration violation
    HETTUxMpuErr,
    /// PLL1 - Slip
    Pll1Splip,
    /// Clock Monitor - oscillator fail
    OscFail,
    /// DMA - error on DMA write access, imprecise error
    DmaErrorPrecise,
    /// VIM RAM - parity error
    VimParity,
    /// MibSPI1 - RAM parity error
    MibSPI1Parity,
    /// MibSPI3 - RAM parity error
    MibSPI3Parity,
    /// MibADC1 - RAM parity error
    MibADC1Parity,
    /// DCAN1 - RAM parity error
    DCAN1Parity,
    /// DCAN3 - RAM parity error
    DCAN3Parity,
    /// DCAN2 - RAM parity error
    DCAN2Parity,
    /// MibSPI5 - RAM parity error
    MibSPI5Parity,
    /// RAM even bank (B0TCM) - correctable ECC error
    RamEvenCorrectableECC,
    /// CPU - self-test failed
    CPUSelfTest,
    /// RAM odd bank (B1TCM) - correctable ECC error
    RamOddCorrectableECC,
    /// DCC1 - error
    DCC1,
    /// CCM-R4 - self-test failed
    CCMR4SelfTest,
    /// N2HET2 - RAM parity error
    N2HET2Parity,
    /// FMC - correctable ECC error (Bank 7 access)
    FMCCorrectableEcc,
    /// FMC - uncorrectable ECC error (Bank 7 access)
    FMCUnCorrectableEcc,
    /// IOMM - Access to unimplemented location in IOMM frame, or
    /// write access detected in unprivileged mode
    IOMMAccess,
    /// Power domain controller compare error
    PowerDomainCompare,
    /// ?ower domain controller self-test error
    PowerDomainSelfTest,
    /// eFuse Controller Error – this error signal is generated
    /// when any bit in the eFuse controller error status register is set.
    /// The application can choose to generate an interrupt whenever
    /// this bit is set to service any eFuse controller error conditions.
    EFuseError,
    /// eFuse Controller - Self Test Error. This error signal is generated
    /// only when a self test on the eFuse controller generates an error condition.
    /// When an ECC self test error is detected, EsmGroup 1 channel 40 error signal
    /// will also be set.
    EFuseSelfTestError,
    /// DCC2 - error
    DCC2Error,
    /// CCMR4 - dual-CPU lock-step error
    CCMR4LockStep,
    /// FMC - uncorrectable address parity error on accesses to main flash
    FMCUncorrectableParity,
    /// RAM even bank (B0TCM) - uncorrectable redundant address decode error
    RamEvenUnCorrectableDecode,
    /// RAM odd bank (B1TCM) - uncorrectable redundant address decode error
    RamOddUnCorrectableDecode,
    /// RAM even bank (B0TCM) - address bus parity error
    RamEvenParity,
    /// RAM odd bank (B1TCM) - address bus parity error
    RamOddParity,
    /// TCM - ECC live lock detect
    TCMLock,
    /// Windowed Watchdog (WWD) violation
    WWD,
    /// eFuse Farm - autoload error
    EfuseAutoload,
    /// RAM even bank (B0TCM) - ECC uncorrectable error
    RamEvenUnCorrectableECC,
    /// RAM odd bank (B1TCM) - ECC uncorrectable error
    RamOddUnCorrectableECC,
    /// FMC - uncorrectable ECC error: bus1 and bus2 interfaces
    /// (does not include address parity error and errors on accesses to Bank 7)
    FMCUncorrectableECC,
}

/// Channel number of a named fault within its group.
pub open spec fn esm_ch_spec(e: EsmError) -> usize {
    match e {
        EsmError::MibADC2Ram => 1,
        EsmError::DmaMpu => 2,
        EsmError::DmaParity => 3,
        EsmError::DmaErrorImprecise => 5,
        EsmError::FmcError => 6,
        EsmError::N2HET1Parity => 7,
        EsmError::HETTUxParity => 8,
        EsmError::HETTUxMpuErr => 9,
        EsmError::Pll1Splip => 10,
        EsmError::OscFail => 11,
        EsmError::DmaErrorPrecise => 13,
        EsmError::VimParity => 15,
        EsmError::MibSPI1Parity => 17,
        EsmError::MibSPI3Parity => 18,
        EsmError::MibADC1Parity => 19,
        EsmError::DCAN1Parity => 21,
        EsmError::DCAN3Parity => 22,
        EsmError::DCAN2Parity => 23,
        EsmError::MibSPI5Parity => 25,
        EsmError::RamEvenCorrectableECC => 26,
        EsmError::CPUSelfTest => 27,
        EsmError::RamOddCorrectableECC => 28,
        EsmError::DCC1 => 30,
        EsmError::CCMR4SelfTest => 31,
        EsmError::N2HET2Parity => 34,
        EsmError::FMCCorrectableEcc => 35,
        EsmError::FMCUnCorrectableEcc => 36,
        EsmError::IOMMAccess => 37,
        EsmError::PowerDomainCompare => 38,
        EsmError::PowerDomainSelfTest => 39,
        EsmError::EFuseError => 40,
        EsmError::EFuseSelfTestError => 41,
        EsmError::DCC2Error => 62,
        EsmError::CCMR4LockStep => 2,
        EsmError::FMCUncorrectableParity => 4,
        EsmError::RamEvenUnCorrectableDecode => 6,
        EsmError::RamOddUnCorrectableDecode => 8,
        EsmError::RamEvenParity => 10,
        EsmError::RamOddParity => 12,
        EsmError::TCMLock => 16,
        EsmError::WWD => 24,
        EsmError::EfuseAutoload => 1,
        EsmError::RamEvenUnCorrectableECC => 3,
        EsmError::RamOddUnCorrectableECC => 5,
        EsmError::FMCUncorrectableECC => 7,
    }
}

/// Group index (0 for group one) of a named fault.
pub open spec fn esm_group_spec(e: EsmError) -> usize {
    match e {
        EsmError::MibADC2Ram => 0,
        EsmError::DmaMpu => 0,
        EsmError::DmaParity => 0,
        EsmError::DmaErrorImprecise => 0,
        EsmError::FmcError => 0,
        EsmError::N2HET1Parity => 0,
        EsmError::HETTUxParity => 0,
        EsmError::HETTUxMpuErr => 0,
        EsmError::Pll1Splip => 0,
        EsmError::OscFail => 0,
        EsmError::DmaErrorPrecise => 0,
        EsmError::VimParity => 0,
        EsmError::MibSPI1Parity => 0,
        EsmError::MibSPI3Parity => 0,
        EsmError::MibADC1Parity => 0,
        EsmError::DCAN1Parity => 0,
        EsmError::DCAN3Parity => 0,
        EsmError::DCAN2Parity => 0,
        EsmError::MibSPI5Parity => 0,
        EsmError::RamEvenCorrectableECC => 0,
        EsmError::CPUSelfTest => 0,
        EsmError::RamOddCorrectableECC => 0,
        EsmError::DCC1 => 0,
        EsmError::CCMR4SelfTest => 0,
        EsmError::N2HET2Parity => 0,
        EsmError::FMCCorrectableEcc => 0,
        EsmError::FMCUnCorrectableEcc => 0,
        EsmError::IOMMAccess => 0,
        EsmError::PowerDomainCompare => 0,
        EsmError::PowerDomainSelfTest => 0,
        EsmError::EFuseError => 0,
        EsmError::EFuseSelfTestError => 0,
        EsmError::DCC2Error => 0,
        EsmError::CCMR4LockStep => 1,
        EsmError::FMCUncorrectableParity => 1,
        EsmError::RamEvenUnCorrectableDecode => 1,
        EsmError::RamOddUnCorrectableDecode => 1,
        EsmError::RamEvenParity => 1,
        EsmError::RamOddParity => 1,
        EsmError::TCMLock => 1,
        EsmError::WWD => 1,
        EsmError::EfuseAutoload => 2,
        EsmError::RamEvenUnCorrectableECC => 2,
        EsmError::RamOddUnCorrectableECC => 2,
        EsmError::FMCUncorrectableECC => 2,
    }
}

impl EsmError {
    /// Channel number of the fault within its group.
    pub fn ch(self) -> (r: usize)
        ensures
            r == esm_ch_spec(self),
            r < 64,
    {
        match self {
            EsmError::MibADC2Ram => 1,
            EsmError::DmaMpu => 2,
            EsmError::DmaParity => 3,
            EsmError::DmaErrorImprecise => 5,
            EsmError::FmcError => 6,
            EsmError::N2HET1Parity => 7,
            EsmError::HETTUxParity => 8,
            EsmError::HETTUxMpuErr => 9,
            EsmError::Pll1Splip => 10,
            EsmError::OscFail => 11,
            EsmError::DmaErrorPrecise => 13,
            EsmError::VimParity => 15,
            EsmError::MibSPI1Parity => 17,
            EsmError::MibSPI3Parity => 18,
            EsmError::MibADC1Parity => 19,
            EsmError::DCAN1Parity => 21,
            EsmError::DCAN3Parity => 22,
            EsmError::DCAN2Parity => 23,
            EsmError::MibSPI5Parity => 25,
            EsmError::RamEvenCorrectableECC => 26,
            EsmError::CPUSelfTest => 27,
            EsmError::RamOddCorrectableECC => 28,
            EsmError::DCC1 => 30,
            EsmError::CCMR4SelfTest => 31,
            EsmError::N2HET2Parity => 34,
            EsmError::FMCCorrectableEcc => 35,
            EsmError::FMCUnCorrectableEcc => 36,
            EsmError::IOMMAccess => 37,
            EsmError::PowerDomainCompare => 38,
            EsmError::PowerDomainSelfTest => 39,
            EsmError::EFuseError => 40,
            EsmError::EFuseSelfTestError => 41,
            EsmError::DCC2Error => 62,
            EsmError::CCMR4LockStep => 2,
            EsmError::FMCUncorrectableParity => 4,
            EsmError::RamEvenUnCorrectableDecode => 6,
            EsmError::RamOddUnCorrectableDecode => 8,
            EsmError::RamEvenParity => 10,
            EsmError::RamOddParity => 12,
            EsmError::TCMLock => 16,
            EsmError::WWD => 24,
            EsmError::EfuseAutoload => 1,
            EsmError::RamEvenUnCorrectableECC => 3,
            EsmError::RamOddUnCorrectableECC => 5,
            EsmError::FMCUncorrectableECC => 7,
        }
    }

    /// Group index of the fault: 0, 1 or 2 for groups one to three.
    pub fn group(self) -> (r: usize)
        ensures
            r == esm_group_spec(self),
            r < 3,
    {
        match self {
            EsmError::MibADC2Ram => 0,
            EsmError::DmaMpu => 0,
            EsmError::DmaParity => 0,
            EsmError::DmaErrorImprecise => 0,
            EsmError::FmcError => 0,
            EsmError::N2HET1Parity => 0,
            EsmError::HETTUxParity => 0,
            EsmError::HETTUxMpuErr => 0,
            EsmError::Pll1Splip => 0,
            EsmError::OscFail => 0,
            EsmError::DmaErrorPrecise => 0,
            EsmError::VimParity => 0,
            EsmError::MibSPI1Parity => 0,
            EsmError::MibSPI3Parity => 0,
            EsmError::MibADC1Parity => 0,
            EsmError::DCAN1Parity => 0,
            EsmError::DCAN3Parity => 0,
            EsmError::DCAN2Parity => 0,
            EsmError::MibSPI5Parity => 0,
            EsmError::RamEvenCorrectableECC => 0,
            EsmError::CPUSelfTest => 0,
            EsmError::RamOddCorrectableECC => 0,
            EsmError::DCC1 => 0,
            EsmError::CCMR4SelfTest => 0,
            EsmError::N2HET2Parity => 0,
            EsmError::FMCCorrectableEcc => 0,
            EsmError::FMCUnCorrectableEcc => 0,
            EsmError::IOMMAccess => 0,
            EsmError::PowerDomainCompare => 0,
            EsmError::PowerDomainSelfTest => 0,
            EsmError::EFuseError => 0,
            EsmError::EFuseSelfTestError => 0,
            EsmError::DCC2Error => 0,
            EsmError::CCMR4LockStep => 1,
            EsmError::FMCUncorrectableParity => 1,
            EsmError::RamEvenUnCorrectableDecode => 1,
            EsmError::RamOddUnCorrectableDecode => 1,
            EsmError::RamEvenParity => 1,
            EsmError::RamOddParity => 1,
            EsmError::TCMLock => 1,
            EsmError::WWD => 1,
            EsmError::EfuseAutoload => 2,
            EsmError::RamEvenUnCorrectableECC => 2,
            EsmError::RamOddUnCorrectableECC => 2,
            EsmError::FMCUncorrectableECC => 2,
        }
    }

    /// The (group, channel) pair of the fault.
    pub fn channel(self) -> (r: EsmChannel)
        ensures
            r.group == esm_group_spec(self),
            r.ch == esm_ch_spec(self),
    {
        EsmChannel { group: self.group(), ch: self.ch() }
    }
}

/// An ESM channel as a (group index, channel number) pair.
#[derive(Clone, Copy, Debug, PartialEq, Eq, Structural)]
pub struct EsmChannel {
    /// 0 for group one, up to 3 for the group-four convention.
    pub group: usize,
    pub ch: usize,
}

impl EsmChannel {
    /// Channel for a flat channel number: 32 numbers per group, so that 0..=31 are
    /// group one, 32..=63 group two, 64..=95 group three and 96..=127 group four.
    /// Numbers from 128 on name no channel.
    pub fn from_index(v: u8) -> (r: Option<EsmChannel>)
        ensures
            v < 128 <==> r.is_some(),
            r matches Some(c) ==> c.group == v / 32 && c.ch == v % 32,
    {
        if v < 32 {
            Some(EsmChannel { group: 0, ch: v as usize })
        } else if v < 64 {
            Some(EsmChannel { group: 1, ch: (v - 32) as usize })
        } else if v < 96 {
            Some(EsmChannel { group: 2, ch: (v - 64) as usize })
        } else if v < 128 {
            Some(EsmChannel { group: 3, ch: (v - 96) as usize })
        } else {
            None
        }
    }
}

} // verus!
