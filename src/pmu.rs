//! Cortex-R4 performance monitor unit events.

use vstd::prelude::*;

verus! {

/// Events the performance monitor can count.
#[derive(Clone, Copy, Debug, PartialEq, Eq, Structural)]
pub enum PmuEvent {
    InstructionCacheMiss,
    DataCacheMiss,
    DataCacheAccess,
    DataReadArchExecuted,
    DataWriteArchExecuted,
    InstructionArchExecuted,
    ExceptionTaken,
    ExceptionReturnArchExecuted,
    ChangeContextExecuted,
    SwChangePcArchExecuted,
    BranchImmArchExecuted,
    ProcReturnArchExecuted,
    UnalignedAccessArchExecuted,
    BranchMissPredicted,
    CycleCount,
    PredicatableBranches,
    InstrBufferStall,
    DataDependencyInstrStall,
    DataCacheWriteBack,
    ExtMemoryRequest,
    LsuBusyStall,
    ForceDrainOfStoreBuffer,
    FiqDisabledCycleCount,
    IrqDisabledCycleCount,
    EtmExTimeout0,
    EtmExTimeout1,
    InstructionCacheTagEccError,
    InstructionCacheDataEccError,
    DataCacheTagEccError,
    DataCacheDataEccError,
    TcmFatalEccErrorPrefetch,
    TcmFatalEccErrorLoadStore,
    StoreBufferMerge,
    LsuStallStoreBufferFull,
    LsuStallStoreQueueFull,
    IntegerDivExecuted,
    StallIntegerDiv,
    PldInstLineFill,
    PldInstNoLineFill,
    NonCacheableAccessAxiMaster,
    InstructionCacheAccess,
    DoubleDataCacheIssue,
    DualIssueCaseA,
    DualIssueCaseB1orB2orF2orF2D,
    DualIssueOther,
    DpFloatInstExecuted,
    DualIssuedPairInstrArchExecuted,
    DataCacheDataFatalEccError,
    DataCacheTagFatalEccError,
    PRocessorLiveLock,
    ATcmMultiBitEccError,
    B0TcmMultiBitEccError,
    B1TcmMultiBitEccError,
    ATcmSignleBitEccError,
    B0TcmSingleBitEccError,
    B1TcmSingleBitEccError,
    TcmCorEccErrorLoadStore,
    TcmCorEccErrorPrefetch,
    TcmFatailEccErrorAxiSlave,
    TcmCorEccErrorAxiSlave,
}

impl PmuEvent {
    pub open spec fn number_spec(self) -> u32 {
        match self {
            PmuEvent::InstructionCacheMiss => 0x01,
            PmuEvent::DataCacheMiss => 0x03,
            PmuEvent::DataCacheAccess => 0x04,
            PmuEvent::DataReadArchExecuted => 0x06,
            PmuEvent::DataWriteArchExecuted => 0x07,
            PmuEvent::InstructionArchExecuted => 0x08,
            PmuEvent::ExceptionTaken => 0x09,
            PmuEvent::ExceptionReturnArchExecuted => 0x0A,
            PmuEvent::ChangeContextExecuted => 0x0B,
            PmuEvent::SwChangePcArchExecuted => 0x0C,
            PmuEvent::BranchImmArchExecuted => 0x0D,
            PmuEvent::ProcReturnArchExecuted => 0x0E,
            PmuEvent::UnalignedAccessArchExecuted => 0x0F,
            PmuEvent::BranchMissPredicted => 0x10,
            PmuEvent::CycleCount => 0x11,
            PmuEvent::PredicatableBranches => 0x12,
            PmuEvent::InstrBufferStall => 0x40,
            PmuEvent::DataDependencyInstrStall => 0x41,
            PmuEvent::DataCacheWriteBack => 0x42,
            PmuEvent::ExtMemoryRequest => 0x43,
            PmuEvent::LsuBusyStall => 0x44,
            PmuEvent::ForceDrainOfStoreBuffer => 0x45,
            PmuEvent::FiqDisabledCycleCount => 0x46,
            PmuEvent::IrqDisabledCycleCount => 0x47,
            PmuEvent::EtmExTimeout0 => 0x48,
            PmuEvent::EtmExTimeout1 => 0x49,
            PmuEvent::InstructionCacheTagEccError => 0x4A,
            PmuEvent::InstructionCacheDataEccError => 0x4B,
            PmuEvent::DataCacheTagEccError => 0x4C,
            PmuEvent::DataCacheDataEccError => 0x4D,
            PmuEvent::TcmFatalEccErrorPrefetch => 0x4E,
            PmuEvent::TcmFatalEccErrorLoadStore => 0x4F,
            PmuEvent::StoreBufferMerge => 0x50,
            PmuEvent::LsuStallStoreBufferFull => 0x51,
            PmuEvent::LsuStallStoreQueueFull => 0x52,
            PmuEvent::IntegerDivExecuted => 0x53,
            PmuEvent::StallIntegerDiv => 0x54,
            PmuEvent::PldInstLineFill => 0x55,
            PmuEvent::PldInstNoLineFill => 0x56,
            PmuEvent::NonCacheableAccessAxiMaster => 0x57,
            PmuEvent::InstructionCacheAccess => 0x58,
            PmuEvent::DoubleDataCacheIssue => 0x59,
            PmuEvent::DualIssueCaseA => 0x5A,
            PmuEvent::DualIssueCaseB1orB2orF2orF2D => 0x5B,
            PmuEvent::DualIssueOther => 0x5C,
            PmuEvent::DpFloatInstExecuted => 0x5D,
            PmuEvent::DualIssuedPairInstrArchExecuted => 0x5E,
            PmuEvent::DataCacheDataFatalEccError => 0x60,
            PmuEvent::DataCacheTagFatalEccError => 0x61,
            PmuEvent::PRocessorLiveLock => 0x62,
            PmuEvent::ATcmMultiBitEccError => 0x64,
            PmuEvent::B0TcmMultiBitEccError => 0x65,
            PmuEvent::B1TcmMultiBitEccError => 0x66,
            PmuEvent::ATcmSignleBitEccError => 0x67,
            PmuEvent::B0TcmSingleBitEccError => 0x68,
            PmuEvent::B1TcmSingleBitEccError => 0x69,
            PmuEvent::TcmCorEccErrorLoadStore => 0x6A,
            PmuEvent::TcmCorEccErrorPrefetch => 0x6B,
            PmuEvent::TcmFatailEccErrorAxiSlave => 0x6C,
            PmuEvent::TcmCorEccErrorAxiSlave => 0x6D,
        }
    }

    /// Event number programmed into the event-type register.
    pub fn number(self) -> (r: u32)
        ensures
            r == self.number_spec(),
    {
        match self {
            PmuEvent::InstructionCacheMiss => 0x01,
            PmuEvent::DataCacheMiss => 0x03,
            PmuEvent::DataCacheAccess => 0x04,
            PmuEvent::DataReadArchExecuted => 0x06,
            PmuEvent::DataWriteArchExecuted => 0x07,
            PmuEvent::InstructionArchExecuted => 0x08,
            PmuEvent::ExceptionTaken => 0x09,
            PmuEvent::ExceptionReturnArchExecuted => 0x0A,
            PmuEvent::ChangeContextExecuted => 0x0B,
            PmuEvent::SwChangePcArchExecuted => 0x0C,
            PmuEvent::BranchImmArchExecuted => 0x0D,
            PmuEvent::ProcReturnArchExecuted => 0x0E,
            PmuEvent::UnalignedAccessArchExecuted => 0x0F,
            PmuEvent::BranchMissPredicted => 0x10,
            PmuEvent::CycleCount => 0x11,
            PmuEvent::PredicatableBranches => 0x12,
            PmuEvent::InstrBufferStall => 0x40,
            PmuEvent::DataDependencyInstrStall => 0x41,
            PmuEvent::DataCacheWriteBack => 0x42,
            PmuEvent::ExtMemoryRequest => 0x43,
            PmuEvent::LsuBusyStall => 0x44,
            PmuEvent::ForceDrainOfStoreBuffer => 0x45,
            PmuEvent::FiqDisabledCycleCount => 0x46,
            PmuEvent::IrqDisabledCycleCount => 0x47,
            PmuEvent::EtmExTimeout0 => 0x48,
            PmuEvent::EtmExTimeout1 => 0x49,
            PmuEvent::InstructionCacheTagEccError => 0x4A,
            PmuEvent::InstructionCacheDataEccError => 0x4B,
            PmuEvent::DataCacheTagEccError => 0x4C,
            PmuEvent::DataCacheDataEccError => 0x4D,
            PmuEvent::TcmFatalEccErrorPrefetch => 0x4E,
            PmuEvent::TcmFatalEccErrorLoadStore => 0x4F,
            PmuEvent::StoreBufferMerge => 0x50,
            PmuEvent::LsuStallStoreBufferFull => 0x51,
            PmuEvent::LsuStallStoreQueueFull => 0x52,
            PmuEvent::IntegerDivExecuted => 0x53,
            PmuEvent::StallIntegerDiv => 0x54,
            PmuEvent::PldInstLineFill => 0x55,
            PmuEvent::PldInstNoLineFill => 0x56,
            PmuEvent::NonCacheableAccessAxiMaster => 0x57,
            PmuEvent::InstructionCacheAccess => 0x58,
            PmuEvent::DoubleDataCacheIssue => 0x59,
            PmuEvent::DualIssueCaseA => 0x5A,
            PmuEvent::DualIssueCaseB1orB2orF2orF2D => 0x5B,
            PmuEvent::DualIssueOther => 0x5C,
            PmuEvent::DpFloatInstExecuted => 0x5D,
            PmuEvent::DualIssuedPairInstrArchExecuted => 0x5E,
            PmuEvent::DataCacheDataFatalEccError => 0x60,
            PmuEvent::DataCacheTagFatalEccError => 0x61,
            PmuEvent::PRocessorLiveLock => 0x62,
            PmuEvent::ATcmMultiBitEccError => 0x64,
            PmuEvent::B0TcmMultiBitEccError => 0x65,
            PmuEvent::B1TcmMultiBitEccError => 0x66,
            PmuEvent::ATcmSignleBitEccError => 0x67,
            PmuEvent::B0TcmSingleBitEccError => 0x68,
            PmuEvent::B1TcmSingleBitEccError => 0x69,
            PmuEvent::TcmCorEccErrorLoadStore => 0x6A,
            PmuEvent::TcmCorEccErrorPrefetch => 0x6B,
            PmuEvent::TcmFatailEccErrorAxiSlave => 0x6C,
            PmuEvent::TcmCorEccErrorAxiSlave => 0x6D,
        }
    }
}

/// Counters of the performance monitor.
#[derive(Clone, Copy, Debug, PartialEq, Eq, Structural)]
pub enum Counter {
    Cycle,
    Event,
    Both,
}

impl Counter {
    pub open spec fn reset_mask_spec(self) -> u32 {
        match self {
            Counter::Event => 0x2,
            Counter::Cycle => 0x4,
            Counter::Both => 0x6,
        }
    }

    /// Bits of the monitor control register that reset these counters: event
    /// counters at bit 1, the cycle counter at bit 2.
    pub fn reset_mask(self) -> (r: u32)
        ensures
            r == self.reset_mask_spec(),
    {
        match self {
            Counter::Event => 0x2,
            Counter::Cycle => 0x4,
            Counter::Both => 0x6,
        }
    }
}

/// Current overflow flags of the counters: none are tracked, so the value is zero.
pub fn overflow() -> (r: u32)
    ensures
        r == 0,
{
    0
}

} // verus!
