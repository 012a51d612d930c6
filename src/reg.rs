//! Registers the core drives, and the accesses it performs on them.

use vstd::prelude::*;

verus! {

/// One of the two Dual-Clock Comparator instances.
#[derive(Clone, Copy, Debug, PartialEq, Eq, Structural)]
pub enum DccId {
    One,
    Two,
}

/// One of the two tightly-coupled RAM controllers (even and odd bank).
#[derive(Clone, Copy, Debug, PartialEq, Eq, Structural)]
pub enum TcRamID {
    One,
    Two,
}

/// A memory-mapped register of the device.
///
/// Indexed variants carry the index of a register within its array
/// (`EsmSr1(g)` is the status register of ESM group `g`).
#[derive(Clone, Copy, Debug, PartialEq, Eq, Structural)]
pub enum Reg {
    // Error Signaling Module
    EsmEepapr1,
    EsmDepapr1,
    EsmIesr1,
    EsmIecr1,
    EsmSr1(usize),
    EsmEpsr,
    EsmIoffhr,
    EsmIofflr,
    EsmLtcpr,
    EsmEkr,
    EsmSsr2,
    EsmIepsr4,
    EsmIepcr4,
    EsmIesr4,
    EsmIecr4,
    EsmSr4(usize),
    // System module, frame 1
    SysPc1,
    SysPc2,
    SysPc4,
    SysPc7,
    SysPc8,
    SysPc9,
    Csdis,
    Csdisset,
    Csdisclr,
    Cddis,
    Cddisset,
    Cddisclr,
    Ghvsrc,
    Vclkasrc,
    Rclksrc,
    Csvstat,
    Mstgcr,
    Minitgcr,
    Msinena,
    Mstcgstat,
    Pllctl1,
    Pllctl2,
    Lpomonctl,
    Clktest,
    Clkcntl,
    Ecpcntl,
    Gblstat,
    /// System exception (reset cause) status register.
    SysEsr,
    // System module, frame 2
    Pllctl3,
    Stcclkdiv,
    Clc2cntl,
    Vclkacon1,
    // Programmable built-in self-test
    PbistPact,
    PbistDlr,
    PbistOver,
    PbistFsrf0,
    PbistRom,
    PbistAlgo,
    PbistRinfol,
    PbistRinfou,
    // eFuse controller
    EfcPins,
    EfcSelfTestCycles,
    EfcSelfTestSign,
    EfcBoundary,
    /// Low-power oscillator trim word in OTP memory.
    OtpLpoTrim,
    // Peripheral central resource: power-domain power-down clear registers
    PcrPspwrdwnclr(usize),
    // I/O multiplexing module
    IommKicker0,
    IommKicker1,
    IommPinmmr(usize),
    // Flash wrapper
    FlashFrdcntl,
    FlashFdiagctrl,
    FlashFbfallback,
    FlashFsmwrena,
    FlashEepromconfig,
    // Real-time interrupt module, digital watchdog
    RtiDwdctrl,
    RtiDwdprld,
    RtiWdstatus,
    RtiWdkey,
    RtiDwdcntr,
    // CPU compare module
    CcmSr,
    CcmKeyr,
    // Vectored interrupt manager
    VimParflg,
    VimParctl,
    VimAdderr,
    VimIrqIndex,
    VimFiqIndex,
    VimFirqpr(usize),
    VimIntreq(usize),
    VimReqmaskset(usize),
    VimReqmaskclr(usize),
    VimFbparerr,
    /// Entry of the interrupt-vector table in VIM RAM.
    VimTable(usize),
    /// First word of the interrupt-vector parity RAM.
    VimParityRam0,
    // Tightly-coupled RAM controllers
    TcramCtrl(TcRamID),
    TcramErrStatus(TcRamID),
    // Self-test controller
    StcGcr0,
    StcGcr1,
    StcTpr,
    StcScscr,
    // CRC controller; indexed registers are per channel (0 or 1)
    CrcCtrl0,
    CrcCtrl1,
    CrcCtrl2,
    CrcInts,
    CrcIntr,
    CrcIntOffset,
    CrcBusy,
    CrcPcount(usize),
    CrcScount(usize),
    CrcCursec(usize),
    CrcWdtoPld(usize),
    CrcBctoPld(usize),
    CrcPsaSigL(usize),
    CrcPsaSigH(usize),
    // Dual-clock comparators
    DccGctrl(DccId),
    DccCnt0Seed(DccId),
    DccCnt1Seed(DccId),
    DccValid0Seed(DccId),
    DccStat(DccId),
    DccCnt0ClkSrc(DccId),
    DccCnt1ClkSrc(DccId),
}

/// A core operation that is not a register access (coprocessor and
/// instruction-level work of the Cortex-R4).
#[derive(Clone, Copy, Debug, PartialEq, Eq, Structural)]
pub enum CoreOp {
    /// Initialise the registers of every CPU mode (needed before the first
    /// mode switch, or the lockstep comparator flags a mismatch).
    InitCoreRegisters,
    InitStackPointers,
    EventBusExportEnable,
    /// Silicon workaround: disable out-of-order single-precision multiply-accumulate.
    Errata57,
    /// Silicon workaround: disable out-of-order completion of divide instructions.
    Errata66,
    RamEccEnable,
    FlashEccEnable,
    IrqVicEnable,
    VfpEnable,
    InterruptsDisable,
    WaitForInterrupt,
    Nop,
    /// Zero the zero-initialised data section.
    ZeroBss,
    /// Copy the initialised data section from its load image.
    CopyData,
    /// Run the application's data-abort hook (does nothing unless provided).
    CustomAbortHook,
    /// Return from the data-abort handler onto the faulting instruction.
    AbortReturn,
}

/// One access to the hardware. The waits block with no timeout: a condition that
/// never comes means failed hardware, and only the watchdog bounds the wait.
#[derive(Clone, Copy, Debug, PartialEq, Eq, Structural)]
pub enum Action {
    /// Store the value into the register.
    Write(Reg, u32),
    /// Read the register, keep the bits of the first mask, set the bits of the
    /// second, and store the result back.
    Modify(Reg, u32, u32),
    /// Poll the register until every bit of the mask reads one.
    WaitAllSet(Reg, u32),
    /// Poll the register until some bit of the mask reads one.
    WaitAnySet(Reg, u32),
    /// Poll the register until it reads the value.
    WaitEqual(Reg, u32),
    /// Poll until every clock source that is not disabled reports valid.
    WaitPllLock,
    /// Spend the given number of no-op cycles.
    Delay(u32),
    Core(CoreOp),
}

/// What a self-test procedure needs next.
#[derive(Clone, Copy, Debug, PartialEq, Eq, Structural)]
pub enum Next {
    /// The value of this register, handed to the procedure's next step.
    Read(Reg),
    /// The procedure is over; the flag says whether the test passed.
    Done(bool),
}

/// The accesses to perform, in order, and what is needed next.
pub struct Step {
    pub actions: Vec<Action>,
    pub next: Next,
}

/// Value stored by `Action::Modify(_, keep, set)` into a register that read `old`.
pub open spec fn modified_spec(old: u32, keep: u32, set: u32) -> u32 {
    (old & keep) | set
}

/// Value that `Action::Modify(_, keep, set)` stores into a register that read `old`.
pub fn modified(old: u32, keep: u32, set: u32) -> (r: u32)
    ensures
        r == modified_spec(old, keep, set),
{
    (old & keep) | set
}

/// Registers whose bits are cleared by writing one to them (latched status flags).
pub open spec fn write_one_clears(r: Reg) -> bool {
    match r {
        Reg::EsmSr1(_) | Reg::EsmSr4(_) | Reg::EsmSsr2 | Reg::Gblstat | Reg::Mstcgstat
        | Reg::SysEsr | Reg::RtiWdstatus | Reg::TcramErrStatus(_) | Reg::CcmSr => true,
        _ => false,
    }
}

/// What a register holds after `v` is written to it while it held `old`: a latched
/// status register drops the bits written as one and keeps the others; any other
/// register takes the value.
pub open spec fn value_after_write(r: Reg, old: u32, v: u32) -> u32 {
    if write_one_clears(r) {
        old & !v
    } else {
        v
    }
}

/// Every bit of `mask` reads one in `v`.
pub open spec fn all_set(v: u32, mask: u32) -> bool {
    v & mask == mask
}

/// Whether `v` has bit `bit` set.
pub open spec fn bit_set(v: u32, bit: u32) -> bool {
    (v >> bit) & 1 == 1
}

/// Locked test of the PLL wait: every clock source that CSDIS does not mark as
/// disabled reports valid in CSVSTAT (only the eight source bits count).
pub open spec fn pll_locked_spec(csvstat: u32, csdis: u32) -> bool {
    csvstat & ((csdis ^ 0xff) & 0xff) == (csdis ^ 0xff) & 0xff
}

/// Whether the clock sources have locked, given CSVSTAT and CSDIS as read.
pub fn pll_locked(csvstat: u32, csdis: u32) -> (r: bool)
    ensures
        r == pll_locked_spec(csvstat, csdis),
{
    let mask = (csdis ^ 0xff) & 0xff;
    csvstat & mask == mask
}

} // verus!
