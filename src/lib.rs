//! Startup and fault-recovery core for TMS570 dual-lockstep Cortex-R4 microcontrollers.
//!
//! Hardware registers are never touched here. Every driver operation states the
//! register accesses it performs as [`reg::Action`] values, and every procedure that
//! waits on the hardware (startup, the lockstep self-test, the clock-supervisor test,
//! the vector RAM parity check) is a state machine: it emits the accesses to
//! perform, names the register it needs to read next, and resumes with the value read.
//! The program that owns the memory-mapped registers runs these machines.

mod lang;

pub mod config;
pub mod reg;
pub mod esm_ch;
pub mod esm;
pub mod sysexc;
pub mod dwd;
pub mod rti;
pub mod system;
pub mod pbist;
pub mod flash;
pub mod ccm;
pub mod vim;
pub mod tcram;
pub mod dabort;
pub mod stc;
pub mod hwcrc;
pub mod dcc;
pub mod pinmux;
pub mod iomm;
pub mod pcr;
pub mod pmu;
pub mod startup;

pub use lang::Termination;
