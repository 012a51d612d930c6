//! CRC controller (MCRC): signature compression of memory contents, for the
//! self-test of memories.

use vstd::prelude::*;
use crate::reg::{Action, Reg};

verus! {

/// Operating modes of a CRC channel.
#[derive(Clone, Copy, Debug, PartialEq, Eq, Structural)]
pub enum ChannelMode {
    /// Data capture: the PSA signature does not compress data written to it.
    DataCapute,
    Auto,
    /// After a DMA transfer the CPU, woken by the compression-complete interrupt,
    /// verifies the signature.
    Semi,
    Full,
}

impl ChannelMode {
    pub open spec fn value_spec(self) -> u32 {
        match self {
            ChannelMode::DataCapute => 0x0,
            ChannelMode::Auto => 0x1,
            ChannelMode::Semi => 0x2,
            ChannelMode::Full => 0x3,
        }
    }

    pub fn value(self) -> (r: u32)
        ensures
            r == self.value_spec(),
    {
        match self {
            ChannelMode::DataCapute => 0x0,
            ChannelMode::Auto => 0x1,
            ChannelMode::Semi => 0x2,
            ChannelMode::Full => 0x3,
        }
    }
}

/// The two CRC channels.
#[derive(Clone, Copy, Debug, PartialEq, Eq, Structural)]
pub enum CrcChannel {
    CH1,
    CH2,
}

impl CrcChannel {
    pub open spec fn index_spec(self) -> usize {
        match self {
            CrcChannel::CH1 => 0,
            CrcChannel::CH2 => 1,
        }
    }

    pub fn index(self) -> (r: usize)
        ensures
            r == self.index_spec(),
            r < 2,
    {
        match self {
            CrcChannel::CH1 => 0,
            CrcChannel::CH2 => 1,
        }
    }
}

/// Interrupt sources of a CRC channel.
#[derive(Clone, Copy, Debug, PartialEq, Eq, Structural)]
pub enum CrcInterrupt {
    /// Semi-CPU mode: the data pattern counter reached zero.
    CompressionComplete,
    /// AUTO mode: signature verification failed.
    CrcFail,
    /// A result was not read before the next one arrived.
    Overun,
    /// AUTO mode: the CRC value register was not updated in time.
    Underrun,
    /// The channel's 24-bit timeout counter expired.
    Timeout,
}

impl CrcInterrupt {
    pub open spec fn mask_spec(self) -> u32 {
        match self {
            CrcInterrupt::CompressionComplete => 0x01,
            CrcInterrupt::CrcFail => 0x02,
            CrcInterrupt::Overun => 0x04,
            CrcInterrupt::Underrun => 0x08,
            CrcInterrupt::Timeout => 0x10,
        }
    }

    pub fn mask(self) -> (r: u32)
        ensures
            r == self.mask_spec(),
    {
        match self {
            CrcInterrupt::CompressionComplete => 0x01,
            CrcInterrupt::CrcFail => 0x02,
            CrcInterrupt::Overun => 0x04,
            CrcInterrupt::Underrun => 0x08,
            CrcInterrupt::Timeout => 0x10,
        }
    }
}

/// Data-trace bit of CTRL2.
pub const DATA_TRACE: u32 = 0x1 << 4;

/// The CRC controller. Operations return the register accesses to perform; reads
/// take the register as read.
#[derive(Clone, Copy, Debug)]
pub struct HwCrc;

impl HwCrc {
    pub fn new() -> HwCrc {
        HwCrc
    }

    /// Hold the channel in reset (`true`) or release it.
    pub fn ch_reset(&self, ch: CrcChannel, reset: bool) -> (r: Action)
        ensures
            r == if reset {
                Action::Modify(Reg::CrcCtrl0, 0xFFFF_FFFF, 1u32 << (ch.index_spec() as u32))
            } else {
                Action::Modify(Reg::CrcCtrl0, !(1u32 << (ch.index_spec() as u32)), 0)
            },
    {
        let bit: u32 = 1u32 << (ch.index() as u32);
        if reset {
            Action::Modify(Reg::CrcCtrl0, 0xFFFF_FFFF, bit)
        } else {
            Action::Modify(Reg::CrcCtrl0, !bit, 0)
        }
    }

    pub fn power_down(&self, pdwn: bool) -> (r: Action)
        ensures
            r == Action::Write(Reg::CrcCtrl1, if pdwn { 1u32 } else { 0u32 }),
    {
        Action::Write(Reg::CrcCtrl1, if pdwn { 1 } else { 0 })
    }

    /// Pattern and sector counts of a channel, and its timeouts in microseconds:
    /// `wd_timeout` for the DMA to bring the next block of patterns, `blk_timeout`
    /// for the CRC of a whole block. The preload registers count in thousandths of
    /// a microsecond, so each timeout must fit a `u32` once multiplied by 1000.
    pub fn configure(&self, ch: CrcChannel, pcount: u32, scount: u32, wd_timeout: u32, blk_timeout: u32) -> (r: Vec<Action>)
        requires
            wd_timeout as int * 1000 <= u32::MAX as int,
            blk_timeout as int * 1000 <= u32::MAX as int,
        ensures
            r@ == seq![
                Action::Write(Reg::CrcPcount(ch.index_spec()), pcount),
                Action::Write(Reg::CrcScount(ch.index_spec()), scount),
                Action::Write(Reg::CrcWdtoPld(ch.index_spec()), (wd_timeout * 1000) as u32),
                Action::Write(Reg::CrcBctoPld(ch.index_spec()), (blk_timeout * 1000) as u32),
            ],
    {
        let i = ch.index();
        let mut r: Vec<Action> = Vec::new();
        r.push(Action::Write(Reg::CrcPcount(i), pcount));
        r.push(Action::Write(Reg::CrcScount(i), scount));
        r.push(Action::Write(Reg::CrcWdtoPld(i), wd_timeout * 1000));
        r.push(Action::Write(Reg::CrcBctoPld(i), blk_timeout * 1000));
        r
    }

    /// Whether the busy register shows the channel busy: the bit selected by the
    /// channel's index value (so channel 1, index 0, never shows busy).
    pub fn is_busy(&self, ch: CrcChannel, busy: u32) -> (r: bool)
        ensures
            r == (busy & (ch.index_spec() as u32) != 0),
    {
        (busy & (ch.index() as u32)) != 0
    }

    /// Set mode bits of a channel (channel `n` at byte `n`); bits already set stay.
    pub fn set_ch_mode(&self, ch: CrcChannel, mode: ChannelMode) -> (r: Action)
        ensures
            r == Action::Modify(
                Reg::CrcCtrl2,
                0xFFFF_FFFF,
                mode.value_spec() << ((ch.index_spec() * 8) as u32),
            ),
    {
        let shift: u32 = (ch.index() * 8) as u32;
        Action::Modify(Reg::CrcCtrl2, 0xFFFF_FFFF, mode.value() << shift)
    }

    /// Data-trace mode: the channel compresses every read on the CPU peripheral,
    /// flash and RAM buses.
    pub fn data_trace(&self, enable: bool) -> (r: Action)
        ensures
            r == if enable {
                Action::Modify(Reg::CrcCtrl2, 0xFFFF_FFFF, DATA_TRACE)
            } else {
                Action::Modify(Reg::CrcCtrl2, !DATA_TRACE, 0)
            },
    {
        if enable {
            Action::Modify(Reg::CrcCtrl2, 0xFFFF_FFFF, DATA_TRACE)
        } else {
            Action::Modify(Reg::CrcCtrl2, !DATA_TRACE, 0)
        }
    }

    /// Registers holding the channel's signature, low word first.
    pub fn digest_registers(&self, ch: CrcChannel) -> (r: (Reg, Reg))
        ensures
            r == (Reg::CrcPsaSigL(ch.index_spec()), Reg::CrcPsaSigH(ch.index_spec())),
    {
        (Reg::CrcPsaSigL(ch.index()), Reg::CrcPsaSigH(ch.index()))
    }

    /// The signature, given its two registers as read: the low register in the upper
    /// half, the high register in the lower half.
    pub fn digest(&self, low: u32, high: u32) -> (r: u64)
        ensures
            r == (low as u64) * 0x1_0000_0000 + (high as u64),
    {
        let r = ((low as u64) << 32) | (high as u64);
        assert(((low as u64) << 32u64) | (high as u64) == (low as u64) * 0x1_0000_0000u64 + (high as u64))
            by (bit_vector)
            requires
                low as u64 <= 0xFFFF_FFFFu64,
                high as u64 <= 0xFFFF_FFFFu64,
        ;
        r
    }

    /// Compress data in full-CPU mode: each word is written to the channel's
    /// signature register. In other modes nothing is written.
    pub fn generate(&self, ch: CrcChannel, mode: ChannelMode, data: &[u32]) -> (r: Vec<Action>)
        ensures
            mode != ChannelMode::Full ==> r@.len() == 0,
            mode == ChannelMode::Full ==> r@ == data@.map_values(
                |w: u32| Action::Write(Reg::CrcPsaSigL(ch.index_spec()), w),
            ),
    {
        let mut r: Vec<Action> = Vec::new();
        if mode != ChannelMode::Full {
            return r;
        }
        let reg = Reg::CrcPsaSigL(ch.index());
        let mut i: usize = 0;
        while i < data.len()
            invariant
                i <= data@.len(),
                reg == Reg::CrcPsaSigL(ch.index_spec()),
                r@ == data@.subrange(0, i as int).map_values(|w: u32| Action::Write(reg, w)),
            decreases data.len() - i,
        {
            r.push(Action::Write(reg, data[i]));
            proof {
                assert(data@.subrange(0, i as int + 1).map_values(|w: u32| Action::Write(reg, w))
                    =~= data@.subrange(0, i as int).map_values(|w: u32| Action::Write(reg, w)).push(
                    Action::Write(reg, data@[i as int]),
                ));
            }
            i = i + 1;
        }
        proof {
            assert(data@.subrange(0, data@.len() as int) =~= data@);
        }
        r
    }

    /// Enable or disable an interrupt source; the mask written is the source's bit
    /// times the channel's index value.
    pub fn notification(&self, ch: CrcChannel, flag: CrcInterrupt, enable: bool) -> (r: Action)
        ensures
            r == Action::Write(
                if enable { Reg::CrcInts } else { Reg::CrcIntr },
                (flag.mask_spec() * (ch.index_spec() as u32)) as u32,
            ),
    {
        let mask = flag.mask() * (ch.index() as u32);
        if enable {
            Action::Write(Reg::CrcInts, mask)
        } else {
            Action::Write(Reg::CrcIntr, mask)
        }
    }

    /// Register holding the sector whose signature check failed (AUTO mode). It is
    /// frozen until read and the fail flag cleared.
    pub fn failed_sector(&self, ch: CrcChannel) -> (r: Reg)
        ensures
            r == Reg::CrcCursec(ch.index_spec()),
    {
        Reg::CrcCursec(ch.index())
    }

    /// Register holding the highest-priority pending interrupt; reading it clears
    /// that interrupt's flag.
    pub fn interrupt(&self) -> (r: Reg)
        ensures
            r == Reg::CrcIntOffset,
    {
        Reg::CrcIntOffset
    }
}

} // verus!
