//! The emulated device: configuration-space answers and BAR shadow
//! registers for a mock SCSI-class PCI device.
//!
//! The state is seven 32-bit shadow registers: six usable base-address
//! registers and one reserved expansion-ROM-like slot. A fixed set of
//! well-known configuration-space offsets answers with hardcoded identity
//! values; the BAR offsets answer with the shadow registers; every other
//! recognized access is unmodeled and answers with the all-ones sentinel
//! rather than failing the session.

use vstd::prelude::*;

use crate::wire::BarAccessMsg;

verus! {

broadcast use vstd::array::group_array_axioms;

/// Number of BAR shadow registers: six usable BARs plus one reserved slot.
pub const BAR_COUNT: usize = 7;

/// The sentinel answer for an access this mock does not model: all ones.
pub const UNMODELED_SENTINEL: u64 = 0xffff_ffff_ffff_ffff;

/// Size-mask value the first BAR takes on a configuration write: the
/// standard BAR-sizing convention answers a write of all-ones with the
/// register's size mask.
pub const BAR0_SIZE_MASK: u32 = 0xffffff01;

/// Size-mask value the second BAR takes on a configuration write.
pub const BAR1_SIZE_MASK: u32 = 0xfffffc00;

/// The reset value of the BAR shadow registers: slot 0 holds `0x1`, all
/// other slots hold `0x0`.
pub open spec fn spec_default_bars() -> Seq<u32> {
    seq![0x1u32, 0x0u32, 0x0u32, 0x0u32, 0x0u32, 0x0u32, 0x0u32]
}

/// What a configuration-space read at `addr` answers, given the BAR shadow
/// registers: a hardcoded identity value at the well-known offsets, the
/// corresponding shadow register at the BAR offsets, and the all-ones
/// sentinel at any unrecognized offset.
pub open spec fn spec_config_read(bars: Seq<u32>, addr: u32) -> u64
    recommends
        bars.len() == BAR_COUNT,
{
    if addr == 0x00 {
        0x1000  // vendor ID
    } else if addr == 0x02 {
        0x0001  // device ID
    } else if addr == 0x04 {
        0x0  // command/status
    } else if addr == 0x08 {
        0x1000000  // revision and class code
    } else if addr == 0x0A {
        0x0100  // SCSI storage class
    } else if addr == 0x0E {
        0x0  // header type
    } else if addr == 0x10 {
        bars[0] as u64
    } else if addr == 0x14 {
        bars[1] as u64
    } else if addr == 0x18 {
        bars[2] as u64
    } else if addr == 0x1C {
        bars[3] as u64
    } else if addr == 0x20 {
        bars[4] as u64
    } else if addr == 0x24 {
        bars[5] as u64
    } else if addr == 0x28 {
        bars[6] as u64
    } else if addr == 0x2E {
        0x1000  // subsystem ID
    } else if addr == 0x30 {
        0x0  // expansion ROM
    } else if addr == 0x3C {
        0xb  // interrupt line
    } else if addr == 0x3D {
        0x1  // interrupt pin
    } else {
        UNMODELED_SENTINEL
    }
}

/// What a configuration-space write at `addr` does to the BAR shadow
/// registers: the first two BAR offsets take their fixed size-mask values
/// (the written value itself is not stored), the remaining BAR offsets
/// clear their registers, and every other offset is accepted and ignored.
pub open spec fn spec_config_write(bars: Seq<u32>, addr: u32) -> Seq<u32>
    recommends
        bars.len() == BAR_COUNT,
{
    if addr == 0x10 {
        bars.update(0, BAR0_SIZE_MASK)
    } else if addr == 0x14 {
        bars.update(1, BAR1_SIZE_MASK)
    } else if addr == 0x18 {
        bars.update(2, 0u32)
    } else if addr == 0x1C {
        bars.update(3, 0u32)
    } else if addr == 0x20 {
        bars.update(4, 0u32)
    } else if addr == 0x24 {
        bars.update(5, 0u32)
    } else if addr == 0x28 {
        bars.update(6, 0u32)
    } else {
        bars
    }
}

/// What DEVICE_RESET does to the BAR shadow registers: it restores the
/// defaults whatever the state was.
pub open spec fn spec_reset(bars: Seq<u32>) -> Seq<u32> {
    spec_default_bars()
}

/// Resetting twice in a row yields the same state as resetting once: the
/// reset state does not depend on the state it replaces.
pub proof fn lemma_reset_idempotent(bars: Seq<u32>)
    ensures
        spec_reset(spec_reset(bars)) == spec_reset(bars),
{
}

/// The mutable emulated-device state: the BAR shadow registers. Exactly
/// one instance serves a session, owned by the dispatch loop; it is
/// mutated only by PCI_CFGWRITE and DEVICE_RESET.
pub struct DeviceState {
    bars: [u32; BAR_COUNT],
}

impl DeviceState {
    /// The BAR shadow registers, as a sequence of `BAR_COUNT` values.
    pub closed spec fn bars(&self) -> Seq<u32> {
        self.bars@
    }

    /// A fresh device holds the default BAR values.
    pub fn new() -> (r: DeviceState)
        ensures
            r.bars() == spec_default_bars(),
    {
        let r = DeviceState { bars: [0x1, 0x0, 0x0, 0x0, 0x0, 0x0, 0x0] };
        proof {
            assert(r.bars@ =~= spec_default_bars());
        }
        r
    }

    /// One BAR shadow register.
    pub fn bar(&self, i: usize) -> (r: u32)
        requires
            i < BAR_COUNT,
        ensures
            r == self.bars()[i as int],
    {
        self.bars[i]
    }

    /// Answer a configuration-space read. Every offset produces a valid
    /// answer: an unmodeled offset answers with the all-ones sentinel
    /// instead of failing the session.
    pub fn config_read(&self, addr: u32) -> (r: u64)
        ensures
            r == spec_config_read(self.bars(), addr),
    {
        match addr {
            0x00 => 0x1000,
            0x02 => 0x0001,
            0x04 => 0x0,
            0x08 => 0x1000000,
            0x0A => 0x0100,
            0x0E => 0x0,
            0x10 => self.bars[0] as u64,
            0x14 => self.bars[1] as u64,
            0x18 => self.bars[2] as u64,
            0x1C => self.bars[3] as u64,
            0x20 => self.bars[4] as u64,
            0x24 => self.bars[5] as u64,
            0x28 => self.bars[6] as u64,
            0x2E => 0x1000,
            0x30 => 0x0,
            0x3C => 0xb,
            0x3D => 0x1,
            _ => UNMODELED_SENTINEL,
        }
    }

    /// Apply a configuration-space write. Only the BAR offsets change any
    /// state; the written value is accepted everywhere and stored nowhere
    /// (the BAR offsets take their documented size-mask or zero values).
    pub fn config_write(&mut self, addr: u32, val: u32)
        ensures
            final(self).bars() == spec_config_write(old(self).bars(), addr),
    {
        match addr {
            0x10 => {
                self.bars[0] = BAR0_SIZE_MASK;
            },
            0x14 => {
                self.bars[1] = BAR1_SIZE_MASK;
            },
            0x18 => {
                self.bars[2] = 0;
            },
            0x1C => {
                self.bars[3] = 0;
            },
            0x20 => {
                self.bars[4] = 0;
            },
            0x24 => {
                self.bars[5] = 0;
            },
            0x28 => {
                self.bars[6] = 0;
            },
            _ => {},
        }
        proof {
            assert(self.bars@ =~= spec_config_write(old(self).bars@, addr));
        }
    }

    /// Answer a BAR read. BAR windows are reserved for future MMIO
    /// emulation: every read answers the all-ones sentinel.
    pub fn bar_read(&self, msg: &BarAccessMsg) -> (r: u64)
        ensures
            r == UNMODELED_SENTINEL,
    {
        UNMODELED_SENTINEL
    }

    /// Apply a BAR write: accepted and ignored, the state is unchanged.
    pub fn bar_write(&mut self, msg: &BarAccessMsg)
        ensures
            final(self).bars() == old(self).bars(),
    {
    }

    /// Restore the default BAR values, whatever the prior writes were.
    pub fn reset(&mut self)
        ensures
            final(self).bars() == spec_reset(old(self).bars()),
            final(self).bars() == spec_default_bars(),
    {
        self.bars = [0x1, 0x0, 0x0, 0x0, 0x0, 0x0, 0x0];
        proof {
            assert(self.bars@ =~= spec_default_bars());
        }
    }
}

} // verus!
