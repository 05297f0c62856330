//! Register addressing for the advanced-control timer family, and a window
//! over the register block itself.
//!
//! The extended (fifth and sixth) channels are bolted onto the peripheral's
//! address map outside the regular, evenly-strided register region, so each
//! resolver special-cases those indices instead of extrapolating the stride,
//! and rejects logical indices beyond the channel count the peripheral
//! implements.

use vstd::prelude::*;

verus! {

/// Byte offset of the capture/compare mode register with logical index `n`:
/// two channels are packed per register, and the extended channel pair's
/// register (index 2) lies at a disjoint offset outside the regular block.
pub open spec fn ccmr_output_offset(n: int) -> int {
    if n == 2 {
        84
    } else {
        24 + 4 * n
    }
}

/// Byte offset of the capture/compare (threshold) register of channel `n`:
/// the first extended channel (index 4) lies at a disjoint offset outside
/// the regular block.
pub open spec fn ccr_offset(n: int) -> int {
    if n == 4 {
        88
    } else {
        52 + 4 * n
    }
}

/// Byte offset of the capture/compare enable register.
pub open spec fn ccer_offset() -> int {
    32
}

/// True for exactly the byte offsets in the fixed offset table of the
/// targeted timer family: the three mode registers, the six compare
/// registers and the enable register.
pub open spec fn valid_offset(off: int) -> bool {
    off == 24 || off == 28 || off == 84 || off == 32 || off == 52 || off == 56 || off == 60
        || off == 64 || off == 72 || off == 88
}

/// One hardware register, identified by the peripheral's base address plus a
/// byte offset out of the fixed offset table.
#[derive(Clone, Copy, PartialEq, Eq, Structural, Debug)]
pub struct RegisterAddress {
    /// The peripheral's base address.
    pub base: usize,
    /// The register's byte offset from `base`.
    pub offset: usize,
}

impl RegisterAddress {
    /// A register address is well formed when its offset comes from the
    /// fixed offset table.
    pub open spec fn wf(self) -> bool {
        valid_offset(self.offset as int)
    }

    /// The absolute byte address of the register.
    pub fn address(&self) -> (r: usize)
        requires
            self.base + self.offset <= usize::MAX,
        ensures
            r == self.base + self.offset,
    {
        self.base + self.offset
    }
}

/// Resolve the capture/compare mode register with logical index `n`.
/// Only indices 0, 1 and 2 exist; anything larger is a caller bug and is
/// rejected by contract.
pub fn ccmr_output(base: usize, n: usize) -> (r: RegisterAddress)
    requires
        n < 3,
    ensures
        r.base == base,
        r.offset == ccmr_output_offset(n as int),
        r.wf(),
{
    if n == 2 {
        RegisterAddress { base, offset: 84 }
    } else {
        RegisterAddress { base, offset: 24 + n * 4 }
    }
}

/// Resolve the capture/compare (threshold) register of channel `n`.
/// Only channels 0 through 5 exist; anything larger is a caller bug and is
/// rejected by contract.
pub fn ccr(base: usize, n: usize) -> (r: RegisterAddress)
    requires
        n < 6,
    ensures
        r.base == base,
        r.offset == ccr_offset(n as int),
        r.wf(),
{
    if n == 4 {
        RegisterAddress { base, offset: 88 }
    } else {
        RegisterAddress { base, offset: 52 + n * 4 }
    }
}

/// Resolve the capture/compare enable register, which has a single fixed
/// offset and no index.
pub fn ccer(base: usize) -> (r: RegisterAddress)
    ensures
        r.base == base,
        r.offset == ccer_offset(),
        r.wf(),
{
    RegisterAddress { base, offset: 32 }
}

/// A window over the timer's register block: one 32-bit word per word-sized
/// slot of the block, indexed by byte offset.
///
/// The window is the single owner of the block for the lifetime of the
/// program; reads and writes go through it and nothing else.  `modify` is a
/// read followed by a write at the call site and is not atomic with respect
/// to any other accessor, so that single-owner discipline is load-bearing.
#[derive(Debug)]
pub struct RegisterWindow {
    /// The peripheral's base address.
    pub base: usize,
    /// The register words of the block, one per 4-byte slot.
    pub words: Vec<u32>,
}

impl RegisterWindow {
    /// Number of word-sized slots the window covers: every offset of the
    /// fixed table lies below `23 * 4`.
    pub open spec fn slot_count() -> int {
        23
    }

    /// The window is well formed when it holds one word per slot.
    pub open spec fn wf(self) -> bool {
        self.words@.len() == Self::slot_count()
    }

    /// The word stored at byte offset `off`.
    pub open spec fn word_at(self, off: int) -> u32 {
        self.words@[off / 4]
    }

    /// A fresh window over the block at `base`, with every register in the
    /// known-clean all-zero state a peripheral reset leaves behind.
    pub fn new(base: usize) -> (r: RegisterWindow)
        ensures
            r.wf(),
            r.base == base,
            forall|i: int| 0 <= i < r.words@.len() ==> r.words@[i] == 0,
            forall|off: int| valid_offset(off) ==> r.word_at(off) == 0,
    {
        let mut words: Vec<u32> = Vec::new();
        while words.len() < 23
            invariant
                words@.len() <= 23,
                forall|i: int| 0 <= i < words@.len() ==> words@[i] == 0,
            decreases 23 - words@.len(),
        {
            words.push(0);
        }
        RegisterWindow { base, words }
    }

    /// Read the register at `a`.
    pub fn read(&self, a: &RegisterAddress) -> (r: u32)
        requires
            self.wf(),
            a.wf(),
            a.base == self.base,
        ensures
            r == self.word_at(a.offset as int),
    {
        self.words[a.offset / 4]
    }

    /// Write `w` to the register at `a`, leaving every other register of the
    /// block unchanged.
    pub fn write(&mut self, a: &RegisterAddress, w: u32)
        requires
            old(self).wf(),
            a.wf(),
            a.base == old(self).base,
        ensures
            final(self).wf(),
            final(self).base == old(self).base,
            final(self).words@ == old(self).words@.update(a.offset as int / 4, w),
            final(self).word_at(a.offset as int) == w,
            forall|off: int|
                valid_offset(off) && off != a.offset as int ==> final(self).word_at(off) == old(
                    self,
                ).word_at(off),
    {
        let slot: usize = a.offset / 4;
        self.words.set(slot, w);
    }
}

} // verus!
