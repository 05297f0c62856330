//! Typed read/modify/write views over single 32-bit timer register words.
//!
//! Each register word is wrapped in a small codec type that exposes named
//! sub-fields (a 16-bit compare threshold, per-channel enable bits, a
//! two-per-word output-compare mode field) instead of raw masks.  The spec
//! functions beside each codec say exactly which bits a write touches, and
//! the proof functions at the end of the module state the mask-and-preserve
//! laws the codecs obey.

use vstd::prelude::*;

use crate::bits::{bit_of, with_bit};

verus! {

/// The 16-bit standard compare threshold held in bits [0,16) of `w`.
pub open spec fn standard_of(w: u32) -> u16 {
    (w & 0xffff) as u16
}

/// `w` with bits [0,16) replaced by `v` and bits [16,32) kept.
pub open spec fn with_standard(w: u32, v: u16) -> u32 {
    (w & 0xffff_0000) | (v as u32)
}

/// The whole compare word with the group bit (bit 29) forced on and every
/// other bit kept.
pub open spec fn with_group_bit(w: u32) -> u32 {
    w | (1u32 << 29)
}

/// Bit position of field `f` of channel `n` in the enable register: the four
/// fields {enable, polarity, complementary-enable, complementary-polarity}
/// of channel `n` sit at bits `4n+0 .. 4n+3`.
pub open spec fn field_index(n: u32, f: u32) -> u32 {
    (4 * n + f) as u32
}

/// Bit position of the low end of the 3-bit output-compare mode field for
/// sub-channel `sub` (0 or 1) of a mode register word.
pub open spec fn ocm_shift(sub: u32) -> u32 {
    (4 + 8 * sub) as u32
}

/// The 3-bit output-compare mode field for sub-channel `sub` of `w`.
pub open spec fn ocm_of(w: u32, sub: u32) -> u32 {
    (w >> ocm_shift(sub)) & 7
}

/// `w` with the output-compare mode field of sub-channel `sub` replaced by
/// `m` and every other bit kept.
pub open spec fn with_ocm(w: u32, sub: u32, m: u32) -> u32 {
    (w & !(7u32 << ocm_shift(sub))) | ((m & 7) << ocm_shift(sub))
}

/// A capture/compare register word.
///
/// Two interpretations coexist: a standard channel keeps its threshold in
/// bits [0,16) and leaves the rest of the word alone, while the extended
/// (fifth) channel owns the whole word, including the group bit at bit 29
/// that combines its compare event with the first channel's output.
#[derive(Clone, Copy, PartialEq, Eq, Structural, Debug)]
pub struct ExtCcr16(pub u32);

impl ExtCcr16 {
    /// Read the standard 16-bit compare threshold from bits [0,16).
    pub fn ccr(&self) -> (r: u16)
        ensures
            r == standard_of(self.0),
    {
        (self.0 & 0xffff) as u16
    }

    /// Write the standard 16-bit compare threshold into bits [0,16),
    /// preserving bits [16,32).
    pub fn set_ccr(&mut self, val: u16)
        ensures
            final(self).0 == with_standard(old(self).0, val),
    {
        self.0 = (self.0 & 0xffff_0000) | (val as u32);
    }

    /// Write the extended channel's compare threshold, overwriting the whole
    /// word: the word carries no other sub-fields for that channel.
    pub fn set_ccr_ch5(&mut self, val: u16)
        ensures
            final(self).0 == val as u32,
    {
        self.0 = val as u32;
    }

    /// Set the group bit (bit 29), combining the extended channel's compare
    /// event with the first channel's output.  The bit is only ever set by
    /// this design, never cleared.
    pub fn set_ccr_group_ch5_ch1(&mut self)
        ensures
            final(self).0 == with_group_bit(old(self).0),
    {
        let gc5c1: u32 = 1u32 << 29;
        self.0 = self.0 | gc5c1;
    }
}

impl Default for ExtCcr16 {
    fn default() -> (r: ExtCcr16)
        ensures
            r.0 == 0,
    {
        ExtCcr16(0)
    }
}

/// A capture/compare enable register word for an advanced-control timer:
/// one 4-bit group per channel index in [0,6), holding the channel's
/// {enable, polarity, complementary-enable, complementary-polarity} bits.
#[derive(Clone, Copy, PartialEq, Eq, Structural, Debug)]
pub struct ExtCcerAdv(pub u32);

impl ExtCcerAdv {
    /// Read the output-enable bit of channel `n`.
    pub fn cce(&self, n: usize) -> (r: bool)
        requires
            n < 6,
        ensures
            r == bit_of(self.0, field_index(n as u32, 0)),
    {
        let offs: u32 = 4 * (n as u32);
        (self.0 >> offs) & 1 != 0
    }

    /// Write the output-enable bit of channel `n`, leaving every other bit
    /// of the word unchanged.
    pub fn set_cce(&mut self, n: usize, val: bool)
        requires
            n < 6,
        ensures
            final(self).0 == with_bit(old(self).0, field_index(n as u32, 0), val),
    {
        let offs: u32 = 4 * (n as u32);
        let v: u32 = if val {
            1
        } else {
            0
        };
        self.0 = (self.0 & !(1u32 << offs)) | (v << offs);
    }

    /// Read the output-polarity bit of channel `n`.
    pub fn ccp(&self, n: usize) -> (r: bool)
        requires
            n < 6,
        ensures
            r == bit_of(self.0, field_index(n as u32, 1)),
    {
        let offs: u32 = 4 * (n as u32) + 1;
        (self.0 >> offs) & 1 != 0
    }

    /// Write the output-polarity bit of channel `n`, leaving every other bit
    /// of the word unchanged.
    pub fn set_ccp(&mut self, n: usize, val: bool)
        requires
            n < 6,
        ensures
            final(self).0 == with_bit(old(self).0, field_index(n as u32, 1), val),
    {
        let offs: u32 = 4 * (n as u32) + 1;
        let v: u32 = if val {
            1
        } else {
            0
        };
        self.0 = (self.0 & !(1u32 << offs)) | (v << offs);
    }

    /// Read the complementary-output-enable bit of channel `n`.
    pub fn ccne(&self, n: usize) -> (r: bool)
        requires
            n < 6,
        ensures
            r == bit_of(self.0, field_index(n as u32, 2)),
    {
        let offs: u32 = 4 * (n as u32) + 2;
        (self.0 >> offs) & 1 != 0
    }

    /// Write the complementary-output-enable bit of channel `n`, leaving
    /// every other bit of the word unchanged.
    pub fn set_ccne(&mut self, n: usize, val: bool)
        requires
            n < 6,
        ensures
            final(self).0 == with_bit(old(self).0, field_index(n as u32, 2), val),
    {
        let offs: u32 = 4 * (n as u32) + 2;
        let v: u32 = if val {
            1
        } else {
            0
        };
        self.0 = (self.0 & !(1u32 << offs)) | (v << offs);
    }

    /// Read the complementary-output-polarity bit of channel `n`.
    pub fn ccnp(&self, n: usize) -> (r: bool)
        requires
            n < 6,
        ensures
            r == bit_of(self.0, field_index(n as u32, 3)),
    {
        let offs: u32 = 4 * (n as u32) + 3;
        (self.0 >> offs) & 1 != 0
    }

    /// Write the complementary-output-polarity bit of channel `n`, leaving
    /// every other bit of the word unchanged.
    pub fn set_ccnp(&mut self, n: usize, val: bool)
        requires
            n < 6,
        ensures
            final(self).0 == with_bit(old(self).0, field_index(n as u32, 3), val),
    {
        let offs: u32 = 4 * (n as u32) + 3;
        let v: u32 = if val {
            1
        } else {
            0
        };
        self.0 = (self.0 & !(1u32 << offs)) | (v << offs);
    }
}

impl Default for ExtCcerAdv {
    fn default() -> (r: ExtCcerAdv)
        ensures
            r.0 == 0,
    {
        ExtCcerAdv(0)
    }
}

/// A channel's output-compare behavior, selected per channel in a mode
/// register word.
#[derive(Clone, Copy, PartialEq, Eq, Structural, Debug)]
pub enum OutputCompareMode {
    /// The channel output ignores compare matches.
    Frozen,
    /// The channel output toggles on each compare match.
    Toggle,
    /// The channel output is active while the counter is below the
    /// threshold.
    PwmMode1,
    /// The channel output is active while the counter is at or above the
    /// threshold.
    PwmMode2,
}

/// The 3-bit hardware encoding of an output-compare mode.
pub open spec fn mode_bits(m: OutputCompareMode) -> u32 {
    match m {
        OutputCompareMode::Frozen => 0,
        OutputCompareMode::Toggle => 3,
        OutputCompareMode::PwmMode1 => 6,
        OutputCompareMode::PwmMode2 => 7,
    }
}

impl OutputCompareMode {
    /// The 3-bit hardware encoding of this mode.
    pub fn to_bits(self) -> (r: u32)
        ensures
            r == mode_bits(self),
    {
        match self {
            OutputCompareMode::Frozen => 0,
            OutputCompareMode::Toggle => 3,
            OutputCompareMode::PwmMode1 => 6,
            OutputCompareMode::PwmMode2 => 7,
        }
    }
}

/// A capture/compare mode register word: two 3-bit output-compare mode
/// fields, one per sub-channel, at bits [4,7) and [12,15).
#[derive(Clone, Copy, PartialEq, Eq, Structural, Debug)]
pub struct CcmrOutput(pub u32);

impl CcmrOutput {
    /// Read the output-compare mode field of sub-channel `n`.
    pub fn ocm(&self, n: usize) -> (r: u32)
        requires
            n < 2,
        ensures
            r == ocm_of(self.0, n as u32),
    {
        let offs: u32 = 4 + 8 * (n as u32);
        (self.0 >> offs) & 7
    }

    /// Write the output-compare mode field of sub-channel `n`, leaving the
    /// other sub-channel's field and every other bit unchanged.
    pub fn set_ocm(&mut self, n: usize, val: u32)
        requires
            n < 2,
            val < 8,
        ensures
            final(self).0 == with_ocm(old(self).0, n as u32, val),
    {
        let offs: u32 = 4 + 8 * (n as u32);
        self.0 = (self.0 & !(7u32 << offs)) | ((val & 7) << offs);
    }
}

impl Default for CcmrOutput {
    fn default() -> (r: CcmrOutput)
        ensures
            r.0 == 0,
    {
        CcmrOutput(0)
    }
}

/// Law: writing the standard threshold and reading it back returns the
/// written value, and every bit in [16,32) of the word is unchanged by the
/// write.
pub proof fn lemma_standard_round_trip(w: u32, v: u16)
    by (bit_vector)
    ensures
        standard_of(with_standard(w, v)) == v,
        forall|i: u32| 16 <= i < 32 ==> bit_of(with_standard(w, v), i) == bit_of(w, i),
{
}

/// Law: setting the group bit is idempotent, sets bit 29, never clears a bit
/// that was already set, and changes no bit other than bit 29.
pub proof fn lemma_group_bit(w: u32)
    by (bit_vector)
    ensures
        with_group_bit(with_group_bit(w)) == with_group_bit(w),
        bit_of(with_group_bit(w), 29),
        forall|i: u32| i < 32 && bit_of(w, i) ==> bit_of(with_group_bit(w), i),
        forall|i: u32| i < 32 && i != 29 ==> bit_of(with_group_bit(w), i) == bit_of(w, i),
{
}

/// Law: writing one enable-register field of one channel gives back the
/// written value when read, and every other field of every channel is
/// unchanged.
pub proof fn lemma_enable_field_isolation(w: u32, n: u32, f: u32, b: bool)
    by (bit_vector)
    requires
        n < 6,
        f < 4,
    ensures
        bit_of(with_bit(w, field_index(n, f), b), field_index(n, f)) == b,
        forall|m: u32, g: u32|
            m < 6 && g < 4 && !(m == n && g == f) ==> bit_of(
                with_bit(w, field_index(n, f), b),
                field_index(m, g),
            ) == bit_of(w, field_index(m, g)),
{
}

/// Law: writing one sub-channel's output-compare mode field gives back the
/// written value when read, and the other sub-channel's field is unchanged.
pub proof fn lemma_mode_field_isolation(w: u32, sub: u32, m: u32)
    by (bit_vector)
    requires
        sub < 2,
        m < 8,
    ensures
        ocm_of(with_ocm(w, sub, m), sub) == m,
        forall|s: u32| s < 2 && s != sub ==> ocm_of(with_ocm(w, sub, m), s) == ocm_of(w, s),
{
}

} // verus!
