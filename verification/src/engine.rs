//! One-shot configuration engine for a 90-degree phase-shifted PWM pair.
//!
//! The engine owns the timer's register block for the lifetime of the
//! program and drives the bitfield codecs and the register window through a
//! fixed, order-dependent write sequence: reordering the sequence would open
//! a window in which a channel's output transiently reflects an
//! un-synchronized compare value.  The phase shift itself comes from the
//! threshold split over three channels: a reference channel at half the
//! period, a standard channel at three quarters, and the extended channel --
//! in inverted-sense PWM mode and grouped into the standard channel's
//! output -- at one quarter, so the combined output's edges fall exactly
//! half a period away from the reference channel's edges.

use vstd::prelude::*;

use crate::bits::bit_of;
use crate::bits::with_bit;
use crate::codec::CcmrOutput;
use crate::codec::ExtCcerAdv;
use crate::codec::ExtCcr16;
use crate::codec::OutputCompareMode;
use crate::codec::field_index;
use crate::codec::lemma_enable_field_isolation;
use crate::codec::lemma_group_bit;
use crate::codec::lemma_mode_field_isolation;
use crate::codec::lemma_standard_round_trip;
use crate::codec::mode_bits;
use crate::codec::ocm_of;
use crate::codec::standard_of;
use crate::codec::with_group_bit;
use crate::codec::with_ocm;
use crate::codec::with_standard;
use crate::regmap::RegisterWindow;
use crate::regmap::ccer_offset;
use crate::regmap::ccmr_output_offset;
use crate::regmap::ccr_offset;
use crate::regmap::valid_offset;

verus! {

/// Index of the standard channel whose output the extended channel is
/// grouped into.
pub const STANDARD_CHANNEL: usize = 0;

/// Index of the independent reference channel that carries the symmetric
/// half-period waveform.
pub const REFERENCE_CHANNEL: usize = 1;

/// Index of the extended channel, whose registers live outside the regular
/// register block.
pub const EXTENDED_CHANNEL: usize = 4;

/// Largest number of counter steps one timer period can span: the period
/// register is 16 bits wide, and a period value `P` spans `P + 1` steps.
pub const MAX_PERIOD_STEPS: u32 = 65536;

/// How the counter sweeps over one period.
#[derive(Clone, Copy, PartialEq, Eq, Structural, Debug)]
pub enum CountingMode {
    /// The counter climbs monotonically from zero to the period value and
    /// restarts at zero.  The phase arithmetic in this engine assumes this
    /// mode.
    EdgeAlignedUp,
    /// The counter climbs and then descends again.  Unused by this engine.
    CenterAligned,
}

/// A requested frequency that the divider granularity cannot hit exactly.
/// Non-fatal: the caller sees an achievable alternative frequency and
/// decides whether to accept it.
#[derive(Clone, Copy, PartialEq, Eq, Structural, Debug)]
pub struct FrequencyError {
    /// The frequency that was asked for, in hertz.
    pub requested: u32,
    /// An achievable alternative: the frequency produced by the requested
    /// divider rounded down and clamped into the period register's range,
    /// in hertz.
    pub achievable: u32,
}

/// True when `hz` is exactly representable: the timer clock divides evenly
/// and the divider fits the 16-bit period register.
pub open spec fn achievable(clock_hz: u32, hz: u32) -> bool {
    hz >= 1 && clock_hz % hz == 0 && clock_hz / hz >= 1 && clock_hz / hz <= MAX_PERIOD_STEPS
}

/// The requested divider, rounded down to a whole count and clamped into
/// the range the period register can hold.
pub open spec fn clamped_divider(clock_hz: u32, hz: u32) -> int {
    let d = clock_hz as int / hz as int;
    if d < 1 {
        1
    } else if d > MAX_PERIOD_STEPS {
        MAX_PERIOD_STEPS as int
    } else {
        d
    }
}

/// The achievable alternative frequency reported on failure: what the
/// clamped divider actually produces, in whole hertz.
pub open spec fn fallback_hz(clock_hz: u32, hz: u32) -> int {
    clock_hz as int / clamped_divider(clock_hz, hz)
}

/// Compare threshold of the reference channel: half of the `max` distinct
/// thresholds, rounded to nearest with ties rounding up -- a symmetric
/// waveform.
pub open spec fn reference_threshold(max: int) -> int {
    (max + 1) / 2
}

/// Compare threshold of the standard channel: three quarters of `max`,
/// rounded to nearest with ties rounding up.
pub open spec fn standard_threshold(max: int) -> int {
    (3 * max + 2) / 4
}

/// Compare threshold of the extended channel: one quarter of `max`,
/// rounded to nearest with ties rounding up.
pub open spec fn extended_threshold(max: int) -> int {
    (max + 2) / 4
}

/// Derive the period register value for `hz` from the timer clock, or
/// report an achievable alternative when `hz` is not exactly
/// representable.
fn derive_period(clock_hz: u32, hz: u32) -> (r: Result<u16, FrequencyError>)
    requires
        clock_hz >= 1,
        hz >= 1,
    ensures
        match r {
            Ok(p) => achievable(clock_hz, hz) && p as int + 1 == clock_hz as int / hz as int,
            Err(e) => !achievable(clock_hz, hz) && e.requested == hz && e.achievable as int
                == fallback_hz(clock_hz, hz),
        },
{
    let d: u32 = clock_hz / hz;
    if clock_hz % hz == 0 && d >= 1 && d <= MAX_PERIOD_STEPS {
        Ok((d - 1) as u16)
    } else {
        let clamped: u32 = if d < 1 {
            1
        } else if d > MAX_PERIOD_STEPS {
            MAX_PERIOD_STEPS
        } else {
            d
        };
        Err(FrequencyError { requested: hz, achievable: clock_hz / clamped })
    }
}

/// The phase-shift engine: the single owner of one advanced-control timer's
/// register block, together with the control state the platform layer is
/// commanded into (counting mode, period, counter and master-output state).
#[derive(Debug)]
pub struct PhaseShifted90Pwm {
    /// The window over the timer's register block.
    pub window: RegisterWindow,
    /// The timer's input clock, in hertz.  Fixed at construction.
    pub clock_hz: u32,
    /// The programmed period register value `P`; one period spans `P + 1`
    /// counter steps.
    pub period: u16,
    /// The commanded counting mode.
    pub counting_mode: CountingMode,
    /// Whether the counter has been started.
    pub counter_running: bool,
    /// Whether master output driving is enabled.
    pub master_outputs_enabled: bool,
}

impl PhaseShifted90Pwm {
    /// The engine is well formed when its window covers the register block
    /// and its clock is a real clock.
    pub open spec fn wf(self) -> bool {
        self.window.wf() && self.clock_hz >= 1
    }

    /// The enable register word.
    pub open spec fn ccer_word(self) -> u32 {
        self.window.word_at(ccer_offset())
    }

    /// The compare register word of channel `n`.
    pub open spec fn compare_word(self, n: int) -> u32 {
        self.window.word_at(ccr_offset(n))
    }

    /// The mode register word with logical index `r`.
    pub open spec fn mode_word(self, r: int) -> u32 {
        self.window.word_at(ccmr_output_offset(r))
    }

    /// Number of distinct compare thresholds for the programmed period.
    pub open spec fn max_duty_spec(self) -> int {
        self.period as int + 1
    }

    /// Whether channel `n`'s output is enabled.
    pub open spec fn is_enabled_spec(self, n: int) -> bool {
        bit_of(self.ccer_word(), field_index(n as u32, 0))
    }

    /// Whether channel `n`'s complementary output is enabled.
    pub open spec fn complementary_enabled_spec(self, n: int) -> bool {
        bit_of(self.ccer_word(), field_index(n as u32, 2))
    }

    /// Enable-register field `f` of channel `n`.
    pub open spec fn enable_field(self, n: int, f: int) -> bool {
        bit_of(self.ccer_word(), field_index(n as u32, f as u32))
    }

    /// True when `self` and `other` agree on everything but the register
    /// words.
    pub open spec fn same_except_registers(self, other: Self) -> bool {
        self.window.base == other.window.base && self.clock_hz == other.clock_hz && self.period
            == other.period && self.counting_mode == other.counting_mode && self.counter_running
            == other.counter_running && self.master_outputs_enabled
            == other.master_outputs_enabled
    }

    /// Write `mode` into the output-compare mode field of `channel`,
    /// touching nothing else.
    fn set_mode(&mut self, channel: usize, mode: OutputCompareMode)
        requires
            old(self).wf(),
            channel < 6,
        ensures
            final(self).wf(),
            final(self).same_except_registers(*old(self)),
            final(self).mode_word(channel as int / 2) == with_ocm(
                old(self).mode_word(channel as int / 2),
                (channel % 2) as u32,
                mode_bits(mode),
            ),
            final(self).window.words@ == old(self).window.words@.update(
                ccmr_output_offset(channel as int / 2) / 4,
                with_ocm(
                    old(self).mode_word(channel as int / 2),
                    (channel % 2) as u32,
                    mode_bits(mode),
                ),
            ),
            forall|off: int|
                valid_offset(off) && off != ccmr_output_offset(channel as int / 2) ==> final(self).window.word_at(off) == old(self).window.word_at(off),
    {
        let addr = crate::regmap::ccmr_output(self.window.base, channel / 2);
        let mut w = CcmrOutput(self.window.read(&addr));
        w.set_ocm(channel % 2, mode.to_bits());
        self.window.write(&addr, w.0);
    }

    /// Write `val` as the standard 16-bit threshold of `channel`, keeping
    /// the upper half of the compare word and touching nothing else.
    fn write_compare_standard(&mut self, channel: usize, val: u16)
        requires
            old(self).wf(),
            channel < 4,
        ensures
            final(self).wf(),
            final(self).same_except_registers(*old(self)),
            final(self).compare_word(channel as int) == with_standard(
                old(self).compare_word(channel as int),
                val,
            ),
            final(self).window.words@ == old(self).window.words@.update(
                ccr_offset(channel as int) / 4,
                with_standard(old(self).compare_word(channel as int), val),
            ),
            forall|off: int|
                valid_offset(off) && off != ccr_offset(channel as int) ==> final(self).window.word_at(off) == old(self).window.word_at(off),
    {
        let addr = crate::regmap::ccr(self.window.base, channel);
        let mut w = ExtCcr16(self.window.read(&addr));
        w.set_ccr(val);
        self.window.write(&addr, w.0);
    }

    /// Write `val` as the extended channel's threshold, overwriting its
    /// whole compare word and touching nothing else.
    fn write_compare_extended(&mut self, val: u16)
        requires
            old(self).wf(),
        ensures
            final(self).wf(),
            final(self).same_except_registers(*old(self)),
            final(self).compare_word(EXTENDED_CHANNEL as int) == val as u32,
            final(self).window.words@ == old(self).window.words@.update(
                ccr_offset(EXTENDED_CHANNEL as int) / 4,
                val as u32,
            ),
            forall|off: int|
                valid_offset(off) && off != ccr_offset(EXTENDED_CHANNEL as int) ==> final(self).window.word_at(off) == old(self).window.word_at(off),
    {
        let addr = crate::regmap::ccr(self.window.base, EXTENDED_CHANNEL);
        let mut w = ExtCcr16(self.window.read(&addr));
        w.set_ccr_ch5(val);
        self.window.write(&addr, w.0);
    }

    /// Set the group bit in the extended channel's compare word, linking its
    /// compare event into the standard channel's output, touching nothing
    /// else.
    fn set_group(&mut self)
        requires
            old(self).wf(),
        ensures
            final(self).wf(),
            final(self).same_except_registers(*old(self)),
            final(self).compare_word(EXTENDED_CHANNEL as int) == with_group_bit(
                old(self).compare_word(EXTENDED_CHANNEL as int),
            ),
            final(self).window.words@ == old(self).window.words@.update(
                ccr_offset(EXTENDED_CHANNEL as int) / 4,
                with_group_bit(old(self).compare_word(EXTENDED_CHANNEL as int)),
            ),
            forall|off: int|
                valid_offset(off) && off != ccr_offset(EXTENDED_CHANNEL as int) ==> final(self).window.word_at(off) == old(self).window.word_at(off),
    {
        let addr = crate::regmap::ccr(self.window.base, EXTENDED_CHANNEL);
        let mut w = ExtCcr16(self.window.read(&addr));
        w.set_ccr_group_ch5_ch1();
        self.window.write(&addr, w.0);
    }

    /// Enable channel `channel_index`'s output and its complementary
    /// output.  Every other field of every channel is untouched, as is
    /// every other register.  An index at or beyond the channel count is a
    /// caller bug and is rejected by contract.
    pub fn enable(&mut self, channel_index: usize)
        requires
            old(self).wf(),
            channel_index < 6,
        ensures
            final(self).wf(),
            final(self).same_except_registers(*old(self)),
            final(self).ccer_word() == with_bit(
                with_bit(old(self).ccer_word(), field_index(channel_index as u32, 0), true),
                field_index(channel_index as u32, 2),
                true,
            ),
            final(self).window.words@ == old(self).window.words@.update(
                ccer_offset() / 4,
                with_bit(
                    with_bit(old(self).ccer_word(), field_index(channel_index as u32, 0), true),
                    field_index(channel_index as u32, 2),
                    true,
                ),
            ),
            final(self).is_enabled_spec(channel_index as int),
            final(self).complementary_enabled_spec(channel_index as int),
            forall|n: int, f: int|
                0 <= n < 6 && 0 <= f < 4 && !(n == channel_index && (f == 0 || f == 2)) ==> final(self).enable_field(n, f) == old(self).enable_field(n, f),
            forall|off: int|
                valid_offset(off) && off != ccer_offset() ==> final(self).window.word_at(off)
                    == old(self).window.word_at(off),
    {
        let addr = crate::regmap::ccer(self.window.base);
        let mut w = ExtCcerAdv(self.window.read(&addr));
        w.set_cce(channel_index, true);
        w.set_ccne(channel_index, true);
        self.window.write(&addr, w.0);
        proof {
            let w0 = old(self).ccer_word();
            let n = channel_index as u32;
            lemma_enable_field_isolation(w0, n, 0, true);
            lemma_enable_field_isolation(with_bit(w0, field_index(n, 0), true), n, 2, true);
        }
    }

    /// Read back whether channel `channel_index`'s output is enabled.
    pub fn read_enable(&self, channel_index: usize) -> (r: bool)
        requires
            self.wf(),
            channel_index < 6,
        ensures
            r == self.is_enabled_spec(channel_index as int),
    {
        let addr = crate::regmap::ccer(self.window.base);
        let w = ExtCcerAdv(self.window.read(&addr));
        w.cce(channel_index)
    }

    /// Read back the raw compare word of channel `channel_index`.
    pub fn read_compare(&self, channel_index: usize) -> (r: u32)
        requires
            self.wf(),
            channel_index < 6,
        ensures
            r == self.compare_word(channel_index as int),
    {
        let addr = crate::regmap::ccr(self.window.base, channel_index);
        self.window.read(&addr)
    }

    /// Number of distinct compare thresholds for the programmed period:
    /// one more than the period register value.
    pub fn get_max_duty(&self) -> (r: u32)
        ensures
            r == self.max_duty_spec(),
    {
        self.period as u32 + 1
    }

    /// Program channel `channel`'s standard compare threshold.  A duty
    /// beyond the maximum is a caller bug and is rejected by contract.
    pub fn set_duty(&mut self, channel: usize, duty: u16)
        requires
            old(self).wf(),
            channel < 4,
            duty as int <= old(self).max_duty_spec(),
        ensures
            final(self).wf(),
            final(self).same_except_registers(*old(self)),
            final(self).compare_word(channel as int) == with_standard(
                old(self).compare_word(channel as int),
                duty,
            ),
            standard_of(final(self).compare_word(channel as int)) == duty,
            forall|off: int|
                valid_offset(off) && off != ccr_offset(channel as int) ==> final(self).window.word_at(off) == old(self).window.word_at(off),
    {
        proof {
            lemma_standard_round_trip(old(self).compare_word(channel as int), duty);
        }
        self.write_compare_standard(channel, duty);
    }

    /// Reprogram the period register for `hz`.  When `hz` is not exactly
    /// representable by the divider granularity, nothing changes and the
    /// error carries an achievable alternative frequency.
    pub fn set_frequency(&mut self, hz: u32) -> (r: Result<(), FrequencyError>)
        requires
            old(self).wf(),
            hz >= 1,
        ensures
            final(self).wf(),
            final(self).window == old(self).window,
            final(self).clock_hz == old(self).clock_hz,
            final(self).counting_mode == old(self).counting_mode,
            final(self).counter_running == old(self).counter_running,
            final(self).master_outputs_enabled == old(self).master_outputs_enabled,
            match r {
                Ok(_) => achievable(old(self).clock_hz, hz) && final(self).max_duty_spec() == old(self).clock_hz as int / hz as int,
                Err(e) => !achievable(old(self).clock_hz, hz) && e.requested == hz
                    && e.achievable as int == fallback_hz(old(self).clock_hz, hz) && final(self).period == old(self).period,
            },
    {
        match derive_period(self.clock_hz, hz) {
            Ok(p) => {
                self.period = p;
                Ok(())
            },
            Err(e) => Err(e),
        }
    }

    /// Bring a freshly reset timer from unconfigured straight to active,
    /// phase-locked outputs.
    ///
    /// The write order is load-bearing: modes are selected before any
    /// threshold is programmed, all three thresholds are programmed before
    /// the group bit links the extended channel into the standard channel's
    /// output, and the per-channel outputs are enabled only after the group
    /// is formed, so no output ever reflects an un-synchronized compare
    /// value.
    ///
    /// On success, the reference channel holds a symmetric half-period
    /// waveform, the standard and extended channels hold the three-quarter
    /// and one-quarter thresholds (each rounded to the nearest whole duty
    /// step, ties up) whose grouped overlap is the quarter-period-shifted
    /// pulse, the group bit is set, and exactly those three channels are
    /// enabled.
    pub fn new(base: usize, clock_hz: u32, freq_hz: u32) -> (r: Result<
        PhaseShifted90Pwm,
        FrequencyError,
    >)
        requires
            clock_hz >= 1,
            freq_hz >= 1,
        ensures
            match r {
                Ok(e) => {
                    &&& achievable(clock_hz, freq_hz)
                    &&& e.wf()
                    &&& e.window.base == base
                    &&& e.clock_hz == clock_hz
                    &&& e.counting_mode == CountingMode::EdgeAlignedUp
                    &&& e.counter_running
                    &&& e.master_outputs_enabled
                    &&& e.max_duty_spec() == clock_hz as int / freq_hz as int
                    &&& e.compare_word(REFERENCE_CHANNEL as int) == reference_threshold(
                        e.max_duty_spec(),
                    )
                    &&& e.compare_word(STANDARD_CHANNEL as int) == standard_threshold(
                        e.max_duty_spec(),
                    )
                    &&& e.compare_word(EXTENDED_CHANNEL as int) == with_group_bit(
                        extended_threshold(e.max_duty_spec()) as u32,
                    )
                    &&& bit_of(e.compare_word(EXTENDED_CHANNEL as int), 29)
                    &&& ocm_of(e.mode_word(0), 0) == mode_bits(OutputCompareMode::PwmMode1)
                    &&& ocm_of(e.mode_word(0), 1) == mode_bits(OutputCompareMode::PwmMode1)
                    &&& ocm_of(e.mode_word(2), 0) == mode_bits(OutputCompareMode::PwmMode2)
                    &&& forall|n: int|
                        0 <= n < 6 ==> (e.is_enabled_spec(n) <==> (n == 0 || n == 1 || n == 4))
                    &&& forall|n: int|
                        0 <= n < 6 ==> (e.complementary_enabled_spec(n) <==> (n == 0 || n == 1
                            || n == 4))
                },
                Err(er) => !achievable(clock_hz, freq_hz) && er.requested == freq_hz
                    && er.achievable as int == fallback_hz(clock_hz, freq_hz),
            },
    {
        // The platform layer has reset the peripheral and configured the two
        // output pins before the engine is built; the block starts in the
        // all-zero post-reset state.
        let period = match derive_period(clock_hz, freq_hz) {
            Ok(p) => p,
            Err(e) => {
                return Err(e);
            },
        };
        // The phase arithmetic below assumes a monotonically increasing
        // counter over one simple period, so edge-aligned-up counting is
        // commanded, the counter is started and master output driving is
        // enabled; no waveform is visible yet because no channel output is
        // individually enabled.
        let mut this = PhaseShifted90Pwm {
            window: RegisterWindow::new(base),
            clock_hz,
            period,
            counting_mode: CountingMode::EdgeAlignedUp,
            counter_running: true,
            master_outputs_enabled: true,
        };
        // The standard and reference channels compare in plain PWM sense;
        // the extended channel compares in inverted sense, so that once
        // grouped the combination pulses exactly in the overlap of the
        // extended and standard channels' active windows.
        this.set_mode(STANDARD_CHANNEL, OutputCompareMode::PwmMode1);
        this.set_mode(REFERENCE_CHANNEL, OutputCompareMode::PwmMode1);
        this.set_mode(EXTENDED_CHANNEL, OutputCompareMode::PwmMode2);
        proof {
            assert(this.mode_word(0) == with_ocm(with_ocm(0u32, 0, 6), 1, 6));
            assert(this.mode_word(2) == with_ocm(0u32, 0, 7));
            assert(this.compare_word(0) == 0);
            assert(this.compare_word(1) == 0);
            assert(this.compare_word(4) == 0);
        }
        let max: u32 = this.get_max_duty();
        this.write_compare_standard(REFERENCE_CHANNEL, ((max + 1) / 2) as u16);
        this.write_compare_standard(STANDARD_CHANNEL, ((3 * max + 2) / 4) as u16);
        this.write_compare_extended(((max + 2) / 4) as u16);
        proof {
            assert(this.compare_word(1) == with_standard(0u32, (((max + 1) / 2) as u16)));
            assert(this.compare_word(0) == with_standard(0u32, (((3 * max + 2) / 4) as u16)));
            assert(this.compare_word(4) == (((max + 2) / 4) as u16) as u32);
            assert(this.mode_word(0) == with_ocm(with_ocm(0u32, 0, 6), 1, 6));
            assert(this.mode_word(2) == with_ocm(0u32, 0, 7));
            assert(this.ccer_word() == 0);
        }
        // Only once all three thresholds are in place may the group bit
        // combine the extended channel's compare event into the standard
        // channel's output.
        this.set_group();
        this.enable(STANDARD_CHANNEL);
        this.enable(REFERENCE_CHANNEL);
        this.enable(EXTENDED_CHANNEL);
        proof {
            assert(this.compare_word(4) == with_group_bit((((max + 2) / 4) as u16) as u32));
            Self::lemma_activation_words(max, this);
        }
        Ok(this)
    }

    /// Folds the write sequence of activation into the final register
    /// words: threshold words, mode fields and the enable word.
    proof fn lemma_activation_words(max: u32, this: PhaseShifted90Pwm)
        requires
            1 <= max <= MAX_PERIOD_STEPS,
            this.compare_word(REFERENCE_CHANNEL as int) == with_standard(
                0u32,
                (((max + 1) / 2) as u16),
            ),
            this.compare_word(STANDARD_CHANNEL as int) == with_standard(
                0u32,
                (((3 * max + 2) / 4) as u16),
            ),
            this.compare_word(EXTENDED_CHANNEL as int) == with_group_bit(
                (((max + 2) / 4) as u16) as u32,
            ),
            this.mode_word(0) == with_ocm(with_ocm(0u32, 0, 6), 1, 6),
            this.mode_word(2) == with_ocm(0u32, 0, 7),
            this.ccer_word() == with_bit(
                with_bit(
                    with_bit(
                        with_bit(
                            with_bit(
                                with_bit(0u32, field_index(0, 0), true),
                                field_index(0, 2),
                                true,
                            ),
                            field_index(1, 0),
                            true,
                        ),
                        field_index(1, 2),
                        true,
                    ),
                    field_index(4, 0),
                    true,
                ),
                field_index(4, 2),
                true,
            ),
        ensures
            this.compare_word(REFERENCE_CHANNEL as int) == reference_threshold(max as int),
            this.compare_word(STANDARD_CHANNEL as int) == standard_threshold(max as int),
            this.compare_word(EXTENDED_CHANNEL as int) == with_group_bit(
                extended_threshold(max as int) as u32,
            ),
            bit_of(this.compare_word(EXTENDED_CHANNEL as int), 29),
            ocm_of(this.mode_word(0), 0) == 6,
            ocm_of(this.mode_word(0), 1) == 6,
            ocm_of(this.mode_word(2), 0) == 7,
            forall|n: int| 0 <= n < 6 ==> (this.is_enabled_spec(n) <==> (n == 0 || n == 1 || n == 4)),
            forall|n: int|
                0 <= n < 6 ==> (this.complementary_enabled_spec(n) <==> (n == 0 || n == 1 || n
                    == 4)),
    {
        assert(forall|v: u16| with_standard(0u32, v) == v as u32) by (bit_vector);
        lemma_group_bit((((max + 2) / 4) as u16) as u32);
        lemma_mode_field_isolation(0u32, 0, 6);
        lemma_mode_field_isolation(with_ocm(0u32, 0, 6), 1, 6);
        lemma_mode_field_isolation(0u32, 0, 7);
        assert(with_bit(
            with_bit(
                with_bit(
                    with_bit(
                        with_bit(with_bit(0u32, field_index(0, 0), true), field_index(0, 2), true),
                        field_index(1, 0),
                        true,
                    ),
                    field_index(1, 2),
                    true,
                ),
                field_index(4, 0),
                true,
            ),
            field_index(4, 2),
            true,
        ) == 0x00050055u32) by (bit_vector);
        assert forall|n: int| 0 <= n < 6 implies (this.is_enabled_spec(n) <==> (n == 0 || n == 1
            || n == 4)) by {
            let m = n as u32;
            assert(forall|k: u32|
                k < 6 ==> (bit_of(0x00050055u32, field_index(k, 0)) <==> (k == 0 || k == 1 || k
                    == 4))) by (bit_vector);
            assert(bit_of(0x00050055u32, field_index(m, 0)) <==> (m == 0 || m == 1 || m == 4));
        }
        assert forall|n: int| 0 <= n < 6 implies (this.complementary_enabled_spec(n) <==> (n == 0
            || n == 1 || n == 4)) by {
            let m = n as u32;
            assert(forall|k: u32|
                k < 6 ==> (bit_of(0x00050055u32, field_index(k, 2)) <==> (k == 0 || k == 1 || k
                    == 4))) by (bit_vector);
            assert(bit_of(0x00050055u32, field_index(m, 2)) <==> (m == 0 || m == 1 || m == 4));
        }
    }
}

} // verus!
