//! The per-sample signal chain: feedback mixing, gain staging, waveshaper
//! selection, stereo widening and DC blocking, with one feedback state per
//! channel.
//!
//! The chain runs once per sample and channel. The transcendental transfer
//! curves themselves (sines, exponentials) are evaluated by the caller
//! between the stages; the chain takes their results as plain values, so
//! every arithmetic stage and every state update carries an exact contract.
use crate::fixed::abs_val;
use crate::fixed::lemma_scale_mul_one;
use crate::fixed::lemma_scale_mul_zero;
use crate::fixed::scale_mul;
use crate::fixed::spec_scale_mul;
use crate::fixed::SCALE;
use crate::shapers::spec_waveshaper_at;
use crate::shapers::waveshaper_at;
use crate::shapers::Waveshaper;
use crate::shapers::FUNCTIONS_LEN;
use vstd::prelude::*;

verus! {

/// Pole of the fixed output DC blocker, in micro-units (`0.0001`).
pub const DC_BETA: i64 = 100;

/// Largest sample magnitude the chain accepts, in micro-units.
pub const MAG_LIMIT: i64 = 1_000_000_000_000;

/// The feedback waveshaper: normalized controls and the per-channel
/// feedback state.
pub struct FeedbackWS {
    /// Last feedback-filtered sample of the left channel.
    pub last_sample_l: i64,
    /// Last feedback-filtered sample of the right channel.
    pub last_sample_r: i64,
    /// Attenuation applied to the fed-back sample.
    pub feedback: i64,
    /// First shape control of the active waveshaper.
    pub parameter_a: i64,
    /// Second shape control of the active waveshaper.
    pub parameter_b: i64,
    /// Third shape control of the active waveshaper.
    pub parameter_c: i64,
    /// Fourth shape control of the active waveshaper.
    pub parameter_d: i64,
    /// Pre-waveshape input multiplier.
    pub gain: i64,
    /// Amplitude of the stereo-widening modulation.
    pub stereo_depth: i64,
    /// Rate of the stereo-widening modulation.
    pub stereo_color: i64,
    /// Pole of the feedback-path filter.
    pub beta: i64,
    /// Index of the active waveshaper in the registry.
    pub current_function: usize,
    /// Length of the waveshaper registry.
    pub functions_len: usize,
}

/// The one-pole high-pass: `x - (x * beta + last * (1 - beta))`, over
/// micro-unit scale factors.
pub open spec fn spec_hpf(x: int, last: int, beta: int) -> int {
    x - (spec_scale_mul(x, beta) + spec_scale_mul(last, (SCALE as int) - beta))
}

/// The feedback mix and gain stage: `(input + last * feedback) * gain`.
pub open spec fn spec_mix(input: int, last: int, feedback: int, gain: int) -> int {
    spec_scale_mul(input + spec_scale_mul(last, feedback), gain)
}

/// The stereo widener: the modulation term, scaled by the depth control, is
/// added on the left channel and subtracted on the right.
pub open spec fn spec_widen(sample: int, modulation: int, depth: int, left: bool) -> int {
    if left {
        sample + spec_scale_mul(modulation, depth)
    } else {
        sample - spec_scale_mul(modulation, depth)
    }
}

impl FeedbackWS {
    /// All controls are normalized and the selected waveshaper is a valid
    /// registry entry.
    pub open spec fn wf(&self) -> bool {
        &&& 0 <= self.feedback <= SCALE
        &&& 0 <= self.parameter_a <= SCALE
        &&& 0 <= self.parameter_b <= SCALE
        &&& 0 <= self.parameter_c <= SCALE
        &&& 0 <= self.parameter_d <= SCALE
        &&& 0 <= self.gain <= SCALE
        &&& 0 <= self.stereo_depth <= SCALE
        &&& 0 <= self.stereo_color <= SCALE
        &&& 0 <= self.beta <= SCALE
        &&& self.functions_len == FUNCTIONS_LEN
        &&& self.current_function < self.functions_len
    }

    /// The stored feedback sample of the addressed channel.
    pub open spec fn spec_last(&self, left: bool) -> int {
        if left {
            self.last_sample_l as int
        } else {
            self.last_sample_r as int
        }
    }

    /// Both controls and registry selection of two states agree; only the
    /// per-channel feedback state may differ.
    pub open spec fn controls_eq(&self, other: &FeedbackWS) -> bool {
        &&& self.feedback == other.feedback
        &&& self.parameter_a == other.parameter_a
        &&& self.parameter_b == other.parameter_b
        &&& self.parameter_c == other.parameter_c
        &&& self.parameter_d == other.parameter_d
        &&& self.gain == other.gain
        &&& self.stereo_depth == other.stereo_depth
        &&& self.stereo_color == other.stereo_color
        &&& self.beta == other.beta
        &&& self.current_function == other.current_function
        &&& self.functions_len == other.functions_len
    }

    /// Creates the engine with its default controls and silent feedback
    /// state.
    pub fn new() -> (s: Self)
        ensures
            s.wf(),
            s.last_sample_l == 0,
            s.last_sample_r == 0,
            s.feedback == 500_000,
            s.parameter_a == 0,
            s.parameter_b == 0,
            s.parameter_c == 0,
            s.parameter_d == 0,
            s.gain == 500_000,
            s.stereo_depth == 0,
            s.stereo_color == 100_000,
            s.beta == 990_000,
            s.current_function == 0,
            s.functions_len == FUNCTIONS_LEN,
    {
        FeedbackWS {
            last_sample_l: 0,
            last_sample_r: 0,
            feedback: 500_000,
            parameter_a: 0,
            parameter_b: 0,
            parameter_c: 0,
            parameter_d: 0,
            gain: 500_000,
            stereo_depth: 0,
            stereo_color: 100_000,
            beta: 990_000,
            current_function: 0,
            functions_len: FUNCTIONS_LEN,
        }
    }

    /// Both channels' feedback states are within the magnitude the chain
    /// accepts.
    pub fn state_in_range(&self) -> (r: bool)
        ensures
            r == (abs_val(self.last_sample_l as int) <= MAG_LIMIT && abs_val(
                self.last_sample_r as int,
            ) <= MAG_LIMIT),
    {
        -MAG_LIMIT <= self.last_sample_l && self.last_sample_l <= MAG_LIMIT
            && -MAG_LIMIT <= self.last_sample_r && self.last_sample_r <= MAG_LIMIT
    }

    /// The waveshaper currently selected from the registry.
    pub fn current_waveshaper(&self) -> (w: Waveshaper)
        requires
            self.wf(),
        ensures
            w == spec_waveshaper_at(self.current_function as int),
    {
        waveshaper_at(self.current_function)
    }

    /// The high-pass filter stage over the addressed channel's stored
    /// sample.
    pub fn hpf(&self, input: i64, left: bool, beta: i64) -> (r: i64)
        requires
            0 <= beta <= SCALE,
            abs_val(input as int) <= 2 * MAG_LIMIT,
            abs_val(self.spec_last(left)) <= 2 * MAG_LIMIT,
        ensures
            r == spec_hpf(input as int, self.spec_last(left), beta as int),
            abs_val(r as int) <= 2 * abs_val(input as int) + abs_val(self.spec_last(left)),
    {
        let last: i64 = if left {
            self.last_sample_l
        } else {
            self.last_sample_r
        };
        let pole: i64 = scale_mul(input, beta);
        let memory: i64 = scale_mul(last, SCALE - beta);
        input - (pole + memory)
    }

    /// The feedback mix and gain stage: the addressed channel's stored
    /// sample, attenuated by the feedback control, joins the input, and the
    /// sum is scaled by the gain control.
    pub fn mix_input(&self, input: i64, left: bool) -> (pipe: i64)
        requires
            self.wf(),
            abs_val(input as int) <= MAG_LIMIT,
            abs_val(self.spec_last(left)) <= MAG_LIMIT,
        ensures
            pipe == spec_mix(
                input as int,
                self.spec_last(left),
                self.feedback as int,
                self.gain as int,
            ),
            abs_val(pipe as int) <= 2 * MAG_LIMIT,
    {
        let last: i64 = if left {
            self.last_sample_l
        } else {
            self.last_sample_r
        };
        let fed: i64 = scale_mul(last, self.feedback);
        let mixed: i64 = input + fed;
        scale_mul(mixed, self.gain)
    }

    /// The argument handed to the widening sine: the post-waveshape sample
    /// times a thousand, scaled by the stereo color control.
    pub fn widen_arg(&self, sample: i64) -> (arg: i64)
        requires
            self.wf(),
            abs_val(sample as int) <= MAG_LIMIT,
        ensures
            arg == spec_scale_mul(sample as int * 1000, self.stereo_color as int),
    {
        scale_mul(sample * 1000, self.stereo_color)
    }

    /// The stereo widening stage: adds the depth-scaled modulation on the
    /// left channel and subtracts it on the right, so the two channels'
    /// modulation terms are exact negatives.
    pub fn stereoshape(&self, input: i64, modulation: i64, left: bool) -> (r: i64)
        requires
            self.wf(),
            abs_val(input as int) <= MAG_LIMIT,
            -SCALE <= modulation <= SCALE,
        ensures
            r == spec_widen(input as int, modulation as int, self.stereo_depth as int, left),
            abs_val(r as int) <= abs_val(input as int) + SCALE,
    {
        let term: i64 = scale_mul(modulation, self.stereo_depth);
        if left {
            input + term
        } else {
            input - term
        }
    }

    /// Completes one sample after the waveshaper: widens the shaped sample,
    /// DC-blocks it against the addressed channel's state for the output,
    /// and stores the widened (unfiltered) sample, filtered with the
    /// feedback pole, as that channel's next feedback state.
    ///
    /// A shaped sample or modulation of `None` marks a value the
    /// waveshaper's evaluation could not represent (not finite, or out of
    /// range); it is silenced to zero before it enters the chain, never
    /// passed onward.
    pub fn finish_sample(&mut self, shaped: Option<i64>, modulation: Option<i64>, left: bool) -> (out: i64)
        requires
            old(self).wf(),
            abs_val(old(self).spec_last(left)) <= MAG_LIMIT,
            shaped matches Some(v) ==> abs_val(v as int) <= MAG_LIMIT,
            modulation matches Some(m) ==> -SCALE <= m <= SCALE,
        ensures
            final(self).wf(),
            old(self).controls_eq(final(self)),
            left ==> final(self).last_sample_r == old(self).last_sample_r,
            !left ==> final(self).last_sample_l == old(self).last_sample_l,
            ({
                let widened = spec_widen(
                    or_silence(shaped),
                    or_silence(modulation),
                    old(self).stereo_depth as int,
                    left,
                );
                &&& out == spec_hpf(widened, old(self).spec_last(left), DC_BETA as int)
                &&& final(self).spec_last(left) == spec_hpf(
                    widened,
                    old(self).spec_last(left),
                    old(self).beta as int,
                )
            }),
            abs_val(final(self).spec_last(left)) <= 4 * MAG_LIMIT,
    {
        let sample: i64 = match shaped {
            Some(v) => v,
            None => 0,
        };
        let sin_value: i64 = match modulation {
            Some(m) => m,
            None => 0,
        };
        let widened: i64 = self.stereoshape(sample, sin_value, left);
        let unfiltered: i64 = widened;
        let out: i64 = self.hpf(widened, left, DC_BETA);
        let fed_back: i64 = self.hpf(unfiltered, left, self.beta);
        if left {
            self.last_sample_l = fed_back;
        } else {
            self.last_sample_r = fed_back;
        }
        out
    }
}

/// A waveshaper result, or silence where none could be represented.
pub open spec fn or_silence(v: Option<i64>) -> int {
    match v {
        Some(x) => x as int,
        None => 0,
    }
}

/// Zero widening depth leaves the sample unchanged, whatever the modulation
/// and whichever the channel.
pub proof fn lemma_widen_zero_depth(sample: int, modulation: int, left: bool)
    ensures
        spec_widen(sample, modulation, 0, left) == sample,
{
    lemma_scale_mul_zero(modulation);
}

/// The widened left and right samples sum to exactly twice the input: the
/// two channels' modulation terms cancel.
pub proof fn lemma_widen_symmetric(sample: int, modulation: int, depth: int)
    ensures
        spec_widen(sample, modulation, depth, true) + spec_widen(sample, modulation, depth, false)
            == 2 * sample,
{
}

/// With a zero pole the high-pass is the full difference of input and
/// stored sample.
pub proof fn lemma_hpf_zero_beta(x: int, last: int)
    ensures
        spec_hpf(x, last, 0) == x - last,
{
    lemma_scale_mul_zero(x);
    lemma_scale_mul_one(last);
}

/// With a full-unit pole the high-pass blocks everything.
pub proof fn lemma_hpf_one_beta(x: int, last: int)
    ensures
        spec_hpf(x, last, SCALE as int) == 0,
{
    lemma_scale_mul_one(x);
    lemma_scale_mul_zero(last);
}

/// With zero feedback the mixed sample is independent of the stored
/// feedback state: whatever was fed back earlier cannot reach the chain.
pub proof fn lemma_mix_zero_feedback(input: int, last_a: int, last_b: int, gain: int)
    ensures
        spec_mix(input, last_a, 0, gain) == spec_mix(input, last_b, 0, gain),
{
    lemma_scale_mul_zero(last_a);
    lemma_scale_mul_zero(last_b);
}

} // verus!
