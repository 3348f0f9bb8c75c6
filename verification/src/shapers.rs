//! The waveshaper registry: a fixed, indexable family of nonlinear transfer
//! functions, and the mapping from the host's continuous selector control to
//! a registry index.
use crate::fixed::SCALE;
use vstd::arithmetic::div_mod::lemma_div_pos_is_pos;
use vstd::prelude::*;

verus! {

/// Number of entries in the waveshaper registry.
pub const FUNCTIONS_LEN: usize = 3;

/// Offset subtracted from the selector control before scaling, in
/// micro-units (a thousandth of a unit).
pub const SELECTOR_EPSILON: i64 = 1_000;

/// The registered nonlinear transfer functions, in registry order.
#[derive(Clone, Copy, PartialEq, Eq, Structural, Debug)]
pub enum Waveshaper {
    /// `sin(pi * x + a * sin(b * pi * x))`, a frequency-modulated sine.
    SinFm,
    /// A normalized logistic distortion curve driven by `a`.
    AnalogDist,
    /// `sin(a * (x + 1) ^ (1 / b) - a)`, a sine of a fractional power.
    SinSqrt,
}

/// Registry entry at the given index, in registry order.
pub open spec fn spec_waveshaper_at(index: int) -> Waveshaper {
    if index == 0 {
        Waveshaper::SinFm
    } else if index == 1 {
        Waveshaper::AnalogDist
    } else {
        Waveshaper::SinSqrt
    }
}

/// Looks up the registry entry at the given index.
pub fn waveshaper_at(index: usize) -> (w: Waveshaper)
    requires
        index < FUNCTIONS_LEN,
    ensures
        w == spec_waveshaper_at(index as int),
{
    if index == 0 {
        Waveshaper::SinFm
    } else if index == 1 {
        Waveshaper::AnalogDist
    } else {
        Waveshaper::SinSqrt
    }
}

/// Descriptor of a registry entry, as displayed to the host.
pub open spec fn spec_descriptor(w: Waveshaper) -> Seq<char> {
    match w {
        Waveshaper::SinFm => "sin(pi * x + a * sin(b * pi * x))"@,
        Waveshaper::AnalogDist => "(2/(1 + E ^ (-a * x)) - 1) / (2/(1 + E ^ (-a) - 1)"@,
        Waveshaper::SinSqrt => "sin(a * (x + 1) ^ (1 / b) - a)"@,
    }
}

/// Returns the descriptor string of a registry entry.
pub fn descriptor(w: Waveshaper) -> (r: &'static str)
    ensures
        r@ == spec_descriptor(w),
{
    match w {
        Waveshaper::SinFm => "sin(pi * x + a * sin(b * pi * x))",
        Waveshaper::AnalogDist => "(2/(1 + E ^ (-a * x)) - 1) / (2/(1 + E ^ (-a) - 1)",
        Waveshaper::SinSqrt => "sin(a * (x + 1) ^ (1 / b) - a)",
    }
}

/// The registry index selected by a normalized control value: the control,
/// less a small epsilon, is scaled by the registry length and truncated,
/// then clamped into `[0, len)` so that a control of exactly one unit stays
/// in bounds.
pub open spec fn spec_selector_index(value: int, len: int) -> int {
    let shifted = value - SELECTOR_EPSILON;
    if shifted <= 0 {
        0
    } else if (shifted * len) / (SCALE as int) >= len {
        len - 1
    } else {
        (shifted * len) / (SCALE as int)
    }
}

/// The selected index is always within the registry, whatever the control
/// value.
pub proof fn lemma_selector_in_range(value: int, len: int)
    requires
        1 <= len,
    ensures
        0 <= spec_selector_index(value, len) < len,
{
    let shifted = value - SELECTOR_EPSILON;
    if shifted > 0 {
        assert(shifted * len >= 0) by (nonlinear_arith)
            requires
                shifted > 0,
                len >= 1,
        ;
        lemma_div_pos_is_pos(shifted * len, SCALE as int);
    }
}

/// A selector control of zero always resolves to the first registry entry,
/// and a control just under one unit resolves to a valid index, for every
/// registry size in the family.
pub proof fn lemma_selector_round_trip(len: int)
    requires
        1 <= len <= 6,
    ensures
        spec_selector_index(0, len) == 0,
        0 <= spec_selector_index(999_000, len) < len,
{
    lemma_selector_in_range(999_000, len);
}

/// Maps a normalized selector control to a registry index, clamped into
/// `[0, len)`.
pub fn selector_index(value: i64, len: usize) -> (index: usize)
    requires
        0 <= value <= SCALE,
        1 <= len <= 1_000,
    ensures
        index == spec_selector_index(value as int, len as int),
        index < len,
        value == 0 ==> index == 0,
{
    if value <= SELECTOR_EPSILON {
        0
    } else {
        let shifted: u64 = (value - SELECTOR_EPSILON) as u64;
        proof {
            assert((shifted as int) * (len as int) <= 1_000_000_000) by (nonlinear_arith)
                requires
                    0 <= (shifted as int) <= 1_000_000,
                    0 <= (len as int) <= 1_000,
            ;
        }
        let scaled: u64 = (shifted * (len as u64)) / (SCALE as u64);
        if scaled >= len as u64 {
            len - 1
        } else {
            scaled as usize
        }
    }
}

} // verus!
