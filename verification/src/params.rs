//! The host-facing parameter surface: the fixed index layout of the
//! normalized controls, their display names and display texts, and the
//! plugin identity record.
use crate::engine::FeedbackWS;
use crate::fixed::SCALE;
use crate::shapers::descriptor;
use crate::shapers::spec_descriptor;
use crate::shapers::spec_selector_index;
use crate::shapers::spec_waveshaper_at;
use crate::shapers::selector_index;
use crate::shapers::waveshaper_at;
use vstd::prelude::*;

verus! {

/// Plugin identity as reported to the host.
pub struct PluginInfo {
    /// Display name of the plugin.
    pub name: &'static str,
    /// Registered unique identifier.
    pub unique_id: i32,
    /// Number of input channels.
    pub inputs: i32,
    /// Number of output channels.
    pub outputs: i32,
    /// Number of automatable parameters.
    pub parameters: i32,
}

/// The control value read back at a parameter index: index zero reports the
/// registry selection as a normalized fraction, the others report their
/// control directly, and an unknown index reads as zero.
pub open spec fn spec_get_parameter(s: FeedbackWS, index: int) -> int {
    if index == 0 {
        ((s.current_function as int) * (SCALE as int)) / (s.functions_len as int)
    } else if index == 1 {
        s.parameter_a as int
    } else if index == 2 {
        s.parameter_b as int
    } else if index == 3 {
        s.parameter_c as int
    } else if index == 4 {
        s.parameter_d as int
    } else if index == 5 {
        s.feedback as int
    } else if index == 6 {
        s.gain as int
    } else if index == 7 {
        s.stereo_depth as int
    } else if index == 8 {
        s.stereo_color as int
    } else if index == 9 {
        s.beta as int
    } else {
        0
    }
}

/// The state after a write to a parameter index: index zero re-selects the
/// waveshaper through the clamped selector mapping, the others store their
/// control directly, and an unknown index changes nothing.
pub open spec fn spec_set_parameter(s: FeedbackWS, index: int, value: int) -> FeedbackWS {
    if index == 0 {
        FeedbackWS {
            current_function: spec_selector_index(value, s.functions_len as int) as usize,
            ..s
        }
    } else if index == 1 {
        FeedbackWS { parameter_a: value as i64, ..s }
    } else if index == 2 {
        FeedbackWS { parameter_b: value as i64, ..s }
    } else if index == 3 {
        FeedbackWS { parameter_c: value as i64, ..s }
    } else if index == 4 {
        FeedbackWS { parameter_d: value as i64, ..s }
    } else if index == 5 {
        FeedbackWS { feedback: value as i64, ..s }
    } else if index == 6 {
        FeedbackWS { gain: value as i64, ..s }
    } else if index == 7 {
        FeedbackWS { stereo_depth: value as i64, ..s }
    } else if index == 8 {
        FeedbackWS { stereo_color: value as i64, ..s }
    } else if index == 9 {
        FeedbackWS { beta: value as i64, ..s }
    } else {
        s
    }
}

/// A control written at a parameter index reads back unchanged at that
/// index. The selector at index zero is the one control that is re-derived
/// from the written value rather than stored, so it is not covered here.
pub proof fn lemma_set_get_round_trip(s: FeedbackWS, index: int, value: int)
    requires
        1 <= index <= 9,
        0 <= value <= SCALE,
    ensures
        spec_get_parameter(spec_set_parameter(s, index, value), index) == value,
{
}

/// A write at one parameter index leaves the control read at every other
/// index unchanged.
pub proof fn lemma_set_parameter_frame(s: FeedbackWS, index: int, value: int, other: int)
    requires
        0 <= other <= 9,
        other != index,
    ensures
        spec_get_parameter(spec_set_parameter(s, index, value), other) == spec_get_parameter(
            s,
            other,
        ),
{
}

impl FeedbackWS {
    /// Plugin identity: two channels in and out, ten parameters.
    pub fn get_info(&self) -> (info: PluginInfo)
        ensures
            info.name@ == "FeedbackWS"@,
            info.unique_id == 543229834,
            info.inputs == 2,
            info.outputs == 2,
            info.parameters == 10,
    {
        PluginInfo {
            name: "FeedbackWS",
            unique_id: 543229834,
            inputs: 2,
            outputs: 2,
            parameters: 10,
        }
    }

    /// Reads the normalized control at a parameter index; an unknown index
    /// reads as the neutral zero.
    pub fn get_parameter(&self, index: i32) -> (r: i64)
        requires
            self.wf(),
        ensures
            r == spec_get_parameter(*self, index as int),
            0 <= r <= SCALE,
    {
        match index {
            0 => ((self.current_function as u64 * SCALE as u64) / (self.functions_len as u64))
                as i64,
            1 => self.parameter_a,
            2 => self.parameter_b,
            3 => self.parameter_c,
            4 => self.parameter_d,
            5 => self.feedback,
            6 => self.gain,
            7 => self.stereo_depth,
            8 => self.stereo_color,
            9 => self.beta,
            _ => 0,
        }
    }

    /// Writes the normalized control at a parameter index; an unknown index
    /// is a no-op. Index zero re-selects the waveshaper, clamped into the
    /// registry.
    pub fn set_parameter(&mut self, index: i32, value: i64)
        requires
            old(self).wf(),
            0 <= value <= SCALE,
        ensures
            final(self).wf(),
            *final(self) == spec_set_parameter(*old(self), index as int, value as int),
            final(self).last_sample_l == old(self).last_sample_l,
            final(self).last_sample_r == old(self).last_sample_r,
    {
        match index {
            0 => {
                self.current_function = selector_index(value, self.functions_len);
            },
            1 => {
                self.parameter_a = value;
            },
            2 => {
                self.parameter_b = value;
            },
            3 => {
                self.parameter_c = value;
            },
            4 => {
                self.parameter_d = value;
            },
            5 => {
                self.feedback = value;
            },
            6 => {
                self.gain = value;
            },
            7 => {
                self.stereo_depth = value;
            },
            8 => {
                self.stereo_color = value;
            },
            9 => {
                self.beta = value;
            },
            _ => (),
        }
    }

    /// The display name of a parameter index; an unknown index has an empty
    /// name.
    pub fn get_parameter_name(&self, index: i32) -> (r: &'static str)
        ensures
            index == 0 ==> r@ == "function"@,
            index == 1 ==> r@ == "parameter a"@,
            index == 2 ==> r@ == "parameter b"@,
            index == 3 ==> r@ == "parameter c"@,
            index == 4 ==> r@ == "parameter d"@,
            index == 5 ==> r@ == "feedback"@,
            index == 6 ==> r@ == "gain"@,
            index == 7 ==> r@ == "stereo"@,
            index == 8 ==> r@ == "stereo freq"@,
            index == 9 ==> r@ == "beta"@,
            index < 0 || index > 9 ==> r@ == ""@,
    {
        match index {
            0 => "function",
            1 => "parameter a",
            2 => "parameter b",
            3 => "parameter c",
            4 => "parameter d",
            5 => "feedback",
            6 => "gain",
            7 => "stereo",
            8 => "stereo freq",
            9 => "beta",
            _ => "",
        }
    }

    /// The display text of a parameter index: index zero shows the selected
    /// waveshaper's descriptor, the others a fixed label; an unknown index
    /// shows nothing.
    pub fn get_parameter_text(&self, index: i32) -> (r: &'static str)
        requires
            self.wf(),
        ensures
            index == 0 ==> r@ == spec_descriptor(spec_waveshaper_at(self.current_function as int)),
            index == 1 ==> r@ == "self.parameter_a"@,
            index == 2 ==> r@ == "self.parameter_b"@,
            index == 3 ==> r@ == "self.parameter_c"@,
            index == 4 ==> r@ == "self.parameter_d"@,
            index == 5 ==> r@ == "self.feedback"@,
            index == 6 ==> r@ == "self.gain"@,
            index == 7 ==> r@ == "self.stereo_depth"@,
            index == 8 ==> r@ == "self.stereo_color"@,
            index < 0 || index > 8 ==> r@ == ""@,
    {
        match index {
            0 => descriptor(waveshaper_at(self.current_function)),
            1 => "self.parameter_a",
            2 => "self.parameter_b",
            3 => "self.parameter_c",
            4 => "self.parameter_d",
            5 => "self.feedback",
            6 => "self.gain",
            7 => "self.stereo_depth",
            8 => "self.stereo_color",
            _ => "",
        }
    }
}

} // verus!
