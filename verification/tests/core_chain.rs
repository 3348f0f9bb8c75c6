use feedback_ws::engine::FeedbackWS;
use feedback_ws::engine::DC_BETA;
use feedback_ws::fixed::scale_mul;
use feedback_ws::fixed::SCALE;

#[test]
fn scale_mul_exact_products() {
    assert_eq!(scale_mul(200_000, 500_000), 100_000);
    assert_eq!(scale_mul(-300_000, 500_000), -150_000);
    assert_eq!(scale_mul(300_000, -500_000), -150_000);
    assert_eq!(scale_mul(-300_000, -500_000), 150_000);
}

#[test]
fn scale_mul_truncates_toward_zero() {
    assert_eq!(scale_mul(1, 999_999), 0);
    assert_eq!(scale_mul(-1, 999_999), 0);
    assert_eq!(scale_mul(1_999_999, 500_000), 999_999);
    assert_eq!(scale_mul(-1_999_999, 500_000), -999_999);
}

#[test]
fn scale_mul_zero_and_unit_factors() {
    assert_eq!(scale_mul(123_456_789, 0), 0);
    assert_eq!(scale_mul(123_456_789, SCALE), 123_456_789);
    assert_eq!(scale_mul(-123_456_789, SCALE), -123_456_789);
}

#[test]
fn hpf_zero_beta_is_full_difference() {
    let mut e = FeedbackWS::new();
    e.last_sample_l = 250_000;
    assert_eq!(e.hpf(700_000, true, 0), 450_000);
}

#[test]
fn hpf_unit_beta_blocks_everything() {
    let mut e = FeedbackWS::new();
    e.last_sample_l = 250_000;
    e.last_sample_r = -125_000;
    assert_eq!(e.hpf(700_000, true, SCALE), 0);
    assert_eq!(e.hpf(-900_000, false, SCALE), 0);
}

#[test]
fn hpf_mid_beta_exact_value() {
    let mut e = FeedbackWS::new();
    e.last_sample_l = 200_000;
    // 600000 - (600000 * 0.5 + 200000 * 0.5) = 200000
    assert_eq!(e.hpf(600_000, true, 500_000), 200_000);
}

#[test]
fn widen_zero_depth_is_identity() {
    let mut e = FeedbackWS::new();
    e.set_parameter(7, 0);
    assert_eq!(e.stereoshape(345_678, 900_000, true), 345_678);
    assert_eq!(e.stereoshape(345_678, 900_000, false), 345_678);
    assert_eq!(e.stereoshape(-345_678, -900_000, true), -345_678);
}

#[test]
fn widen_left_right_sum_is_twice_input() {
    let mut e = FeedbackWS::new();
    e.set_parameter(7, 750_000);
    let s = 123_456;
    let m = 800_000;
    let l = e.stereoshape(s, m, true);
    let r = e.stereoshape(s, m, false);
    assert_eq!(l + r, 2 * s);
    assert_ne!(l, r);
}

#[test]
fn widen_arg_scales_by_color() {
    let mut e = FeedbackWS::new();
    // color defaults to 0.1; sample 0.001 * 1000 * 0.1 = 0.1
    assert_eq!(e.widen_arg(1_000), 100_000);
    e.set_parameter(8, 0);
    assert_eq!(e.widen_arg(1_000), 0);
}

#[test]
fn mix_applies_feedback_then_gain() {
    let mut e = FeedbackWS::new();
    e.set_parameter(5, 500_000);
    e.set_parameter(6, SCALE);
    e.last_sample_l = 200_000;
    // 0 + 0.2 * 0.5 = 0.1, then unit gain
    assert_eq!(e.mix_input(0, true), 100_000);
}

#[test]
fn mix_reads_the_addressed_channel() {
    let mut e = FeedbackWS::new();
    e.set_parameter(5, SCALE);
    e.set_parameter(6, SCALE);
    e.last_sample_l = 300_000;
    e.last_sample_r = -400_000;
    assert_eq!(e.mix_input(100_000, true), 400_000);
    assert_eq!(e.mix_input(100_000, false), -300_000);
}

#[test]
fn zero_feedback_ignores_stored_state() {
    let mut e = FeedbackWS::new();
    e.set_parameter(5, 0);
    e.set_parameter(6, SCALE);
    e.last_sample_l = 987_654;
    let with_state = e.mix_input(250_000, true);
    e.last_sample_l = -321_000;
    let with_other_state = e.mix_input(250_000, true);
    assert_eq!(with_state, 250_000);
    assert_eq!(with_other_state, 250_000);
}

#[test]
fn quiet_chain_end_to_end() {
    // feedback 0, unit gain, zero widening depth, shaper output 0:
    // every later stage must leave exact silence.
    let mut e = FeedbackWS::new();
    e.set_parameter(5, 0);
    e.set_parameter(6, SCALE);
    e.set_parameter(7, 0);
    let pipe = e.mix_input(500_000, true);
    assert_eq!(pipe, 500_000);
    let out = e.finish_sample(Some(0), Some(0), true);
    assert_eq!(out, 0);
    assert_eq!(e.last_sample_l, 0);
    assert_eq!(e.last_sample_r, 0);
}

#[test]
fn finish_sample_silences_unrepresentable_values() {
    let mut e = FeedbackWS::new();
    e.set_parameter(7, 500_000);
    e.set_parameter(9, 0);
    e.last_sample_l = 100_000;
    // The shaped sample and the modulation are both silenced to zero, so
    // the output is hpf(0, 0.1, 0.0001) and the new state hpf(0, 0.1, 0).
    let out = e.finish_sample(None, None, true);
    assert_eq!(out, -99_990);
    assert_eq!(e.last_sample_l, -100_000);
}

#[test]
fn finish_sample_output_uses_pre_update_state() {
    let mut e = FeedbackWS::new();
    e.set_parameter(7, 0);
    e.set_parameter(9, SCALE);
    e.last_sample_l = 200_000;
    // With a unit feedback pole the stored state collapses to zero, but
    // the output must still have been blocked against the old state.
    let out = e.finish_sample(Some(0), Some(0), true);
    assert_eq!(out, -199_980);
    assert_eq!(e.last_sample_l, 0);
}

#[test]
fn finish_sample_touches_only_the_addressed_channel() {
    let mut e = FeedbackWS::new();
    e.set_parameter(9, 0);
    e.last_sample_l = 111_111;
    e.last_sample_r = 222_222;
    let _ = e.finish_sample(Some(50_000), Some(0), true);
    assert_eq!(e.last_sample_r, 222_222);
    assert_eq!(e.last_sample_l, 50_000 - 111_111);
}

#[test]
fn dc_blocker_pole_is_one_ten_thousandth() {
    assert_eq!(DC_BETA, 100);
    let mut e = FeedbackWS::new();
    e.last_sample_l = 0;
    // hpf(1.0, 0, 0.0001) = 1.0 - 0.0001
    assert_eq!(e.hpf(SCALE, true, DC_BETA), 999_900);
}

#[test]
fn state_in_range_bounds_both_channels() {
    let mut e = FeedbackWS::new();
    assert!(e.state_in_range());
    e.last_sample_l = 1_000_000_000_001;
    assert!(!e.state_in_range());
    e.last_sample_l = 0;
    e.last_sample_r = -1_000_000_000_001;
    assert!(!e.state_in_range());
}
