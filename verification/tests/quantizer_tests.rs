use aac_ld_encoder::quantizer::AdaptiveQuantizer;

#[test]
fn construction_derives_the_bit_budget() {
    let quantizer = AdaptiveQuantizer::new(240, 128000, 44100, 480);
    assert_eq!(quantizer.target_bits_per_frame(), 128000 * 480 / 44100);
    assert_eq!(quantizer.target_bits_per_frame(), 1393);
    assert_eq!(quantizer.global_gain(), 100);
    assert_eq!(quantizer.bit_reservoir(), 0);
    assert_eq!(quantizer.band_count(), 240);
    for i in 0..quantizer.band_count() {
        assert_eq!(quantizer.scale_factor(i), 0);
    }
}

#[test]
fn bit_cost_estimate_has_the_fixed_shape() {
    let quantizer = AdaptiveQuantizer::new(4, 64000, 44100, 480);
    assert_eq!(quantizer.estimate_bits(0), 2);
    assert_eq!(quantizer.estimate_bits(1), 4);
    assert_eq!(quantizer.estimate_bits(15), 4);
    assert_eq!(quantizer.estimate_bits(-1), 5);
    assert_eq!(quantizer.estimate_bits(-15), 5);
    assert_eq!(quantizer.estimate_bits(16), 8 + 2 * 4);
    assert_eq!(quantizer.estimate_bits(-16), 8 + 2 * 4);
    assert_eq!(quantizer.estimate_bits(255), 8 + 2 * 7);
    assert_eq!(quantizer.estimate_bits(256), 8 + 2 * 8);
    assert_eq!(quantizer.estimate_bits(32767), 8 + 2 * 14);
    assert_eq!(quantizer.estimate_bits(-32767), 8 + 2 * 14);
}

#[test]
fn frame_bits_are_the_sum_of_the_values() {
    let quantizer = AdaptiveQuantizer::new(4, 64000, 44100, 480);
    let values: Vec<i16> = vec![0, 1, -1, 16, -32767];
    let expected = 2 + 4 + 5 + 16 + 36;
    assert_eq!(quantizer.estimate_frame_bits(&values), expected);
    assert_eq!(quantizer.estimate_frame_bits(&[]), 0);
}

#[test]
fn quantized_output_has_one_value_per_coefficient() {
    let rounded: Vec<i64> = vec![0, 7, -7, 100000, -100000, 32767, -32767, 40000];
    let quantized = AdaptiveQuantizer::quantize_values(&rounded);
    assert_eq!(quantized.len(), rounded.len());
    assert_eq!(quantized, vec![0, 7, -7, 32767, -32767, 32767, -32767, 32767]);
}

#[test]
fn over_budget_raises_the_gain_by_two() {
    let mut quantizer = AdaptiveQuantizer::new(4, 64000, 44100, 480);
    let target = quantizer.target_bits_per_frame();
    let done = quantizer.rate_control_step(target * 2, 0);
    assert!(!done);
    assert_eq!(quantizer.global_gain(), 102);
    // the reservoir and the average move only on convergence
    assert_eq!(quantizer.bit_reservoir(), 0);
}

#[test]
fn under_budget_lowers_the_gain_by_one() {
    let mut quantizer = AdaptiveQuantizer::new(4, 64000, 44100, 480);
    let done = quantizer.rate_control_step(0, 0);
    assert!(!done);
    assert_eq!(quantizer.global_gain(), 99);
}

#[test]
fn the_gain_clamps_at_both_ends() {
    let mut quantizer = AdaptiveQuantizer::new(4, 64000, 44100, 480);
    let target = quantizer.target_bits_per_frame();
    for _ in 0..200 {
        quantizer.rate_control_step(target * 2, 0);
    }
    assert_eq!(quantizer.global_gain(), 255);

    let mut quantizer = AdaptiveQuantizer::new(4, 64000, 44100, 480);
    for _ in 0..200 {
        quantizer.rate_control_step(0, 0);
    }
    assert_eq!(quantizer.global_gain(), 0);
}

#[test]
fn a_bit_count_near_the_target_converges_at_once() {
    let mut quantizer = AdaptiveQuantizer::new(4, 64000, 44100, 480);
    let target = quantizer.target_bits_per_frame();
    let done = quantizer.rate_control_step(target, 0);
    assert!(done);
    assert_eq!(quantizer.global_gain(), 100);
    assert_eq!(quantizer.bit_reservoir(), 0);
}

#[test]
fn the_iteration_cap_forces_convergence() {
    let mut quantizer = AdaptiveQuantizer::new(4, 64000, 44100, 480);
    let done = quantizer.rate_control_step(0, 10);
    assert!(done);
    // converging under budget banks the whole 696-bit target in the reservoir
    assert_eq!(quantizer.bit_reservoir(), 696);
}

#[test]
fn the_reservoir_clamps_to_its_bounds() {
    let mut quantizer = AdaptiveQuantizer::new(4, 320000, 8000, 240);
    // target is 9600; converging at zero bits would add 9600, clamped to 1000
    assert!(quantizer.rate_control_step(0, 10));
    assert_eq!(quantizer.bit_reservoir(), 1000);

    let mut quantizer = AdaptiveQuantizer::new(4, 320000, 8000, 240);
    // converging far over budget drains it to the lower bound
    assert!(quantizer.rate_control_step(100000, 10));
    assert_eq!(quantizer.bit_reservoir(), -1000);
}
