use murmur::resample::resample_to_16k;

#[test]
fn identity_at_target_rate() {
    let input: Vec<i32> = vec![0, 5000, -3000, 10000, -10000, 1];
    let out = resample_to_16k(&input, 16000);
    assert_eq!(out, input);
}

#[test]
fn identity_at_target_rate_long() {
    let input: Vec<i32> = (0..16000).map(|i| (i % 20001) - 10000).collect();
    let out = resample_to_16k(&input, 16000);
    assert_eq!(out, input);
}

#[test]
fn length_law_downsample() {
    // floor(10 * 16000 / 32000) == 5
    let input: Vec<i32> = vec![0; 10];
    assert_eq!(resample_to_16k(&input, 32000).len(), 5);
}

#[test]
fn length_law_odd_rate() {
    // floor(7 * 16000 / 44100) == 2
    let input: Vec<i32> = vec![0; 7];
    assert_eq!(resample_to_16k(&input, 44100).len(), 2);
}

#[test]
fn length_law_upsample() {
    // floor(3 * 16000 / 8000) == 6
    let input: Vec<i32> = vec![0; 3];
    assert_eq!(resample_to_16k(&input, 8000).len(), 6);
}

#[test]
fn zero_rate_yields_empty() {
    let input: Vec<i32> = vec![1, 2, 3];
    assert!(resample_to_16k(&input, 0).is_empty());
}

#[test]
fn empty_input_yields_empty() {
    let input: Vec<i32> = Vec::new();
    assert!(resample_to_16k(&input, 48000).is_empty());
}

#[test]
fn downsample_picks_every_third_sample() {
    // At 48 kHz every output position lands exactly on source index 3n.
    let input: Vec<i32> = vec![0, 300, 600, 900, 1200, 1500, 1800];
    let out = resample_to_16k(&input, 48000);
    assert_eq!(out, vec![0, 900]);
}

#[test]
fn upsample_interpolates_midpoints() {
    let input: Vec<i32> = vec![0, 1000];
    let out = resample_to_16k(&input, 8000);
    // Positions 0, 0.5, 1, 1.5; past the end the last sample repeats.
    assert_eq!(out, vec![0, 500, 1000, 1000]);
}

#[test]
fn interpolation_rounds_down_for_negative_values() {
    let input: Vec<i32> = vec![-1000, 0];
    let out = resample_to_16k(&input, 8000);
    assert_eq!(out, vec![-1000, -500, 0, 0]);
}

#[test]
fn interpolation_floor_on_uneven_fraction() {
    // Position of output 1 at 24 kHz is 1.5: halfway between 0 and 1.
    let input: Vec<i32> = vec![10, 15, 20];
    let out = resample_to_16k(&input, 24000);
    // len = floor(3 * 16000 / 24000) = 2; out[1] = floor((15 + 20) / 2) = 17
    assert_eq!(out, vec![10, 17]);
}
