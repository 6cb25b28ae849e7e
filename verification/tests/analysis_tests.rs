use wav_rs::{
    calculate_average_interval, calculate_tempus, detect_peaks_with_slope, sample_magnitude,
    window_range, TempoRatio,
};

/// Per-sample loudness in decibels, built on the verified magnitude
/// clamp exactly as a caller of the library would build it.
fn volume(sample: i16) -> f64 {
    let m = sample_magnitude(sample);
    if m == 0 {
        0.0
    } else {
        20.0 * (m as f64).log10()
    }
}

/// Order-preserving integer encoding of a finite f64, as a caller hands
/// a floating-point loudness curve to the integer peak detector.
fn volume_key(x: f64) -> i64 {
    let b = x.to_bits() as i64;
    if b < 0 {
        b ^ 0x7FFF_FFFF_FFFF_FFFF
    } else {
        b
    }
}

#[test]
fn magnitude_of_zero_is_zero() {
    assert_eq!(sample_magnitude(0), 0);
}

#[test]
fn magnitude_clamps_minimum_to_maximum() {
    assert_eq!(sample_magnitude(i16::MIN), 32767);
    assert_eq!(sample_magnitude(i16::MAX), 32767);
    assert_eq!(sample_magnitude(i16::MIN), sample_magnitude(i16::MAX));
}

#[test]
fn magnitude_is_symmetric_in_sign() {
    for x in [1i16, 2, 100, 1000, 32767] {
        assert_eq!(sample_magnitude(x), sample_magnitude(-x));
    }
}

#[test]
fn volume_of_zero_is_zero() {
    assert_eq!(volume(0), 0.0);
}

#[test]
fn volume_of_minimum_equals_volume_of_maximum() {
    assert_eq!(volume(i16::MIN), volume(i16::MAX));
}

#[test]
fn volume_is_symmetric_in_sign() {
    for x in [1i16, 9, 1000, 32767] {
        assert_eq!(volume(x), volume(-x));
    }
}

#[test]
fn volume_of_thousand_is_sixty_decibels() {
    assert!((volume(1000) - 60.0).abs() < 1e-9);
}

#[test]
fn window_grows_then_stays_fixed() {
    assert_eq!(window_range(0, 5), (0, 1));
    assert_eq!(window_range(3, 5), (0, 4));
    assert_eq!(window_range(4, 5), (0, 5));
    assert_eq!(window_range(9, 5), (5, 5));
}

#[test]
fn window_of_one_is_the_sample_itself() {
    for i in 0..10 {
        assert_eq!(window_range(i, 1), (i, 1));
    }
}

#[test]
fn peaks_need_at_least_three_entries() {
    assert_eq!(detect_peaks_with_slope(&[], 0), Vec::<usize>::new());
    assert_eq!(detect_peaks_with_slope(&[5], 0), Vec::<usize>::new());
    assert_eq!(detect_peaks_with_slope(&[5, 9], 0), Vec::<usize>::new());
}

#[test]
fn peaks_exclude_first_and_last_position() {
    let curve = vec![9, 1, 2, 1, 9];
    assert_eq!(detect_peaks_with_slope(&curve, 0), vec![2]);
}

#[test]
fn peaks_must_exceed_threshold_strictly() {
    let curve = vec![0, 5, 0];
    assert_eq!(detect_peaks_with_slope(&curve, 5), Vec::<usize>::new());
    assert_eq!(detect_peaks_with_slope(&curve, 4), vec![1]);
}

#[test]
fn plateaus_are_not_peaks() {
    let curve = vec![0, 7, 7, 0];
    assert_eq!(detect_peaks_with_slope(&curve, 0), Vec::<usize>::new());
}

#[test]
fn peaks_come_back_sorted() {
    let curve = vec![0, 3, 0, 8, 0, 2, 0, 9, 0];
    assert_eq!(detect_peaks_with_slope(&curve, 0), vec![1, 3, 5, 7]);
}

#[test]
fn average_interval_needs_two_peaks() {
    assert_eq!(calculate_average_interval(&[]), None);
    assert_eq!(calculate_average_interval(&[7]), None);
}

#[test]
fn average_interval_sums_gaps() {
    assert_eq!(calculate_average_interval(&[4, 8, 12]), Some((8, 2)));
    assert_eq!(calculate_average_interval(&[3, 5, 11, 12]), Some((9, 3)));
}

#[test]
fn tempo_of_fewer_than_two_peaks_is_zero() {
    let zero = TempoRatio { num: 0, den: 1 };
    assert_eq!(calculate_tempus(&[], 44100), zero);
    assert_eq!(calculate_tempus(&[5], 44100), zero);
    assert_eq!(zero.num as f64 / zero.den as f64, 0.0);
}

#[test]
fn periodic_peaks_give_exact_tempo() {
    let t = calculate_tempus(&[10, 14, 18, 22], 8);
    assert_eq!(t, TempoRatio { num: 1440, den: 12 });
    assert_eq!(t.num as f64 / t.den as f64, 120.0);
}

#[test]
fn spike_train_end_to_end() {
    let samples: Vec<i16> = vec![0, 0, 0, 0, 1000, 0, 0, 0, 1000, 0, 0, 0, 1000, 0, 0, 0];
    let rate = 8;
    // window of one sample: the loudness curve is the per-sample volume
    let curve: Vec<f64> = samples.iter().map(|&s| volume(s)).collect();
    let keys: Vec<i64> = curve.iter().map(|&v| volume_key(v)).collect();
    let peaks = detect_peaks_with_slope(&keys, volume_key(0.0));
    assert_eq!(peaks, vec![4, 8, 12]);
    let t = calculate_tempus(&peaks, rate);
    assert_eq!(t, TempoRatio { num: 960, den: 8 });
    assert_eq!(t.num as f64 / t.den as f64, 120.0);
}

#[test]
fn key_encoding_preserves_order() {
    let values = [-100.5, -1.0, 0.0, 0.5, 1.0, 59.9, 60.0, 90.3];
    for w in values.windows(2) {
        assert!(volume_key(w[0]) < volume_key(w[1]));
    }
}
