use harmonia::order::{first_below, first_minimum, highest_above, less, less_eq, lowest_below, absolute};
use harmonia::pitch::{
    best_octave_candidate, locate_peak, octave_number, period_range_fits, pitch_class, pitch_class_name,
    select_period,
};

/// The ordered key of a reading: the magnitude bits with the sign applied;
/// `None` for a value that is not a number.
fn key(x: f32) -> Option<i32> {
    if x.is_nan() {
        None
    } else {
        let bits = x.to_bits();
        let magnitude = (bits & 0x7fff_ffff) as i32;
        Some(if bits >> 31 == 1 { -magnitude } else { magnitude })
    }
}

fn keys(xs: &[f32]) -> Vec<Option<i32>> {
    xs.iter().map(|&x| key(x)).collect()
}

#[test]
fn keys_order_like_values() {
    let values = [
        f32::NEG_INFINITY, -3.5, -1.0, -1e-30, -0.0, 0.0, 1e-30, 0.001, 0.5, 1.0, 82.41, 380.0, f32::MAX,
        f32::INFINITY,
    ];
    for &a in values.iter() {
        for &b in values.iter() {
            assert_eq!(less(key(a), key(b)), a < b, "{} < {}", a, b);
            assert_eq!(less_eq(key(a), key(b)), a <= b, "{} <= {}", a, b);
        }
        assert!(!less(key(a), key(f32::NAN)));
        assert!(!less(key(f32::NAN), key(a)));
        assert!(!less_eq(key(f32::NAN), key(a)));
        assert_eq!(absolute(key(a)), key(a.abs()));
    }
}

#[test]
fn lowest_below_keeps_first_minimum() {
    let k = keys(&[5.0, 3.0, 7.0, 3.0, 4.0]);
    assert_eq!(lowest_below(&k, 0, 4, key(10.0)), Some(1));
    assert_eq!(lowest_below(&k, 2, 4, key(10.0)), Some(3));
    assert_eq!(lowest_below(&k, 0, 4, key(3.0)), None);
    assert_eq!(lowest_below(&k, 0, 4, None), None);
    let with_nan = keys(&[f32::NAN, 2.0, f32::NAN, 1.0]);
    assert_eq!(lowest_below(&with_nan, 0, 3, key(5.0)), Some(3));
}

#[test]
fn highest_above_keeps_first_maximum() {
    let k = keys(&[1.0, 9.0, 2.0, 9.0, f32::NAN]);
    assert_eq!(highest_above(&k, 0, 4, key(0.0)), Some(1));
    assert_eq!(highest_above(&k, 2, 4, key(0.0)), Some(3));
    assert_eq!(highest_above(&k, 0, 4, key(9.0)), None);
}

#[test]
fn first_below_and_first_minimum() {
    let k = keys(&[0.9, 0.5, 0.1, 0.05, 0.2]);
    assert_eq!(first_below(&k, 0, 4, key(0.15)), Some(2));
    assert_eq!(first_below(&k, 0, 4, key(0.01)), None);
    assert_eq!(first_minimum(&k, 0, 4), 3);
    assert_eq!(first_minimum(&k, 4, 4), 4);
    let nan_first = keys(&[f32::NAN, 0.1, 0.0]);
    assert_eq!(first_minimum(&nan_first, 0, 2), 0);
}

#[test]
fn peak_is_the_strongest_bin_with_neighbours() {
    let mags = keys(&[50.0, 0.0, 1.0, 4.0, 2.0, 4.0, 0.5, 9.0, 30.0]);
    // band 1..=5 (raw 0 raised to 1, raw 5 kept): 4.0 first at bin 3
    assert_eq!(locate_peak(&mags, 0, 5, key(0.001)), Some(3));
    // raw high beyond the end is lowered to len - 2 = 7
    assert_eq!(locate_peak(&mags, 2, 100, key(0.001)), Some(7));
    // the peak must reach the minimum level
    assert_eq!(locate_peak(&mags, 1, 5, key(5.0)), None);
}

#[test]
fn peak_of_silent_or_empty_band() {
    let silent = keys(&[0.0; 8]);
    assert_eq!(locate_peak(&silent, 2, 5, key(0.001)), None);
    // a minimum of zero accepts the silent band at its low bin
    assert_eq!(locate_peak(&silent, 2, 5, key(0.0)), Some(2));
    let short = keys(&[1.0, 2.0]);
    assert_eq!(locate_peak(&short, 0, 1, key(0.001)), None);
    let mags = keys(&[1.0, 2.0, 3.0, 4.0, 5.0]);
    assert_eq!(locate_peak(&mags, 3, 3, key(0.001)), None);
    assert_eq!(locate_peak(&mags, 4, 2, key(0.001)), None);
}

#[test]
fn period_range_is_checked() {
    assert!(period_range_fits(116, 631, 8192));
    assert!(!period_range_fits(1, 631, 8192));
    assert!(!period_range_fits(116, 8192, 8192));
}

#[test]
fn period_follows_the_dip_to_its_bottom() {
    //            0    1    2    3     4     5     6    7    8
    let cmnd = keys(&[1.0, 0.9, 0.8, 0.14, 0.10, 0.08, 0.3, 0.05, 0.9]);
    assert_eq!(select_period(&cmnd, 2, 8, key(0.15), key(0.35)), Some(5));
    // descent stops at max_tau
    assert_eq!(select_period(&cmnd, 2, 4, key(0.15), key(0.35)), Some(4));
}

#[test]
fn period_falls_back_to_the_minimum() {
    let cmnd = keys(&[1.0, 0.9, 0.8, 0.3, 0.2, 0.25, 0.2, 0.9]);
    assert_eq!(select_period(&cmnd, 2, 7, key(0.15), key(0.35)), Some(4));
    let flat = keys(&[1.0, 0.9, 0.8, 0.6, 0.5, 0.7]);
    assert_eq!(select_period(&flat, 2, 5, key(0.15), key(0.35)), None);
    // an unordered value at the start stops the fallback scan there
    let nan_start = keys(&[1.0, 0.9, f32::NAN, 0.3, 0.2]);
    assert_eq!(select_period(&nan_start, 2, 4, key(0.15), key(0.35)), Some(2));
}

#[test]
fn octave_candidate_by_smallest_error() {
    // three candidates against two notes; the middle candidate is out of range
    let errors = vec![key(40.0), key(30.0), None, None, key(12.0), key(50.0)];
    assert_eq!(best_octave_candidate(&errors, 2, key(f32::MAX)), Some(2));
    let none = vec![None, None, key(f32::INFINITY), None];
    assert_eq!(best_octave_candidate(&none, 2, key(f32::MAX)), None);
}

#[test]
fn note_numbers_are_named() {
    assert_eq!(pitch_class(69), 9);
    assert_eq!(pitch_class_name(pitch_class(69)), "A");
    assert_eq!(octave_number(69), 4);
    assert_eq!(pitch_class(60), 0);
    assert_eq!(octave_number(60), 4);
    assert_eq!(pitch_class(40), 4);
    assert_eq!(octave_number(40), 2);
    assert_eq!(pitch_class_name(1), "C#");
    assert_eq!(pitch_class_name(11), "B");
    // below zero: Euclidean class, octave rounded towards zero
    assert_eq!(pitch_class(-1), 11);
    assert_eq!(octave_number(-1), -1);
    assert_eq!(pitch_class(-12), 0);
    assert_eq!(octave_number(-12), -2);
    assert_eq!(pitch_class(-13), 11);
    assert_eq!(octave_number(-13), -2);
    assert_eq!(pitch_class(i32::MIN), ((i32::MIN as i64).rem_euclid(12)) as usize);
    assert_eq!(octave_number(i32::MIN), i32::MIN / 12 - 1);
}

#[test]
fn note_numbers_decompose_from_zero_up() {
    for midi in 0..200 {
        assert_eq!(midi, 12 * (octave_number(midi) + 1) + pitch_class(midi) as i32);
        assert_eq!(pitch_class(midi + 12), pitch_class(midi));
        assert_eq!(octave_number(midi + 12), octave_number(midi) + 1);
    }
    // rounding towards zero breaks the decomposition below zero
    assert_ne!(-1, 12 * (octave_number(-1) + 1) + pitch_class(-1) as i32);
}
