use harmonia::device::{select_input_config, InputConfigRange, SampleFormatKind, SelectedInput};
use harmonia::display::{
    gauge_highlight, gauge_update, string_button_slot, string_info, ButtonSlot, GaugeHighlight, GaugeUpdate,
    PegSide,
};
use harmonia::framing::{check_frame_layout, Calibration, ConfigError, RollingFrames};
use harmonia::tuning::{cents_status, closest_note, guitar_note_name, hertz_status, TuningStatus};

const GUITAR: [f32; 6] = [82.41, 110.00, 146.83, 196.00, 246.94, 329.63];

fn key(x: f32) -> Option<i32> {
    if x.is_nan() {
        None
    } else {
        let bits = x.to_bits();
        let magnitude = (bits & 0x7fff_ffff) as i32;
        Some(if bits >> 31 == 1 { -magnitude } else { magnitude })
    }
}

fn cents(detected: f32, target: f32) -> f32 {
    if detected <= 0.0 || target <= 0.0 {
        return 0.0;
    }
    1200.0 * (detected / target).log2()
}

#[test]
fn closest_note_by_frequency_distance() {
    let by_hz = |freq: f32| -> usize {
        let d: Vec<Option<i32>> = GUITAR.iter().map(|&f| key((freq - f).abs())).collect();
        closest_note(&d)
    };
    assert_eq!(by_hz(82.0), 0);
    assert_eq!(by_hz(112.0), 1);
    assert_eq!(by_hz(150.0), 2);
    assert_eq!(by_hz(200.0), 3);
    assert_eq!(by_hz(250.0), 4);
    assert_eq!(by_hz(1000.0), 5);
    assert_eq!(by_hz(f32::NAN), 0);
    assert_eq!(guitar_note_name(by_hz(112.0)), "A2");
}

#[test]
fn closest_note_by_cents() {
    let by_cents = |freq: f32| -> usize {
        let d: Vec<Option<i32>> = GUITAR.iter().map(|&f| key(cents(freq, f).abs())).collect();
        closest_note(&d)
    };
    // 95.7 Hz is nearer E2 in hertz (13.29 against 14.30) but nearer A2 in cents
    assert_eq!(by_cents(95.7), 1);
    let d: Vec<Option<i32>> = GUITAR.iter().map(|&f| key((95.7f32 - f).abs())).collect();
    assert_eq!(closest_note(&d), 0);
    assert_eq!(by_cents(330.0), 5);
    assert_eq!(by_cents(170.0), 3);
    assert_eq!(by_cents(165.0), 2);
}

#[test]
fn ties_keep_the_first_note() {
    let d = vec![key(3.0), key(1.0), key(1.0)];
    assert_eq!(closest_note(&d), 1);
    let d = vec![key(1.0), key(1.0)];
    assert_eq!(closest_note(&d), 0);
}

#[test]
fn cents_verdicts() {
    let tol = key(5.0);
    assert_eq!(cents_status(key(0.0), tol), TuningStatus::InTune);
    assert_eq!(cents_status(key(5.0), tol), TuningStatus::InTune);
    assert_eq!(cents_status(key(-5.0), tol), TuningStatus::InTune);
    assert_eq!(cents_status(key(-5.01), tol), TuningStatus::TooLow);
    assert_eq!(cents_status(key(12.0), tol), TuningStatus::TooHigh);
    assert_eq!(cents_status(key(cents(107.0, 110.0)), tol), TuningStatus::TooLow);
    assert_eq!(cents_status(key(cents(113.0, 110.0)), tol), TuningStatus::TooHigh);
    assert_eq!(cents_status(key(cents(110.1, 110.0)), tol), TuningStatus::InTune);
}

#[test]
fn hertz_verdicts() {
    let tol = key(0.5);
    assert_eq!(hertz_status(key(0.0), tol), TuningStatus::InTune);
    assert_eq!(hertz_status(key(0.5), tol), TuningStatus::TooHigh);
    assert_eq!(hertz_status(key(-0.5), tol), TuningStatus::TooLow);
    assert_eq!(hertz_status(key(0.49), tol), TuningStatus::InTune);
    assert_eq!(hertz_status(key(109.0 - 110.0), tol), TuningStatus::TooLow);
    assert_eq!(hertz_status(None, tol), TuningStatus::TooHigh);
}

#[test]
fn frame_layout_is_checked() {
    assert_eq!(check_frame_layout(8192, 2048), Ok(()));
    assert_eq!(check_frame_layout(4096, 4096), Ok(()));
    assert_eq!(check_frame_layout(0, 0), Err(ConfigError::InvalidFrameLayout));
    assert_eq!(check_frame_layout(4096, 0), Err(ConfigError::InvalidFrameLayout));
    assert_eq!(check_frame_layout(1024, 2048), Err(ConfigError::InvalidFrameLayout));
}

#[test]
fn frames_are_windows_at_multiples_of_the_hop() {
    let mut buffer: RollingFrames<u32> = RollingFrames::with_capacity(16);
    for s in 0..21u32 {
        buffer.push(s);
    }
    let mut starts = Vec::new();
    while let Some(frame) = buffer.front_frame(8) {
        assert_eq!(frame.len(), 8);
        for (i, &s) in frame.iter().enumerate() {
            assert_eq!(s, frame[0] + i as u32);
        }
        starts.push(frame[0]);
        buffer.advance(4);
    }
    assert_eq!(starts, vec![0, 4, 8, 12]);
    assert_eq!(buffer.len(), 5);
    buffer.advance(100);
    assert_eq!(buffer.len(), 0);
    assert!(buffer.front_frame(1).is_none());
    assert_eq!(buffer.front_frame(0), Some(vec![]));
}

#[test]
fn calibration_completes_after_the_configured_frames() {
    let mut c = Calibration::new(6);
    for _ in 0..5 {
        assert!(!c.observe());
        assert!(!c.calibrated());
    }
    assert!(c.observe());
    assert!(c.calibrated());
    assert!(!c.observe());
    assert!(c.calibrated());
    let mut zero = Calibration::new(0);
    assert!(!zero.calibrated());
    assert!(zero.observe());
    assert!(zero.calibrated());
}

fn range(channels: u16, format: SampleFormatKind, min_rate: u32, max_rate: u32) -> InputConfigRange {
    InputConfigRange { channels, format, min_rate, max_rate }
}

#[test]
fn input_config_prefers_mono_float_and_close_rate() {
    assert_eq!(select_input_config(&[], 44_100), None);
    let ranges = [
        range(2, SampleFormatKind::F32, 8_000, 96_000),
        range(1, SampleFormatKind::I16, 8_000, 96_000),
        range(1, SampleFormatKind::F32, 48_000, 48_000),
        range(1, SampleFormatKind::F32, 8_000, 22_050),
    ];
    assert_eq!(
        select_input_config(&ranges, 44_100),
        Some(SelectedInput { index: 2, channels: 1, sample_rate: 48_000, format: SampleFormatKind::F32 })
    );
    let ranges = [
        range(2, SampleFormatKind::F32, 44_100, 44_100),
        range(1, SampleFormatKind::Other, 44_100, 44_100),
        range(1, SampleFormatKind::U16, 8_000, 192_000),
    ];
    assert_eq!(
        select_input_config(&ranges, 44_100),
        Some(SelectedInput { index: 2, channels: 1, sample_rate: 44_100, format: SampleFormatKind::U16 })
    );
    // equal scores keep the first range
    let ranges = [range(2, SampleFormatKind::I16, 48_000, 48_000), range(2, SampleFormatKind::I16, 40_200, 40_200)];
    assert_eq!(select_input_config(&ranges, 44_100).map(|s| s.index), Some(0));
    // a target below the range takes its minimum
    let ranges = [range(1, SampleFormatKind::F32, 48_000, 96_000)];
    assert_eq!(select_input_config(&ranges, 44_100).map(|s| s.sample_rate), Some(48_000));
}

#[test]
fn string_labels_and_buttons() {
    assert_eq!(string_info(0).name, "E");
    assert_eq!(string_info(0).note, "Mi grave (E2)");
    assert_eq!(string_info(2).note, "Ré (D3)");
    assert_eq!(string_info(5).note, "Mi aigu (E4)");
    assert_eq!(string_info(6).name, "");
    assert_eq!(string_info(6).note, "");
    assert_eq!(string_button_slot(0), ButtonSlot { side: PegSide::Left, row: 0 });
    assert_eq!(string_button_slot(2), ButtonSlot { side: PegSide::Left, row: 2 });
    assert_eq!(string_button_slot(3), ButtonSlot { side: PegSide::Right, row: 2 });
    assert_eq!(string_button_slot(4), ButtonSlot { side: PegSide::Right, row: 1 });
    assert_eq!(string_button_slot(5), ButtonSlot { side: PegSide::Right, row: 0 });
}

#[test]
fn gauge_follows_selection_and_pitch() {
    assert_eq!(gauge_update(1, true), GaugeUpdate::Measure(1));
    assert_eq!(gauge_update(1, false), GaugeUpdate::Keep);
    assert_eq!(gauge_update(6, true), GaugeUpdate::Reset);
    let tol = key(5.0);
    assert_eq!(gauge_highlight(6, true, key(0.0), tol), GaugeHighlight::Idle);
    assert_eq!(gauge_highlight(2, false, key(0.0), tol), GaugeHighlight::Idle);
    assert_eq!(gauge_highlight(2, true, key(-4.9), tol), GaugeHighlight::InTune);
    assert_eq!(gauge_highlight(2, true, key(5.0), tol), GaugeHighlight::OutOfTune);
}
