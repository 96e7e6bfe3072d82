use lissajous::presets::{note_preset, volume_preset_percent, NOTE_PRESET_COUNT, VOLUME_PRESET_COUNT};
use lissajous::text::trim_fraction_zeros;

#[test]
fn note_presets_span_one_octave() {
    let expected = [("Do", 0), ("Re", 2), ("Mi", 4), ("Fa", 5), ("Sol", 7), ("La", 9), ("Ti", 11), ("Do'", 12)];
    assert_eq!(NOTE_PRESET_COUNT, expected.len());
    for (i, e) in expected.iter().enumerate() {
        assert_eq!(note_preset(i), Some(*e));
    }
    assert_eq!(note_preset(8), None);
}

#[test]
fn volume_presets_in_percent() {
    let got: Vec<Option<u32>> = (0..VOLUME_PRESET_COUNT + 1).map(volume_preset_percent).collect();
    assert_eq!(got, vec![Some(0), Some(25), Some(50), Some(75), Some(100), None]);
}

#[test]
fn fraction_zeros_are_dropped() {
    assert_eq!(trim_fraction_zeros("2.500000"), "2.5");
    assert_eq!(trim_fraction_zeros("3.000000"), "3");
    assert_eq!(trim_fraction_zeros("10.000000"), "10");
    assert_eq!(trim_fraction_zeros("0.333333"), "0.333333");
    assert_eq!(trim_fraction_zeros("0.997732"), "0.997732");
}

#[test]
fn trimmed_fraction_never_ends_with_a_point() {
    for text in ["5.", "5..", "5.000", "0.000000", "12.340000"] {
        assert!(!trim_fraction_zeros(text).ends_with('.'), "text {:?}", text);
    }
}
