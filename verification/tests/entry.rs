use lissajous::controls::{Controls, FollowPlan, LockChange, PlayAction, RatioRequest, VisualRatePreset};
use lissajous::expression::{prepare_expression, prepare_frequency, ratio_mode, ExprError, RatioMode};

fn locked_with(input: &str) -> Controls {
    let mut c = Controls::new();
    c.frequency_input = input.to_string();
    c
}

#[test]
fn expression_is_trimmed_and_operators_made_ascii() {
    assert_eq!(prepare_expression("  220 × 2 "), Ok("220 * 2".to_string()));
    assert_eq!(prepare_expression("440 ÷ 2"), Ok("440 / 2".to_string()));
    assert_eq!(prepare_expression("\u{3000}5\t"), Ok("5".to_string()));
}

#[test]
fn empty_expression_is_refused() {
    assert_eq!(prepare_expression("   "), Err(ExprError::Empty));
    assert_eq!(prepare_expression(""), Err(ExprError::Empty));
    assert_eq!(ExprError::Empty.message(), "empty expression");
    assert_eq!(ExprError::Invalid.message(), "invalid expression");
    assert_eq!(ExprError::OutOfRange.message(), "frequency out of range");
}

#[test]
fn frequency_unit_is_taken_off() {
    assert_eq!(prepare_frequency("1000 Hz"), Ok("1000".to_string()));
    assert_eq!(prepare_frequency(" 440HZ "), Ok("440".to_string()));
    assert_eq!(prepare_frequency("220 * 2 hz"), Ok("220 * 2".to_string()));
    assert_eq!(prepare_frequency("220"), Ok("220".to_string()));
    assert_eq!(prepare_frequency(" Hz "), Err(ExprError::Empty));
    assert_eq!(prepare_frequency("1hzhz"), Ok("1hz".to_string()));
}

#[test]
fn ratio_mode_follows_the_unit() {
    assert_eq!(ratio_mode("1", "2"), RatioMode::Ratio);
    assert_eq!(ratio_mode("220 Hz", "440"), RatioMode::Frequencies);
    assert_eq!(ratio_mode("220", "440 hZ"), RatioMode::Frequencies);
    assert_eq!(ratio_mode("h z", "2"), RatioMode::Ratio);
}

#[test]
fn start_settings() {
    let c = Controls::new();
    assert!(c.lock_frequency);
    assert_eq!(c.frequency_input, "1:1");
    assert!(c.parsed_ok);
    assert!(!c.playing);
    assert_eq!(c.visual_rate_preset, VisualRatePreset::Normal);
    assert!(!c.volume_presets_expanded);
    assert!(!c.note_presets_expanded);
    assert_eq!(c.audio_error, None);
}

#[test]
fn ratio_entries_are_read_as_ratios() {
    let mut c = locked_with("1:2");
    assert_eq!(c.recompute_ratio(), RatioRequest::Ratio { left: "1".to_string(), right: "2".to_string() });
    assert!(c.parsed_ok);
    let mut c = locked_with(" 2 : 3 ");
    assert_eq!(c.recompute_ratio(), RatioRequest::Ratio { left: "2".to_string(), right: "3".to_string() });
    let mut c = locked_with("1:(2+1)");
    assert_eq!(
        c.recompute_ratio(),
        RatioRequest::Ratio { left: "1".to_string(), right: "(2+1)".to_string() }
    );
    let mut c = locked_with("1:2:3");
    assert_eq!(c.recompute_ratio(), RatioRequest::Ratio { left: "1".to_string(), right: "2:3".to_string() });
}

#[test]
fn hertz_entries_are_read_as_frequencies() {
    let mut c = locked_with("220 Hz:440 Hz");
    assert_eq!(
        c.recompute_ratio(),
        RatioRequest::Frequencies { left: "220".to_string(), right: "440".to_string() }
    );
    let mut c = locked_with("220hz:660");
    assert_eq!(
        c.recompute_ratio(),
        RatioRequest::Frequencies { left: "220".to_string(), right: "660".to_string() }
    );
}

#[test]
fn malformed_entries_are_refused() {
    for input in ["", "   ", "12", ":2", "1:", "hz:1"] {
        let mut c = locked_with(input);
        assert_eq!(c.recompute_ratio(), RatioRequest::Rejected, "input {:?}", input);
        assert!(!c.parsed_ok);
        assert_eq!(c.frequency_input, input);
    }
}

#[test]
fn unlocked_entry_is_ignored() {
    let mut c = locked_with("garbage");
    c.lock_frequency = false;
    c.parsed_ok = true;
    assert_eq!(c.recompute_ratio(), RatioRequest::Ignored);
    assert!(c.parsed_ok);
}

#[test]
fn follow_plan_under_the_lock() {
    assert_eq!(
        locked_with("1:2").follow_plan(),
        FollowPlan::Scale { left: "1".to_string(), right: "2".to_string() }
    );
    assert_eq!(locked_with("abc").follow_plan(), FollowPlan::SameAsX);
    assert_eq!(locked_with("").follow_plan(), FollowPlan::SameAsX);
    assert_eq!(locked_with("1: ").follow_plan(), FollowPlan::Keep);
    assert_eq!(
        locked_with("220 Hz:440").follow_plan(),
        FollowPlan::Scale { left: "220 Hz".to_string(), right: "440".to_string() }
    );
    let mut c = locked_with("1:2");
    c.lock_frequency = false;
    assert_eq!(c.follow_plan(), FollowPlan::Keep);
}

#[test]
fn accepted_ratio_is_shown_and_reads_back() {
    let mut c = locked_with("1:bad");
    c.parsed_ok = false;
    assert!(!c.accept_entry("2.5"));
    assert_eq!(c.frequency_input, "1:2.5");
    assert!(c.parsed_ok);
    assert_eq!(c.recompute_ratio(), RatioRequest::Ratio { left: "1".to_string(), right: "2.5".to_string() });
    assert_eq!(c.follow_plan(), FollowPlan::Scale { left: "1".to_string(), right: "2.5".to_string() });
}

#[test]
fn shown_ratio_keeps_validity_and_asks_restart_while_playing() {
    let mut c = Controls::new();
    c.parsed_ok = false;
    c.playing = true;
    assert!(c.show_ratio("3"));
    assert_eq!(c.frequency_input, "1:3");
    assert!(!c.parsed_ok);
    c.reject_entry();
    assert!(!c.parsed_ok);
}

#[test]
fn engaging_the_lock_resets_to_one_to_one() {
    let mut c = locked_with("2:3");
    c.parsed_ok = false;
    assert_eq!(c.set_frequency_lock(false), LockChange::Released);
    assert!(!c.lock_frequency);
    assert_eq!(c.frequency_input, "2:3");
    assert!(!c.parsed_ok);
    c.playing = true;
    assert_eq!(c.set_frequency_lock(true), LockChange::Engaged { restart_audio: true });
    assert!(c.lock_frequency);
    assert_eq!(c.frequency_input, "1:1");
    assert!(c.parsed_ok);
    assert_eq!(c.follow_plan(), FollowPlan::Scale { left: "1".to_string(), right: "1".to_string() });
}

#[test]
fn play_toggles_back_and_forth() {
    let mut c = Controls::new();
    assert_eq!(c.toggle_play(), PlayAction::Start);
    assert!(c.playing);
    assert_eq!(c.toggle_play(), PlayAction::Stop);
    assert!(!c.playing);
}

#[test]
fn audio_errors_are_recorded() {
    let mut c = Controls::new();
    c.record_audio_init(Ok(()));
    assert_eq!(c.audio_error, None);
    c.record_audio_init(Err("no device"));
    assert_eq!(c.audio_error.as_deref(), Some("Audio output unavailable: no device"));
    c.record_restart(None);
    assert_eq!(c.audio_error.as_deref(), Some("Audio: audio output is unavailable"));
    c.record_restart(Some(Err("stream closed")));
    assert_eq!(c.audio_error.as_deref(), Some("Audio: stream closed"));
    c.record_restart(Some(Ok(())));
    assert_eq!(c.audio_error, None);
}

#[test]
fn visual_rate_presets() {
    let mut c = Controls::new();
    assert_eq!(c.apply_visual_rate_preset(VisualRatePreset::VerySlow), 10);
    assert_eq!(c.visual_rate_preset, VisualRatePreset::VerySlow);
    assert_eq!(c.apply_visual_rate_preset(VisualRatePreset::Slow), 50);
    assert_eq!(VisualRatePreset::Normal.cycles_per_second_hundredths(), 100);
}

#[test]
fn prepared_expression_is_stable() {
    for input in ["  220 × 2 ", "\t1 ÷ 3\n", "(2+1)", " 7 "] {
        let once = prepare_expression(input).unwrap();
        assert_eq!(prepare_expression(&once), Ok(once.clone()));
    }
}

#[test]
fn hertz_is_recognized_in_any_case() {
    for unit in ["hz", "Hz", "hZ", "HZ"] {
        let side = format!("440 {}", unit);
        assert_eq!(ratio_mode(&side, "1"), RatioMode::Frequencies);
        assert_eq!(ratio_mode(&side.to_ascii_lowercase(), "1"), RatioMode::Frequencies);
    }
}

#[test]
fn frequency_text_is_trimmed_once_and_for_all() {
    let once = prepare_frequency("  \u{a0}880 hz \u{2003} ").unwrap();
    assert_eq!(once, "880");
    assert_eq!(prepare_expression(&once), Ok(once.clone()));
}
