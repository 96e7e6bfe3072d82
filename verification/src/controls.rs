//! The player's settings apart from its numbers, and how each user action
//! changes them. Where an action needs arithmetic on frequencies, the
//! transition says what to evaluate and the caller reports back.

use vstd::prelude::*;
use vstd::string::*;
use crate::expression::{
    expression_text, frequency_chars, frequency_text, mode_of_chars, prepare_chars,
    spec_ratio_mode, RatioMode,
};
use crate::text::{chars_of, split_once, split_once_chars, string_from_chars, trim, trim_chars};

verus! {

/// The preset speeds of the animated point.
#[derive(Clone, Copy, Debug, PartialEq, Eq, Structural)]
pub enum VisualRatePreset {
    VerySlow,
    Slow,
    Normal,
}

impl VisualRatePreset {
    /// Cycles per second of the preset, in hundredths.
    pub open spec fn spec_hundredths(self) -> u32 {
        match self {
            VisualRatePreset::VerySlow => 10,
            VisualRatePreset::Slow => 50,
            VisualRatePreset::Normal => 100,
        }
    }

    /// Cycles per second of the preset, in hundredths: 0.10, 0.50 and 1.00.
    pub fn cycles_per_second_hundredths(&self) -> (h: u32)
        ensures
            h == self.spec_hundredths(),
    {
        match self {
            VisualRatePreset::VerySlow => 10,
            VisualRatePreset::Slow => 50,
            VisualRatePreset::Normal => 100,
        }
    }
}

/// What an `X:Y` entry asks for, as text.
pub enum EntryReading {
    /// The lock is off: the entry is not read.
    Ignored,
    /// The entry is refused without evaluating anything.
    Rejected,
    /// Both sides are frequencies in Hz, to be evaluated.
    Frequencies(Seq<char>, Seq<char>),
    /// Both sides are terms of the ratio X:Y, to be evaluated.
    Ratio(Seq<char>, Seq<char>),
}

/// How the entry `input` is read while the lock is `locked`: trimmed, cut at
/// its first `:`, each side prepared for the evaluator.
pub open spec fn read_entry(locked: bool, input: Seq<char>) -> EntryReading {
    if !locked {
        EntryReading::Ignored
    } else {
        match split_once(trim(input), ':') {
            None => EntryReading::Rejected,
            Some((l, r)) => match spec_ratio_mode(l, r) {
                RatioMode::Frequencies => match (
                    expression_text(frequency_text(l)),
                    expression_text(frequency_text(r)),
                ) {
                    (Some(a), Some(b)) => EntryReading::Frequencies(a, b),
                    _ => EntryReading::Rejected,
                },
                RatioMode::Ratio => match (expression_text(l), expression_text(r)) {
                    (Some(a), Some(b)) => EntryReading::Ratio(a, b),
                    _ => EntryReading::Rejected,
                },
            },
        }
    }
}

/// What the caller has to do after the `X:Y` entry changed.
#[derive(Clone, Debug, PartialEq, Eq)]
pub enum RatioRequest {
    /// Nothing: the lock is off.
    Ignored,
    /// Nothing more: the entry was marked invalid.
    Rejected,
    /// Evaluate both sides as frequencies in Hz; if both are in range they
    /// become X and Y, and the entry is accepted, else rejected.
    Frequencies { left: String, right: String },
    /// Evaluate both sides; if both are finite and positive and Y = X · right / left
    /// is in range, Y takes that value and the entry is accepted, else rejected.
    Ratio { left: String, right: String },
}

impl View for RatioRequest {
    type V = EntryReading;

    open spec fn view(&self) -> EntryReading {
        match self {
            RatioRequest::Ignored => EntryReading::Ignored,
            RatioRequest::Rejected => EntryReading::Rejected,
            RatioRequest::Frequencies { left, right } => EntryReading::Frequencies(left@, right@),
            RatioRequest::Ratio { left, right } => EntryReading::Ratio(left@, right@),
        }
    }
}

/// What Y does when X is set, as text.
pub enum FollowReading {
    /// Y keeps its value.
    Keep,
    /// Y takes the value of X.
    SameAsX,
    /// Y becomes X · right / left, if both terms evaluate to finite positive
    /// numbers and the result is in range.
    Scale(Seq<char>, Seq<char>),
}

/// What Y does when X is set, given the lock and the entry.
pub open spec fn read_follow(locked: bool, input: Seq<char>) -> FollowReading {
    if !locked {
        FollowReading::Keep
    } else {
        match split_once(trim(input), ':') {
            None => FollowReading::SameAsX,
            Some((l, r)) => match (expression_text(l), expression_text(r)) {
                (Some(a), Some(b)) => FollowReading::Scale(a, b),
                _ => FollowReading::Keep,
            },
        }
    }
}

/// What Y does when X is set.
#[derive(Clone, Debug, PartialEq, Eq)]
pub enum FollowPlan {
    Keep,
    SameAsX,
    Scale { left: String, right: String },
}

impl View for FollowPlan {
    type V = FollowReading;

    open spec fn view(&self) -> FollowReading {
        match self {
            FollowPlan::Keep => FollowReading::Keep,
            FollowPlan::SameAsX => FollowReading::SameAsX,
            FollowPlan::Scale { left, right } => FollowReading::Scale(left@, right@),
        }
    }
}

/// What the caller has to do after the lock was set.
#[derive(Clone, Copy, Debug, PartialEq, Eq, Structural)]
pub enum LockChange {
    /// Lock released: X and Y stay as they are.
    Released,
    /// Lock engaged: Y takes the value of X, a/b is synchronized, and audio
    /// restarts where `restart_audio` holds.
    Engaged { restart_audio: bool },
}

/// What the caller has to do after play was toggled.
#[derive(Clone, Copy, Debug, PartialEq, Eq, Structural)]
pub enum PlayAction {
    /// Reset the animation and start the X + Y mix.
    Start,
    /// Stop the mix.
    Stop,
}

/// The entry text that shows the ratio `1:ratio`.
pub open spec fn ratio_entry(ratio: Seq<char>) -> Seq<char> {
    seq!['1', ':'] + ratio
}

/// The settings of the player that are not numbers.
#[derive(Clone, Debug)]
pub struct Controls {
    /// Y follows X through the `X:Y` entry.
    pub lock_frequency: bool,
    /// The `X:Y` entry as typed or as last shown.
    pub frequency_input: String,
    /// The last entry was read without error.
    pub parsed_ok: bool,
    /// The X + Y mix is playing.
    pub playing: bool,
    /// The selected speed preset of the animated point.
    pub visual_rate_preset: VisualRatePreset,
    /// The volume presets are shown.
    pub volume_presets_expanded: bool,
    /// The note presets are shown.
    pub note_presets_expanded: bool,
    /// The last audio failure, as shown to the user.
    pub audio_error: Option<String>,
}

impl Controls {
    /// The same settings with the entry marked invalid where `reading` refused it.
    pub open spec fn after_entry(self, reading: EntryReading) -> Controls {
        if reading is Rejected {
            Controls { parsed_ok: false, ..self }
        } else {
            self
        }
    }

    /// The same settings with play toggled.
    pub open spec fn after_toggle(self) -> Controls {
        Controls { playing: !self.playing, ..self }
    }

    /// `self` and `other` agree on everything but the entry and its validity.
    pub open spec fn same_but_entry(self, other: Controls) -> bool {
        &&& self.lock_frequency == other.lock_frequency
        &&& self.playing == other.playing
        &&& self.visual_rate_preset == other.visual_rate_preset
        &&& self.volume_presets_expanded == other.volume_presets_expanded
        &&& self.note_presets_expanded == other.note_presets_expanded
        &&& self.audio_error == other.audio_error
    }

    /// `self` and `other` agree on everything but the audio error.
    pub open spec fn same_but_audio_error(self, other: Controls) -> bool {
        &&& self.lock_frequency == other.lock_frequency
        &&& self.frequency_input == other.frequency_input
        &&& self.parsed_ok == other.parsed_ok
        &&& self.playing == other.playing
        &&& self.visual_rate_preset == other.visual_rate_preset
        &&& self.volume_presets_expanded == other.volume_presets_expanded
        &&& self.note_presets_expanded == other.note_presets_expanded
    }

    /// The settings at start: locked at 1:1, silent, normal speed.
    pub fn new() -> (c: Controls)
        ensures
            c.lock_frequency,
            c.frequency_input@ == ratio_entry(seq!['1']),
            c.parsed_ok,
            !c.playing,
            c.visual_rate_preset == VisualRatePreset::Normal,
            !c.volume_presets_expanded,
            !c.note_presets_expanded,
            c.audio_error is None,
    {
        let input = String::from_str("1:1");
        proof {
            reveal_strlit("1:1");
            assert(input@ =~= ratio_entry(seq!['1']));
        }
        Controls {
            lock_frequency: true,
            frequency_input: input,
            parsed_ok: true,
            playing: false,
            visual_rate_preset: VisualRatePreset::Normal,
            volume_presets_expanded: false,
            note_presets_expanded: false,
            audio_error: None,
        }
    }

    /// Reads the `X:Y` entry after it changed. Where the lock is off nothing
    /// happens; where the entry is refused it is marked invalid; else the
    /// request names the two texts to evaluate.
    pub fn recompute_ratio(&mut self) -> (r: RatioRequest)
        ensures
            r@ == read_entry(old(self).lock_frequency, old(self).frequency_input@),
            *final(self) == old(self).after_entry(r@),
    {
        if !self.lock_frequency {
            return RatioRequest::Ignored;
        }
        let v = chars_of(self.frequency_input.as_str());
        let t = trim_chars(&v);
        match split_once_chars(&t, ':') {
            None => {
                self.parsed_ok = false;
                RatioRequest::Rejected
            },
            Some((l, r)) => {
                match mode_of_chars(&l, &r) {
                    RatioMode::Frequencies => {
                        let fl = frequency_chars(&l);
                        let fr = frequency_chars(&r);
                        match (prepare_chars(&fl), prepare_chars(&fr)) {
                            (Some(a), Some(b)) => RatioRequest::Frequencies {
                                left: string_from_chars(&a),
                                right: string_from_chars(&b),
                            },
                            _ => {
                                self.parsed_ok = false;
                                RatioRequest::Rejected
                            },
                        }
                    },
                    RatioMode::Ratio => {
                        match (prepare_chars(&l), prepare_chars(&r)) {
                            (Some(a), Some(b)) => RatioRequest::Ratio {
                                left: string_from_chars(&a),
                                right: string_from_chars(&b),
                            },
                            _ => {
                                self.parsed_ok = false;
                                RatioRequest::Rejected
                            },
                        }
                    },
                }
            },
        }
    }

    /// What Y does when X is set: under the lock, Y follows the entry.
    pub fn follow_plan(&self) -> (p: FollowPlan)
        ensures
            p@ == read_follow(self.lock_frequency, self.frequency_input@),
    {
        if !self.lock_frequency {
            return FollowPlan::Keep;
        }
        let v = chars_of(self.frequency_input.as_str());
        let t = trim_chars(&v);
        match split_once_chars(&t, ':') {
            None => FollowPlan::SameAsX,
            Some((l, r)) => match (prepare_chars(&l), prepare_chars(&r)) {
                (Some(a), Some(b)) => FollowPlan::Scale {
                    left: string_from_chars(&a),
                    right: string_from_chars(&b),
                },
                _ => FollowPlan::Keep,
            },
        }
    }

    /// Shows the frequencies' ratio in the entry as `1:ratio`, where `ratio` is
    /// Y/X as text. Returns whether the audio is to be restarted.
    pub fn show_ratio(&mut self, ratio: &str) -> (restart: bool)
        ensures
            final(self).frequency_input@ == ratio_entry(ratio@),
            final(self).parsed_ok == old(self).parsed_ok,
            final(self).same_but_entry(*old(self)),
            restart == old(self).playing,
    {
        let mut entry = String::from_str("1:");
        proof {
            reveal_strlit("1:");
        }
        entry.append(ratio);
        self.frequency_input = entry;
        self.playing
    }

    /// Accepts the evaluated entry and shows the resulting ratio `1:ratio`.
    /// Returns whether the audio is to be restarted.
    pub fn accept_entry(&mut self, ratio: &str) -> (restart: bool)
        ensures
            final(self).frequency_input@ == ratio_entry(ratio@),
            final(self).parsed_ok,
            final(self).same_but_entry(*old(self)),
            restart == old(self).playing,
    {
        self.parsed_ok = true;
        self.show_ratio(ratio)
    }

    /// Marks the entry invalid after its evaluation failed.
    pub fn reject_entry(&mut self)
        ensures
            *final(self) == (Controls { parsed_ok: false, ..*old(self) }),
    {
        self.parsed_ok = false;
    }

    /// Sets the lock. Engaging it resets the entry to `1:1` and marks it valid.
    pub fn set_frequency_lock(&mut self, locked: bool) -> (c: LockChange)
        ensures
            final(self).lock_frequency == locked,
            final(self).playing == old(self).playing,
            final(self).visual_rate_preset == old(self).visual_rate_preset,
            final(self).volume_presets_expanded == old(self).volume_presets_expanded,
            final(self).note_presets_expanded == old(self).note_presets_expanded,
            final(self).audio_error == old(self).audio_error,
            locked ==> final(self).frequency_input@ == ratio_entry(seq!['1']),
            locked ==> final(self).parsed_ok,
            locked ==> c == (LockChange::Engaged { restart_audio: old(self).playing }),
            !locked ==> final(self).frequency_input == old(self).frequency_input,
            !locked ==> final(self).parsed_ok == old(self).parsed_ok,
            !locked ==> c == LockChange::Released,
    {
        self.lock_frequency = locked;
        if locked {
            let input = String::from_str("1:1");
            proof {
                reveal_strlit("1:1");
                assert(input@ =~= ratio_entry(seq!['1']));
            }
            self.frequency_input = input;
            self.parsed_ok = true;
            LockChange::Engaged { restart_audio: self.playing }
        } else {
            LockChange::Released
        }
    }

    /// Toggles play; starting resets the animation and restarts the mix.
    pub fn toggle_play(&mut self) -> (a: PlayAction)
        ensures
            *final(self) == old(self).after_toggle(),
            a == (if final(self).playing { PlayAction::Start } else { PlayAction::Stop }),
    {
        self.playing = !self.playing;
        if self.playing {
            PlayAction::Start
        } else {
            PlayAction::Stop
        }
    }

    /// Selects a speed preset; returns its speed in hundredths of a cycle per second.
    pub fn apply_visual_rate_preset(&mut self, preset: VisualRatePreset) -> (h: u32)
        ensures
            *final(self) == (Controls { visual_rate_preset: preset, ..*old(self) }),
            h == preset.spec_hundredths(),
    {
        self.visual_rate_preset = preset;
        preset.cycles_per_second_hundredths()
    }

    /// Records the outcome of opening the audio output at start.
    pub fn record_audio_init(&mut self, outcome: Result<(), &str>)
        ensures
            final(self).same_but_audio_error(*old(self)),
            outcome is Ok ==> final(self).audio_error == old(self).audio_error,
            outcome matches Err(e) ==> (final(self).audio_error matches Some(m) && m@
                == "Audio output unavailable: "@ + e@),
    {
        if let Err(e) = outcome {
            let mut m = String::from_str("Audio output unavailable: ");
            m.append(e);
            self.audio_error = Some(m);
        }
    }

    /// Records the outcome of (re)starting the mix: `None` where there is no
    /// audio output, else what playing returned.
    pub fn record_restart(&mut self, outcome: Option<Result<(), &str>>)
        ensures
            final(self).same_but_audio_error(*old(self)),
            outcome is None ==> (final(self).audio_error matches Some(m) && m@ == "Audio: "@
                + "audio output is unavailable"@),
            outcome matches Some(Ok(_)) ==> final(self).audio_error is None,
            outcome matches Some(Err(e)) ==> (final(self).audio_error matches Some(m) && m@
                == "Audio: "@ + e@),
    {
        match outcome {
            Some(Ok(())) => {
                self.audio_error = None;
            },
            Some(Err(e)) => {
                let mut m = String::from_str("Audio: ");
                m.append(e);
                self.audio_error = Some(m);
            },
            None => {
                let mut m = String::from_str("Audio: ");
                m.append("audio output is unavailable");
                self.audio_error = Some(m);
            },
        }
    }
}

} // verus!
