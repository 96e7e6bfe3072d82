//! The preset tables of the player.

use vstd::prelude::*;

verus! {

/// The semitones above Do of the note presets, in order.
pub open spec fn note_semitones(i: int) -> Option<u32> {
    if i == 0 {
        Some(0)
    } else if i == 1 {
        Some(2)
    } else if i == 2 {
        Some(4)
    } else if i == 3 {
        Some(5)
    } else if i == 4 {
        Some(7)
    } else if i == 5 {
        Some(9)
    } else if i == 6 {
        Some(11)
    } else if i == 7 {
        Some(12)
    } else {
        None
    }
}

/// The names of the note presets, in order.
pub open spec fn note_name(i: int) -> Seq<char> {
    if i == 0 {
        "Do"@
    } else if i == 1 {
        "Re"@
    } else if i == 2 {
        "Mi"@
    } else if i == 3 {
        "Fa"@
    } else if i == 4 {
        "Sol"@
    } else if i == 5 {
        "La"@
    } else if i == 6 {
        "Ti"@
    } else {
        "Do'"@
    }
}

/// The number of note presets.
pub const NOTE_PRESET_COUNT: usize = 8;

/// The note preset at `index`: its name and its semitones above Do.
pub fn note_preset(index: usize) -> (p: Option<(&'static str, u32)>)
    ensures
        p is Some <==> index < NOTE_PRESET_COUNT,
        p matches Some((name, semitones)) ==> name@ == note_name(index as int) && Some(semitones)
            == note_semitones(index as int),
{
    if index == 0 {
        Some(("Do", 0))
    } else if index == 1 {
        Some(("Re", 2))
    } else if index == 2 {
        Some(("Mi", 4))
    } else if index == 3 {
        Some(("Fa", 5))
    } else if index == 4 {
        Some(("Sol", 7))
    } else if index == 5 {
        Some(("La", 9))
    } else if index == 6 {
        Some(("Ti", 11))
    } else if index == 7 {
        Some(("Do'", 12))
    } else {
        None
    }
}

/// The volume presets, in percent, in order.
pub open spec fn volume_percent(i: int) -> Option<u32> {
    if 0 <= i < 5 {
        Some((25 * i) as u32)
    } else {
        None
    }
}

/// The number of volume presets.
pub const VOLUME_PRESET_COUNT: usize = 5;

/// The volume preset at `index`, in percent: 0, 25, 50, 75 and 100.
pub fn volume_preset_percent(index: usize) -> (p: Option<u32>)
    ensures
        p == volume_percent(index as int),
{
    if index < VOLUME_PRESET_COUNT {
        Some(25 * (index as u32))
    } else {
        None
    }
}

} // verus!
