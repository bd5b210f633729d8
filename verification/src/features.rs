//! Labels for the musical key and mode of a track.

use vstd::prelude::*;
use vstd::string::*;

verus! {

/// Key index that the service reports when it could not detect a key.
pub const KEY_NOT_DETECTED: i32 = -1;

/// Number of pitch classes in an octave.
pub const PITCH_CLASS_COUNT: i32 = 12;

/// The pitch-class names in ascending order, starting at C.
pub open spec fn pitch_classes() -> Seq<Seq<char>> {
    seq![
        "C"@, "C#"@, "D"@, "D#"@, "E"@, "F"@,
        "F#"@, "G"@, "G#"@, "A"@, "A#"@, "B"@,
    ]
}

/// The label of a key index: the pitch-class name for `0..=11`, and
/// "Not Detected" for `-1`.
pub open spec fn key_name(key_index: int) -> Seq<char> {
    if key_index == -1 {
        "Not Detected"@
    } else {
        pitch_classes()[key_index]
    }
}

/// Whether a key index is one that a label exists for.
pub open spec fn is_key_index(key_index: int) -> bool {
    -1 <= key_index < 12
}

/// The label of a key index in pitch-class notation.
pub fn get_key(key_index: i32) -> (name: String)
    requires
        is_key_index(key_index as int),
    ensures
        name@ == key_name(key_index as int),
{
    let key: &str = if key_index == KEY_NOT_DETECTED {
        "Not Detected"
    } else if key_index == 0 {
        "C"
    } else if key_index == 1 {
        "C#"
    } else if key_index == 2 {
        "D"
    } else if key_index == 3 {
        "D#"
    } else if key_index == 4 {
        "E"
    } else if key_index == 5 {
        "F"
    } else if key_index == 6 {
        "F#"
    } else if key_index == 7 {
        "G"
    } else if key_index == 8 {
        "G#"
    } else if key_index == 9 {
        "A"
    } else if key_index == 10 {
        "A#"
    } else {
        "B"
    };
    String::from_str(key)
}

/// The label of a key index, or `None` where no label exists for it.
pub fn key_label(key_index: i32) -> (label: Option<String>)
    ensures
        is_key_index(key_index as int) ==> label.is_some() && label.unwrap()@ == key_name(
            key_index as int,
        ),
        !is_key_index(key_index as int) ==> label.is_none(),
{
    if KEY_NOT_DETECTED <= key_index && key_index < PITCH_CLASS_COUNT {
        Some(get_key(key_index))
    } else {
        None
    }
}

/// Whether a track is in a major or a minor mode.
#[derive(Clone, Copy, Debug, PartialEq, Eq, Structural)]
pub enum Modality {
    Minor,
    Major,
    NoResult,
}

/// The label of a mode: "Major" for a major mode, "Minor" for anything else.
pub open spec fn mode_name(mode: Modality) -> Seq<char> {
    if mode == Modality::Major {
        "Major"@
    } else {
        "Minor"@
    }
}

/// The label of a mode.
pub fn mode_label(mode: Modality) -> (label: String)
    ensures
        label@ == mode_name(mode),
{
    let text: &str = match mode {
        Modality::Major => "Major",
        _ => "Minor",
    };
    String::from_str(text)
}

/// What the display reads of a track's audio analysis.
#[derive(Clone, Copy, Debug, PartialEq, Eq, Structural)]
pub struct TrackFeatures {
    pub key: i32,
    pub mode: Modality,
    pub time_signature: i32,
}

} // verus!
