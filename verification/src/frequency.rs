//! From a note to its period: the measure of pitch that playback works
//! with, which grows as the pitch falls.

use vstd::prelude::*;
use crate::note::{note_of, XmNote, XmTone, XM_MAX_OCTAVE, XM_TONE_COUNT};

verus! {

/// The tuning in which a period is a table value of the Amiga: a marker,
/// for which no period is defined here.
pub struct Amiga;

/// The tuning in which the period falls by 64 with every semitone.
pub struct Linear;

/// `octave`, held to the octaves that have notes: 1 up to 8.
pub open spec fn clamped_octave(octave: u8) -> int {
    if octave < 1 {
        1
    } else if octave > XM_MAX_OCTAVE {
        XM_MAX_OCTAVE as int
    } else {
        octave as int
    }
}

/// The number of the note of `tone` in `octave`: the tones counted upwards
/// from `C` of octave 1, which is 1; 0 is kept for "no note".
pub open spec fn note_index(tone: XmTone, octave: u8) -> int {
    tone.index() + (clamped_octave(octave) - 1) * 12 + 1
}

/// The period of the note of `tone` in `octave` in linear tuning.
pub open spec fn linear_period(tone: XmTone, octave: u8) -> int {
    7680 - note_index(tone, octave) * 64
}

/// The number of a note of octave 1 to 8 is the byte that stands for the
/// note in a pattern.
pub proof fn lemma_note_index_is_its_byte(tone: XmTone, octave: u8)
    requires
        1 <= octave <= 8,
    ensures
        note_of(note_index(tone, octave) as u8) == Some(XmNote::Note { tone, octave }),
{
}

/// The number of the note of `tone` in `octave`.
pub fn tone_to_raw(tone: &XmTone, octave: u8) -> (r: u8)
    ensures
        r == note_index(*tone, octave),
        1 <= r <= 96,
{
    let tone_raw: u8 = match tone {
        XmTone::C => 0,
        XmTone::CS => 1,
        XmTone::D => 2,
        XmTone::DS => 3,
        XmTone::E => 4,
        XmTone::F => 5,
        XmTone::FS => 6,
        XmTone::G => 7,
        XmTone::GS => 8,
        XmTone::A => 9,
        XmTone::AS => 10,
        XmTone::B => 11,
    };
    let octave: u8 = if octave < 1 {
        1
    } else if octave > XM_MAX_OCTAVE {
        XM_MAX_OCTAVE
    } else {
        octave
    };
    let note: u8 = tone_raw + (octave - 1) * XM_TONE_COUNT;
    // Number 0 stands for "no note"; the notes start at 1.
    note + 1
}

impl Linear {
    /// The period of the note of `tone` in `octave`.
    pub fn period(tone: &XmTone, octave: u8) -> (r: u16)
        ensures
            r == linear_period(*tone, octave),
    {
        let note: u16 = tone_to_raw(tone, octave) as u16;
        7680 - note * 64
    }
}

} // verus!
