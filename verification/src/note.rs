//! Notes: a tone and an octave, or one of the two special values.

use vstd::prelude::*;
use vstd::string::*;
use crate::bytes::{agrees, avail, Decoded, end_error, Outcome, read_u8};
use crate::digits::{decimal, push_decimal};
use crate::error::{error_at, XmError, XmErrorKind};

verus! {

/// The values of a note byte, in the order of their numbers: `NoNote` is 0,
/// `C1` is 1, `B8` is 96 and `NoteOff` is 97.
#[derive(Clone, Copy, Debug, PartialEq, Eq, Structural)]
pub enum XmNoteRaw {
    NoNote, C1, CS1, D1, DS1, E1,
    F1, FS1, G1, GS1, A1, AS1,
    B1, C2, CS2, D2, DS2, E2,
    F2, FS2, G2, GS2, A2, AS2,
    B2, C3, CS3, D3, DS3, E3,
    F3, FS3, G3, GS3, A3, AS3,
    B3, C4, CS4, D4, DS4, E4,
    F4, FS4, G4, GS4, A4, AS4,
    B4, C5, CS5, D5, DS5, E5,
    F5, FS5, G5, GS5, A5, AS5,
    B5, C6, CS6, D6, DS6, E6,
    F6, FS6, G6, GS6, A6, AS6,
    B6, C7, CS7, D7, DS7, E7,
    F7, FS7, G7, GS7, A7, AS7,
    B7, C8, CS8, D8, DS8, E8,
    F8, FS8, G8, GS8, A8, AS8,
    B8, NoteOff,
}

/// The number of tones in an octave.
pub const XM_TONE_COUNT: u8 = 12;

/// The highest octave index (counted from zero) that a note byte may encode.
pub const XM_MAX_OCTAVE: u8 = 8;

/// The note byte that stands for "no note".
pub const XM_NO_NOTE: u8 = 0;

/// The note byte that stands for "note off".
pub const XM_NOTE_OFF: u8 = 97;

#[derive(Clone, Copy, Debug, PartialEq, Eq, Structural)]
pub enum XmTone {
    C,
    CS,
    D,
    DS,
    E,
    F,
    FS,
    G,
    GS,
    A,
    AS,
    B,
}

#[derive(Clone, Copy, Debug, PartialEq, Eq, Structural)]
pub enum XmNote {
    Note { tone: XmTone, octave: u8 },
    NoNote,
    NoteOff,
}

impl XmTone {
    /// The place of the tone in its octave, `C` being 0 and `B` 11.
    pub open spec fn index(self) -> int {
        match self {
            XmTone::C => 0,
            XmTone::CS => 1,
            XmTone::D => 2,
            XmTone::DS => 3,
            XmTone::E => 4,
            XmTone::F => 5,
            XmTone::FS => 6,
            XmTone::G => 7,
            XmTone::GS => 8,
            XmTone::A => 9,
            XmTone::AS => 10,
            XmTone::B => 11,
        }
    }
}

/// The tone at place `i` of an octave.
pub open spec fn tone_of(i: int) -> XmTone {
    if i == 0 {
        XmTone::C
    } else if i == 1 {
        XmTone::CS
    } else if i == 2 {
        XmTone::D
    } else if i == 3 {
        XmTone::DS
    } else if i == 4 {
        XmTone::E
    } else if i == 5 {
        XmTone::F
    } else if i == 6 {
        XmTone::FS
    } else if i == 7 {
        XmTone::G
    } else if i == 8 {
        XmTone::GS
    } else if i == 9 {
        XmTone::A
    } else if i == 10 {
        XmTone::AS
    } else {
        XmTone::B
    }
}

/// The note that the byte `value` encodes; `None` where it encodes none.
/// Bytes from 1 on count tones upwards from `C` of octave 1, twelve to the
/// octave.
pub open spec fn note_of(value: u8) -> Option<XmNote> {
    if value == XM_NOTE_OFF {
        Some(XmNote::NoteOff)
    } else if value == XM_NO_NOTE {
        Some(XmNote::NoNote)
    } else if (value - 1) / 12 > XM_MAX_OCTAVE {
        None
    } else {
        Some(XmNote::Note { tone: tone_of((value - 1) % 12), octave: ((value - 1) / 12 + 1) as u8 })
    }
}

/// What decoding the note at `pos` gives. A byte that encodes no note is
/// reported at the position behind it.
pub open spec fn note_at(s: Seq<u8>, pos: int) -> Outcome<XmNote> {
    if avail(s, pos) < 1 {
        Err(end_error(pos))
    } else {
        match note_of(s[pos]) {
            Some(note) => Ok((note, pos + 1)),
            None => Err(error_at(XmErrorKind::Note, pos + 1)),
        }
    }
}

/// The tone at place `i` of an octave.
pub fn tone_from_index(i: u8) -> (tone: XmTone)
    requires
        i < 12,
    ensures
        tone == tone_of(i as int),
        tone.index() == i,
{
    match i {
        0 => XmTone::C,
        1 => XmTone::CS,
        2 => XmTone::D,
        3 => XmTone::DS,
        4 => XmTone::E,
        5 => XmTone::F,
        6 => XmTone::FS,
        7 => XmTone::G,
        8 => XmTone::GS,
        9 => XmTone::A,
        10 => XmTone::AS,
        _ => XmTone::B,
    }
}

/// Decodes the byte `value` of a note.
pub fn note_from_byte(value: u8) -> (r: Option<XmNote>)
    ensures
        r == note_of(value),
{
    if value == XM_NOTE_OFF {
        return Some(XmNote::NoteOff);
    }
    if value == XM_NO_NOTE {
        return Some(XmNote::NoNote);
    }
    let value: u8 = value - 1;
    let octave: u8 = value / XM_TONE_COUNT;
    if octave > XM_MAX_OCTAVE {
        return None;
    }
    let tone = tone_from_index(value - octave * XM_TONE_COUNT);
    Some(XmNote::Note { tone, octave: octave + 1 })
}

/// Decodes the note at `pos`.
pub fn parse_xm_note_at(data: &[u8], pos: usize) -> (r: Decoded<XmNote>)
    requires
        pos <= data@.len(),
    ensures
        agrees(r, note_at(data@, pos as int)),
{
    let (value, p) = read_u8(data, pos)?;
    match note_from_byte(value) {
        Some(note) => Ok((note, p)),
        None => Err(XmError { kind: XmErrorKind::Note, offset: p }),
    }
}

/// Decodes the note at the start of `input`, and returns it with the rest
/// of the input.
pub fn parse_xm_note<'a>(input: &'a [u8]) -> (r: Result<(&'a [u8], XmNote), XmError>)
    ensures
        match note_at(input@, 0) {
            Ok((note, end)) => r matches Ok((rest, n)) && n == note && rest@ == input@.subrange(
                end,
                input@.len() as int,
            ),
            Err(e) => r == Err::<(&[u8], XmNote), XmError>(e),
        },
{
    let (note, p) = parse_xm_note_at(input, 0)?;
    Ok((&input[p..input.len()], note))
}

impl XmTone {
    /// The name of the tone, two characters wide.
    pub open spec fn text(&self) -> Seq<char> {
        match self {
            XmTone::C => "C-"@,
            XmTone::CS => "C#"@,
            XmTone::D => "D-"@,
            XmTone::DS => "D#"@,
            XmTone::E => "E-"@,
            XmTone::F => "F-"@,
            XmTone::FS => "F#"@,
            XmTone::G => "G-"@,
            XmTone::GS => "G#"@,
            XmTone::A => "A-"@,
            XmTone::AS => "A#"@,
            XmTone::B => "B-"@,
        }
    }

    /// The name of the tone, two characters wide.
    pub fn to_text(&self) -> (r: String)
        ensures
            r@ == self.text(),
    {
        String::from_str(
            match self {
                XmTone::C => "C-",
                XmTone::CS => "C#",
                XmTone::D => "D-",
                XmTone::DS => "D#",
                XmTone::E => "E-",
                XmTone::F => "F-",
                XmTone::FS => "F#",
                XmTone::G => "G-",
                XmTone::GS => "G#",
                XmTone::A => "A-",
                XmTone::AS => "A#",
                XmTone::B => "B-",
            },
        )
    }
}

impl XmNote {
    /// The note as a tracker shows it: the tone and the octave, dots for no
    /// note, a bar for note off.
    pub open spec fn text(&self) -> Seq<char> {
        match self {
            XmNote::NoNote => "..."@,
            XmNote::NoteOff => "== "@,
            XmNote::Note { tone, octave } => tone.text() + decimal(*octave),
        }
    }

    /// The note as a tracker shows it.
    pub fn to_text(&self) -> (r: String)
        ensures
            r@ == self.text(),
    {
        match self {
            XmNote::NoNote => String::from_str("..."),
            XmNote::NoteOff => String::from_str("== "),
            XmNote::Note { tone, octave } => {
                let mut out = tone.to_text();
                push_decimal(&mut out, *octave);
                out
            },
        }
    }
}

} // verus!
