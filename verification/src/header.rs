//! The module header: names, counts and default timing.

use vstd::prelude::*;
use crate::bytes::{
    avail, Decoded, end_error, le_u16_at, le_u32_at, Outcome, read_le_u16, read_le_u32, read_u8,
};
use crate::error::{error_at, XmError, XmErrorKind};
use crate::text::{fixed_length_string, text_at};

verus! {

/// The bytes that the stored header size counts besides the order table.
pub const XM_HEADER_SIZE_BASE: u32 = 20;

#[derive(Clone, Debug)]
pub struct XmHeader {
    pub module_name: String,
    pub tracker_name: String,
    pub version: u16,
    /// The number of entries of the pattern order table.
    pub song_length: u16,
    pub restart_pos: u16,
    pub channels_num: u16,
    pub patterns_num: u16,
    pub instruments_num: u16,
    pub is_amiga: bool,
    pub default_tempo: u16,
    pub default_bpm: u16,
}

/// A header as a mathematical value.
pub struct XmHeaderView {
    pub module_name: Seq<char>,
    pub tracker_name: Seq<char>,
    pub version: u16,
    pub song_length: u16,
    pub restart_pos: u16,
    pub channels_num: u16,
    pub patterns_num: u16,
    pub instruments_num: u16,
    pub is_amiga: bool,
    pub default_tempo: u16,
    pub default_bpm: u16,
}

impl View for XmHeader {
    type V = XmHeaderView;

    open spec fn view(&self) -> XmHeaderView {
        XmHeaderView {
            module_name: self.module_name@,
            tracker_name: self.tracker_name@,
            version: self.version,
            song_length: self.song_length,
            restart_pos: self.restart_pos,
            channels_num: self.channels_num,
            patterns_num: self.patterns_num,
            instruments_num: self.instruments_num,
            is_amiga: self.is_amiga,
            default_tempo: self.default_tempo,
            default_bpm: self.default_bpm,
        }
    }
}

impl XmHeaderView {
    /// The counts lie within what the format allows.
    pub open spec fn in_bounds(self) -> bool {
        &&& 1 <= self.song_length <= 256
        &&& self.channels_num < 128
        &&& 1 <= self.patterns_num <= 256
        &&& self.instruments_num <= 128
    }
}

/// What a decoded header consists of, besides the position behind it.
pub struct XmHeaderParts {
    pub header: XmHeaderView,
    /// The text that identifies the file format.
    pub id_text: Seq<char>,
    /// The byte between the module name and the tracker name.
    pub marker: u8,
    /// The number of bytes that the pattern order table occupies.
    pub order_table_size: u32,
}

/// The first thing wrong with the header at `pos`, field by field in the
/// order of the layout; `None` for a well-formed header.
pub open spec fn header_error(s: Seq<u8>, pos: int) -> Option<XmError> {
    let n = avail(s, pos);
    if text_at(s, pos, 17) is Err {
        Some(text_at(s, pos, 17)->Err_0)
    } else if text_at(s, pos + 17, 20) is Err {
        Some(text_at(s, pos + 17, 20)->Err_0)
    } else if n < 38 {
        Some(end_error(pos + 37))
    } else if text_at(s, pos + 38, 20) is Err {
        Some(text_at(s, pos + 38, 20)->Err_0)
    } else if n < 60 {
        Some(end_error(pos + 58))
    } else if n < 64 {
        Some(end_error(pos + 60))
    } else if n < 66 {
        Some(end_error(pos + 64))
    } else if !(1 <= le_u16_at(s, pos + 64) <= 256) {
        Some(error_at(XmErrorKind::SongLength, pos + 64))
    } else if n < 68 {
        Some(end_error(pos + 66))
    } else if n < 70 {
        Some(end_error(pos + 68))
    } else if !(le_u16_at(s, pos + 68) < 128) {
        Some(error_at(XmErrorKind::ChannelCount, pos + 68))
    } else if n < 72 {
        Some(end_error(pos + 70))
    } else if !(1 <= le_u16_at(s, pos + 70) <= 256) {
        Some(error_at(XmErrorKind::PatternCount, pos + 70))
    } else if n < 74 {
        Some(end_error(pos + 72))
    } else if !(le_u16_at(s, pos + 72) <= 128) {
        Some(error_at(XmErrorKind::InstrumentCount, pos + 72))
    } else if n < 76 {
        Some(end_error(pos + 74))
    } else if n < 78 {
        Some(end_error(pos + 76))
    } else if n < 80 {
        Some(end_error(pos + 78))
    } else if le_u32_at(s, pos + 60) < 20 {
        Some(error_at(XmErrorKind::HeaderSize, pos + 60))
    } else {
        None
    }
}

/// The fields of the header stored at `pos`.
pub open spec fn header_parts(s: Seq<u8>, pos: int) -> XmHeaderParts {
    XmHeaderParts {
        header: XmHeaderView {
            module_name: text_at(s, pos + 17, 20)->Ok_0.0,
            tracker_name: text_at(s, pos + 38, 20)->Ok_0.0,
            version: le_u16_at(s, pos + 58),
            song_length: le_u16_at(s, pos + 64),
            restart_pos: le_u16_at(s, pos + 66),
            channels_num: le_u16_at(s, pos + 68),
            patterns_num: le_u16_at(s, pos + 70),
            instruments_num: le_u16_at(s, pos + 72),
            is_amiga: le_u16_at(s, pos + 74) % 2 == 0,
            default_tempo: le_u16_at(s, pos + 76),
            default_bpm: le_u16_at(s, pos + 78),
        },
        id_text: text_at(s, pos, 17)->Ok_0.0,
        marker: s[pos + 37],
        order_table_size: (le_u32_at(s, pos + 60) - 20) as u32,
    }
}

/// What decoding the header at `pos` gives: its parts and the position
/// behind it, or the error.
pub open spec fn header_at(s: Seq<u8>, pos: int) -> Outcome<XmHeaderParts> {
    match header_error(s, pos) {
        Some(e) => Err(e),
        None => Ok((header_parts(s, pos), pos + 80)),
    }
}

/// Whether `r` is the outcome `m` of decoding a header: the same parts and
/// the same position, or the same error.
pub open spec fn header_agrees(
    r: Decoded<(XmHeader, String, u8, u32)>,
    m: Outcome<XmHeaderParts>,
) -> bool {
    match m {
        Ok((parts, end)) => {
            &&& r matches Ok(((header, id_text, marker, size), p))
            &&& header@ == parts.header
            &&& id_text@ == parts.id_text
            &&& marker == parts.marker
            &&& size == parts.order_table_size
            &&& p == end
        },
        Err(e) => r == Err::<((XmHeader, String, u8, u32), usize), XmError>(e),
    }
}

/// Every header that decodes has its counts within the format's bounds,
/// and a header with a count outside them does not decode.
pub proof fn lemma_header_bounds(s: Seq<u8>, pos: int)
    ensures
        header_at(s, pos) matches Ok((parts, _)) ==> parts.header.in_bounds(),
        !header_parts(s, pos).header.in_bounds() ==> header_at(s, pos) is Err,
{
}

/// Decodes the header at `pos`. Returns the header, the format's
/// identifying text, the marker byte and the size of the order table.
pub fn parse(data: &[u8], pos: usize) -> (r: Decoded<(XmHeader, String, u8, u32)>)
    requires
        pos <= data@.len(),
    ensures
        header_agrees(r, header_at(data@, pos as int)),
        r matches Ok((parts, _)) ==> parts.0@.in_bounds(),
{
    let (id_text, p) = fixed_length_string(data, pos, 17)?;
    let (module_name, p) = fixed_length_string(data, p, 20)?;
    let (marker, p) = read_u8(data, p)?;
    let (tracker_name, p) = fixed_length_string(data, p, 20)?;
    let (version, p) = read_le_u16(data, p)?;
    let (header_size, p) = read_le_u32(data, p)?;
    let (song_length, p0) = read_le_u16(data, p)?;
    if !(1 <= song_length && song_length <= 256) {
        return Err(XmError { kind: XmErrorKind::SongLength, offset: p });
    }
    let (restart_pos, p) = read_le_u16(data, p0)?;
    let (channels_num, p0) = read_le_u16(data, p)?;
    if !(channels_num < 128) {
        return Err(XmError { kind: XmErrorKind::ChannelCount, offset: p });
    }
    let (patterns_num, p) = read_le_u16(data, p0)?;
    if !(1 <= patterns_num && patterns_num <= 256) {
        return Err(XmError { kind: XmErrorKind::PatternCount, offset: p0 });
    }
    let (instruments_num, p0) = read_le_u16(data, p)?;
    if !(instruments_num <= 128) {
        return Err(XmError { kind: XmErrorKind::InstrumentCount, offset: p });
    }
    let (flags, p) = read_le_u16(data, p0)?;
    let (default_tempo, p) = read_le_u16(data, p)?;
    let (default_bpm, p) = read_le_u16(data, p)?;
    if header_size < XM_HEADER_SIZE_BASE {
        return Err(XmError { kind: XmErrorKind::HeaderSize, offset: pos + 60 });
    }
    let is_amiga = flags % 2 == 0;
    Ok(
        (
            (
                XmHeader {
                    module_name,
                    tracker_name,
                    version,
                    song_length,
                    restart_pos,
                    channels_num,
                    patterns_num,
                    instruments_num,
                    is_amiga,
                    default_tempo,
                    default_bpm,
                },
                id_text,
                marker,
                header_size - XM_HEADER_SIZE_BASE,
            ),
            p,
        ),
    )
}

} // verus!
