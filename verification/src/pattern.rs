//! Patterns: a header and a grid of slots, rows by channels; and the order
//! table that says in which order the patterns play.

use vstd::prelude::*;
use vstd::slice::{slice_subrange, slice_to_vec};
use vstd::string::*;
use crate::bits::{bit_set, with_bit};
use crate::bytes::{
    agrees, avail, Decoded, end_error, le_u16_at, le_u32_at, Outcome, read_le_u16, read_le_u32,
    read_u8, seq_agrees, skip, view_agrees, within,
};
use crate::digits::{decimal2, push_decimal2};
use crate::effect::{
    effect_at, parse_effect, parse_volume_column, volume_column_at, XmEffect, XmVolumeColumn,
};
use crate::error::{error_at, XmError, XmErrorKind};
use crate::note::{note_at, parse_xm_note_at, XmNote};
use crate::repeat::{lemma_repeat_err, lemma_repeat_len, repeat_at, ItemAt};

verus! {

/// The number of bytes of the fixed part of a pattern header.
pub const XM_PATTERN_HEADER_SIZE: usize = 9;

/// The indices of the patterns, in the order in which they play.
pub type XmPatternOrderTable = Vec<u8>;

#[derive(Clone, Copy, Debug, PartialEq, Eq, Structural)]
pub struct XmPatternHeader {
    pub header_length: u32,
    pub packing_type: u8,
    pub rows_num: u16,
    pub packed_data_size: u16,
}

/// One row of a pattern: a slot for each channel.
#[derive(Clone, Debug)]
pub struct XmPatternRow(pub Vec<XmPatternSlot>);

/// The rows of a pattern, first to last.
#[derive(Clone, Debug)]
pub struct XmPatternRows(pub Vec<XmPatternRow>);

/// The byte that says which fields of a slot are stored: from the lowest
/// bit up, the note, the instrument, the volume column, the effect type and
/// the effect parameter.
#[derive(Clone, Copy, Debug, PartialEq, Eq, Structural)]
pub struct XmNoteFlags(pub u8);

/// One cell of a pattern.
#[derive(Clone, Copy, Debug, PartialEq, Eq, Structural)]
pub struct XmPatternSlot {
    pub note: XmNote,
    pub instrument_index: Option<u8>,
    pub volume_column: Option<XmVolumeColumn>,
    pub effect: Option<XmEffect>,
}

impl View for XmPatternRow {
    type V = Seq<XmPatternSlot>;

    open spec fn view(&self) -> Seq<XmPatternSlot> {
        self.0@
    }
}

/// The rows of `rows` as sequences of slots.
pub open spec fn rows_view(rows: Seq<XmPatternRow>) -> Seq<Seq<XmPatternSlot>> {
    Seq::new(rows.len(), |i: int| rows[i]@)
}

impl View for XmPatternRows {
    type V = Seq<Seq<XmPatternSlot>>;

    open spec fn view(&self) -> Seq<Seq<XmPatternSlot>> {
        rows_view(self.0@)
    }
}

impl XmNoteFlags {
    pub open spec fn spec_note_follows(&self) -> bool {
        bit_set(self.0, 0)
    }

    pub open spec fn spec_instrument_follows(&self) -> bool {
        bit_set(self.0, 1)
    }

    pub open spec fn spec_volume_column_byte_follows(&self) -> bool {
        bit_set(self.0, 2)
    }

    pub open spec fn spec_effect_type_follows(&self) -> bool {
        bit_set(self.0, 3)
    }

    pub open spec fn spec_effect_parameter_follows(&self) -> bool {
        bit_set(self.0, 4)
    }

    /// The value with every bit clear.
    pub fn new() -> (r: Self)
        ensures
            r == XmNoteFlags(0),
    {
        XmNoteFlags(0)
    }

    pub fn with_note_follows(self, value: bool) -> (r: Self)
        ensures
            r == XmNoteFlags(with_bit(self.0, 0, value)),
            r.spec_note_follows() == value,
    {
        let b: u8 = self.0;
        assert((b | 1u8) == if b % 2 == 1 { b } else { (b + 1) as u8 }) by (bit_vector);
        assert((b & !1u8) == if b % 2 == 1 { (b - 1) as u8 } else { b }) by (bit_vector);
        if value {
            XmNoteFlags(b | 1)
        } else {
            XmNoteFlags(b & !1)
        }
    }

    pub fn set_note_follows(&mut self, value: bool)
        ensures
            *final(self) == XmNoteFlags(with_bit(old(self).0, 0, value)),
    {
        *self = self.with_note_follows(value);
    }

    pub fn with_instrument_follows(self, value: bool) -> (r: Self)
        ensures
            r == XmNoteFlags(with_bit(self.0, 1, value)),
            r.spec_instrument_follows() == value,
    {
        let b: u8 = self.0;
        assert((b | 2u8) == if b / 2 % 2 == 1 { b } else { (b + 2) as u8 }) by (bit_vector);
        assert((b & !2u8) == if b / 2 % 2 == 1 { (b - 2) as u8 } else { b }) by (bit_vector);
        if value {
            XmNoteFlags(b | 2)
        } else {
            XmNoteFlags(b & !2)
        }
    }

    pub fn set_instrument_follows(&mut self, value: bool)
        ensures
            *final(self) == XmNoteFlags(with_bit(old(self).0, 1, value)),
    {
        *self = self.with_instrument_follows(value);
    }

    pub fn with_volume_column_byte_follows(self, value: bool) -> (r: Self)
        ensures
            r == XmNoteFlags(with_bit(self.0, 2, value)),
            r.spec_volume_column_byte_follows() == value,
    {
        let b: u8 = self.0;
        assert((b | 4u8) == if b / 4 % 2 == 1 { b } else { (b + 4) as u8 }) by (bit_vector);
        assert((b & !4u8) == if b / 4 % 2 == 1 { (b - 4) as u8 } else { b }) by (bit_vector);
        if value {
            XmNoteFlags(b | 4)
        } else {
            XmNoteFlags(b & !4)
        }
    }

    pub fn set_volume_column_byte_follows(&mut self, value: bool)
        ensures
            *final(self) == XmNoteFlags(with_bit(old(self).0, 2, value)),
    {
        *self = self.with_volume_column_byte_follows(value);
    }

    pub fn with_effect_type_follows(self, value: bool) -> (r: Self)
        ensures
            r == XmNoteFlags(with_bit(self.0, 3, value)),
            r.spec_effect_type_follows() == value,
    {
        let b: u8 = self.0;
        assert((b | 8u8) == if b / 8 % 2 == 1 { b } else { (b + 8) as u8 }) by (bit_vector);
        assert((b & !8u8) == if b / 8 % 2 == 1 { (b - 8) as u8 } else { b }) by (bit_vector);
        if value {
            XmNoteFlags(b | 8)
        } else {
            XmNoteFlags(b & !8)
        }
    }

    pub fn set_effect_type_follows(&mut self, value: bool)
        ensures
            *final(self) == XmNoteFlags(with_bit(old(self).0, 3, value)),
    {
        *self = self.with_effect_type_follows(value);
    }

    pub fn with_effect_parameter_follows(self, value: bool) -> (r: Self)
        ensures
            r == XmNoteFlags(with_bit(self.0, 4, value)),
            r.spec_effect_parameter_follows() == value,
    {
        let b: u8 = self.0;
        assert((b | 16u8) == if b / 16 % 2 == 1 { b } else { (b + 16) as u8 }) by (bit_vector);
        assert((b & !16u8) == if b / 16 % 2 == 1 { (b - 16) as u8 } else { b }) by (bit_vector);
        if value {
            XmNoteFlags(b | 16)
        } else {
            XmNoteFlags(b & !16)
        }
    }

    pub fn set_effect_parameter_follows(&mut self, value: bool)
        ensures
            *final(self) == XmNoteFlags(with_bit(old(self).0, 4, value)),
    {
        *self = self.with_effect_parameter_follows(value);
    }

    pub fn from_bits(bits: u8) -> (r: Self)
        ensures
            r == XmNoteFlags(bits),
    {
        XmNoteFlags(bits)
    }

    pub fn into_bits(self) -> (bits: u8)
        ensures
            bits == self.0,
    {
        self.0
    }

    #[verifier::when_used_as_spec(spec_note_follows)]
    pub fn note_follows(&self) -> (r: bool)
        ensures
            r == self.spec_note_follows(),
    {
        let b: u8 = self.0;
        assert((b & 1 == 1) == (b % 2 == 1)) by (bit_vector);
        b & 1 == 1
    }

    #[verifier::when_used_as_spec(spec_instrument_follows)]
    pub fn instrument_follows(&self) -> (r: bool)
        ensures
            r == self.spec_instrument_follows(),
    {
        let b: u8 = self.0;
        assert(((b >> 1) & 1 == 1) == (b / 2 % 2 == 1)) by (bit_vector);
        (b >> 1) & 1 == 1
    }

    #[verifier::when_used_as_spec(spec_volume_column_byte_follows)]
    pub fn volume_column_byte_follows(&self) -> (r: bool)
        ensures
            r == self.spec_volume_column_byte_follows(),
    {
        let b: u8 = self.0;
        assert(((b >> 2) & 1 == 1) == (b / 4 % 2 == 1)) by (bit_vector);
        (b >> 2) & 1 == 1
    }

    #[verifier::when_used_as_spec(spec_effect_type_follows)]
    pub fn effect_type_follows(&self) -> (r: bool)
        ensures
            r == self.spec_effect_type_follows(),
    {
        let b: u8 = self.0;
        assert(((b >> 3) & 1 == 1) == (b / 8 % 2 == 1)) by (bit_vector);
        (b >> 3) & 1 == 1
    }

    #[verifier::when_used_as_spec(spec_effect_parameter_follows)]
    pub fn effect_parameter_follows(&self) -> (r: bool)
        ensures
            r == self.spec_effect_parameter_follows(),
    {
        let b: u8 = self.0;
        assert(((b >> 4) & 1 == 1) == (b / 16 % 2 == 1)) by (bit_vector);
        (b >> 4) & 1 == 1
    }
}

/// The slot that holds nothing.
pub open spec fn empty_slot() -> XmPatternSlot {
    XmPatternSlot { note: XmNote::NoNote, instrument_index: None, volume_column: None, effect: None }
}

impl Default for XmPatternSlot {
    fn default() -> (r: Self)
        ensures
            r == empty_slot(),
    {
        XmPatternSlot { note: XmNote::NoNote, instrument_index: None, volume_column: None, effect: None }
    }
}

/// What decoding the order table at `pos` gives: the first `length` of its
/// `size` bytes, and the position behind all of them.
pub open spec fn order_table_at(s: Seq<u8>, pos: int, length: int, size: int) -> Outcome<Seq<u8>> {
    if length > size {
        Err(error_at(XmErrorKind::OrderTable, pos))
    } else if avail(s, pos) < length {
        Err(end_error(pos))
    } else if avail(s, pos) < size {
        Err(end_error(pos + length))
    } else {
        Ok((s.subrange(pos, pos + length), pos + size))
    }
}

/// An order table whose length is no more than its size, and which is all
/// there, decodes to its first `length` bytes, and the other `size - length`
/// bytes are stepped over.
pub proof fn lemma_order_table(s: Seq<u8>, pos: int, length: int, size: int)
    requires
        0 <= pos,
        0 <= length <= size <= avail(s, pos),
    ensures
        order_table_at(s, pos, length, size) matches Ok((table, end)) && table.len() == length && end - pos
            - length == size - length && (forall|i: int| 0 <= i < length ==> table[i] == s[pos + i]),
{
}

/// Decodes the order table at `pos`: `length` pattern indices, stored in
/// `size` bytes.
pub fn parse_order_table_raw(
    data: &[u8],
    pos: usize,
    length: usize,
    size: usize,
) -> (r: Decoded<XmPatternOrderTable>)
    requires
        pos <= data@.len(),
    ensures
        seq_agrees(r, order_table_at(data@, pos as int, length as int, size as int)),
        within(r, pos, data@.len()),
        r matches Ok((table, p)) ==> table@.len() == length && p == pos + size,
{
    if length > size {
        Err(XmError { kind: XmErrorKind::OrderTable, offset: pos })
    } else {
        let p = skip(data, pos, length)?;
        let out = slice_subrange(data, pos, p);
        let p = skip(data, p, size - length)?;
        Ok((slice_to_vec(out), p))
    }
}

/// The first thing wrong with the pattern header at `pos`; `None` for a
/// well-formed one.
pub open spec fn pattern_header_error(s: Seq<u8>, pos: int) -> Option<XmError> {
    let n = avail(s, pos);
    if n < 4 {
        Some(end_error(pos))
    } else if n < 5 {
        Some(end_error(pos + 4))
    } else if n < 7 {
        Some(end_error(pos + 5))
    } else if !(1 <= le_u16_at(s, pos + 5) <= 256) {
        Some(error_at(XmErrorKind::RowCount, pos + 5))
    } else if n < 9 {
        Some(end_error(pos + 7))
    } else if n < le_u32_at(s, pos) {
        Some(end_error(pos + 9))
    } else {
        None
    }
}

/// The number of bytes that the pattern header at `pos` occupies: its
/// declared length, and the fixed part at least.
pub open spec fn pattern_header_len(s: Seq<u8>, pos: int) -> int {
    if le_u32_at(s, pos) > 9 {
        le_u32_at(s, pos) as int
    } else {
        9
    }
}

/// The fields of the pattern header stored at `pos`.
pub open spec fn pattern_header_fields(s: Seq<u8>, pos: int) -> XmPatternHeader {
    XmPatternHeader {
        header_length: le_u32_at(s, pos),
        packing_type: s[pos + 4],
        rows_num: le_u16_at(s, pos + 5),
        packed_data_size: le_u16_at(s, pos + 7),
    }
}

/// What decoding the pattern header at `pos` gives: the header, and the
/// position behind the bytes that its declared length covers.
pub open spec fn pattern_header_at(s: Seq<u8>, pos: int) -> Outcome<XmPatternHeader> {
    match pattern_header_error(s, pos) {
        Some(e) => Err(e),
        None => Ok((pattern_header_fields(s, pos), pos + pattern_header_len(s, pos))),
    }
}

/// Decodes the pattern header at `pos`. Returns the header and the bytes
/// that its declared length holds beyond the fixed part.
pub fn parse_header<'a>(data: &'a [u8], pos: usize) -> (r: Decoded<(XmPatternHeader, &'a [u8])>)
    requires
        pos <= data@.len(),
    ensures
        match pattern_header_at(data@, pos as int) {
            Ok((header, end)) => r matches Ok(((h, excess), p)) && h == header && p == end && excess@
                == data@.subrange(pos + 9, end),
            Err(e) => r == Err::<((XmPatternHeader, &[u8]), usize), XmError>(e),
        },
        within(r, pos, data@.len()),
        r matches Ok(((h, _), _)) ==> 1 <= h.rows_num <= 256,
{
    let (header_length, p) = read_le_u32(data, pos)?;
    let (packing_type, p) = read_u8(data, p)?;
    let (rows_num, p0) = read_le_u16(data, p)?;
    if !(1 <= rows_num && rows_num <= 256) {
        return Err(XmError { kind: XmErrorKind::RowCount, offset: p });
    }
    let (packed_data_size, p) = read_le_u16(data, p0)?;
    let end = if header_length as usize > XM_PATTERN_HEADER_SIZE {
        skip(data, p, header_length as usize - XM_PATTERN_HEADER_SIZE)?
    } else {
        p
    };
    Ok(((XmPatternHeader { header_length, packing_type, rows_num, packed_data_size }, slice_subrange(data, p, end)), end))
}

/// The byte at `pos` where `present`, nothing otherwise.
pub open spec fn optional_u8_at(s: Seq<u8>, pos: int, present: bool) -> Outcome<Option<u8>> {
    if !present {
        Ok((None, pos))
    } else if avail(s, pos) < 1 {
        Err(end_error(pos))
    } else {
        Ok((Some(s[pos]), pos + 1))
    }
}

/// The volume column at `pos` where `present`, nothing otherwise.
pub open spec fn optional_volume_at(
    s: Seq<u8>,
    pos: int,
    present: bool,
) -> Outcome<Option<XmVolumeColumn>> {
    if !present {
        Ok((None, pos))
    } else {
        match volume_column_at(s, pos) {
            Ok((v, p)) => Ok((Some(v), p)),
            Err(e) => Err(e),
        }
    }
}

/// The note at `pos` where `present`, no note otherwise.
pub open spec fn optional_note_at(s: Seq<u8>, pos: int, present: bool) -> Outcome<XmNote> {
    if !present {
        Ok((XmNote::NoNote, pos))
    } else {
        note_at(s, pos)
    }
}

/// The fields of a slot stored from `pos` on, of which `note`,
/// `instrument`, `volume`, `effect_type` and `effect_parameter` say which
/// are there.
pub open spec fn slot_fields_at(
    s: Seq<u8>,
    pos: int,
    note: bool,
    instrument: bool,
    volume: bool,
    effect_type: bool,
    effect_parameter: bool,
) -> Outcome<XmPatternSlot> {
    match optional_note_at(s, pos, note) {
        Err(e) => Err(e),
        Ok((note, p1)) => match optional_u8_at(s, p1, instrument) {
            Err(e) => Err(e),
            Ok((instrument_index, p2)) => match optional_volume_at(s, p2, volume) {
                Err(e) => Err(e),
                Ok((volume_column, p3)) => match effect_at(s, p3, effect_type, effect_parameter) {
                    Err(e) => Err(e),
                    Ok((effect, p4)) => Ok(
                        (XmPatternSlot { note, instrument_index, volume_column, effect }, p4),
                    ),
                },
            },
        },
    }
}

/// What decoding the slot at `pos` gives. A first byte with its high bit
/// set is a flag byte, and only the fields that it names follow; any other
/// first byte is the note itself, and all the other fields follow.
pub open spec fn slot_at(s: Seq<u8>, pos: int) -> Outcome<XmPatternSlot> {
    if avail(s, pos) < 1 {
        Err(end_error(pos))
    } else if s[pos] >= 128 {
        let flags = XmNoteFlags(s[pos]);
        slot_fields_at(
            s,
            pos + 1,
            flags.spec_note_follows(),
            flags.spec_instrument_follows(),
            flags.spec_volume_column_byte_follows(),
            flags.spec_effect_type_follows(),
            flags.spec_effect_parameter_follows(),
        )
    } else {
        slot_fields_at(s, pos, true, true, true, true, true)
    }
}

/// Decodes the slot at `pos`.
pub fn parse_slot(data: &[u8], pos: usize) -> (r: Decoded<XmPatternSlot>)
    requires
        pos <= data@.len(),
    ensures
        agrees(r, slot_at(data@, pos as int)),
        within(r, pos, data@.len()),
{
    let (note_or_flags, input) = read_u8(data, pos)?;
    assert((((note_or_flags & (0x1u8 << 7)) >> 7) == 1) == (note_or_flags >= 128)) by (bit_vector);
    let is_flags = ((note_or_flags & (0x1 << 7)) >> 7) == 1;
    if is_flags {
        let flags = XmNoteFlags(note_or_flags);
        let (note, p) = if flags.note_follows() {
            parse_xm_note_at(data, input)?
        } else {
            (XmNote::NoNote, input)
        };
        let (instrument_index, p) = if flags.instrument_follows() {
            let (i, p) = read_u8(data, p)?;
            (Some(i), p)
        } else {
            (None, p)
        };
        let (volume_column, p) = if flags.volume_column_byte_follows() {
            let (v, p) = parse_volume_column(data, p)?;
            (Some(v), p)
        } else {
            (None, p)
        };
        let (effect, p) = parse_effect(data, p, flags.effect_type_follows(), flags.effect_parameter_follows())?;
        Ok((XmPatternSlot { note, instrument_index, volume_column, effect }, p))
    } else {
        let (note, p) = parse_xm_note_at(data, pos)?;
        let (instrument_index, p) = read_u8(data, p)?;
        let (volume_column, p) = parse_volume_column(data, p)?;
        let (effect, p) = parse_effect(data, p, true, true)?;
        Ok(
            (
                XmPatternSlot {
                    note,
                    instrument_index: Some(instrument_index),
                    volume_column: Some(volume_column),
                    effect,
                },
                p,
            ),
        )
    }
}

/// Decoding one slot, as a function of the input and the position.
pub open spec fn slot_item() -> ItemAt<XmPatternSlot> {
    |s: Seq<u8>, pos: int| slot_at(s, pos)
}

/// What decoding the row at `pos` gives: a slot for each of `channels`
/// channels.
#[verifier::opaque]
pub open spec fn row_at(s: Seq<u8>, pos: int, channels: nat) -> Outcome<Seq<XmPatternSlot>> {
    repeat_at(slot_item(), s, pos, channels)
}

/// Decoding one row of `channels` slots, as a function of the input and
/// the position.
pub open spec fn row_item(channels: nat) -> ItemAt<Seq<XmPatternSlot>> {
    |s: Seq<u8>, pos: int| row_at(s, pos, channels)
}

/// What decoding `rows` rows of `channels` slots gives, the first at `pos`.
pub open spec fn rows_at(
    s: Seq<u8>,
    pos: int,
    channels: nat,
    rows: nat,
) -> Outcome<Seq<Seq<XmPatternSlot>>> {
    repeat_at(row_item(channels), s, pos, rows)
}

/// Decodes the row of `channels_num` slots at `pos`.
pub fn parse_row(data: &[u8], pos: usize, channels_num: u16) -> (r: Decoded<XmPatternRow>)
    requires
        pos <= data@.len(),
    ensures
        view_agrees(r, row_at(data@, pos as int, channels_num as nat)),
        within(r, pos, data@.len()),
        r matches Ok((row, _)) ==> row@.len() == channels_num,
{
    let mut slots: Vec<XmPatternSlot> = Vec::new();
    let mut p: usize = pos;
    let mut i: u16 = 0;
    while i < channels_num
        invariant
            i <= channels_num,
            pos <= p <= data@.len(),
            repeat_at(slot_item(), data@, pos as int, i as nat) == Ok::<(Seq<XmPatternSlot>, int), XmError>(
                (slots@, p as int),
            ),
        decreases channels_num - i,
    {
        match parse_slot(data, p) {
            Ok((slot, next)) => {
                slots.push(slot);
                p = next;
            },
            Err(e) => {
                proof {
                    reveal(row_at);
                    lemma_repeat_err(slot_item(), data@, pos as int, (i + 1) as nat, channels_num as nat);
                }
                return Err(e);
            },
        }
        i = i + 1;
    }
    proof {
        reveal(row_at);
        lemma_repeat_len(slot_item(), data@, pos as int, channels_num as nat);
    }
    Ok((XmPatternRow(slots), p))
}

/// What decoding the pattern at `pos` gives: its header and its rows, as
/// many as the header says, of `channels` slots each.
pub open spec fn pattern_at(
    s: Seq<u8>,
    pos: int,
    channels: nat,
) -> Outcome<(XmPatternHeader, Seq<Seq<XmPatternSlot>>)> {
    match pattern_header_at(s, pos) {
        Err(e) => Err(e),
        Ok((header, p)) => match rows_at(s, p, channels, header.rows_num as nat) {
            Err(e) => Err(e),
            Ok((rows, end)) => Ok(((header, rows), end)),
        },
    }
}

/// Every pattern that decodes has as many rows as its header declares, and
/// in every row a slot for each channel.
pub proof fn lemma_pattern_shape(s: Seq<u8>, pos: int, channels: nat)
    ensures
        pattern_at(s, pos, channels) matches Ok(((header, rows), _)) ==> {
            &&& rows.len() == header.rows_num
            &&& forall|i: int| 0 <= i < rows.len() ==> (#[trigger] rows[i]).len() == channels
        },
{
    if let Ok((header, p)) = pattern_header_at(s, pos) {
        lemma_rows_shape(s, p, channels, header.rows_num as nat);
    }
}

/// Rows that decode are as many as asked for, of `channels` slots each.
pub proof fn lemma_rows_shape(s: Seq<u8>, pos: int, channels: nat, count: nat)
    ensures
        rows_at(s, pos, channels, count) matches Ok((rows, _)) ==> {
            &&& rows.len() == count
            &&& forall|i: int| 0 <= i < rows.len() ==> (#[trigger] rows[i]).len() == channels
        },
    decreases count,
{
    if count > 0 {
        lemma_rows_shape(s, pos, channels, (count - 1) as nat);
        if let Ok((front, p)) = repeat_at(row_item(channels), s, pos, (count - 1) as nat) {
            reveal(row_at);
            lemma_repeat_len(slot_item(), s, p, channels);
        }
    }
}

/// Decodes the pattern at `pos`, whose rows have `channels_num` slots.
/// Returns the header, the rows, and the bytes that the header holds beyond
/// its fixed part.
pub fn parse<'a>(
    data: &'a [u8],
    pos: usize,
    channels_num: u16,
) -> (r: Decoded<(XmPatternHeader, XmPatternRows, &'a [u8])>)
    requires
        pos <= data@.len(),
    ensures
        match pattern_at(data@, pos as int, channels_num as nat) {
            Ok(((header, rows), end)) => r matches Ok(((h, notes, excess), p)) && h == header && notes@
                == rows && p == end && excess@ == data@.subrange(
                pos + 9,
                pos + pattern_header_len(data@, pos as int),
            ),
            Err(e) => r == Err::<((XmPatternHeader, XmPatternRows, &[u8]), usize), XmError>(e),
        },
        within(r, pos, data@.len()),
        r matches Ok(((h, notes, _), _)) ==> {
            &&& notes@.len() == h.rows_num
            &&& forall|i: int| 0 <= i < notes@.len() ==> (#[trigger] notes@[i]).len() == channels_num
        },
{
    let ((header, excess), input) = parse_header(data, pos)?;
    let mut rows: Vec<XmPatternRow> = Vec::new();
    let mut p: usize = input;
    let mut i: u16 = 0;
    assert(rows_view(rows@) =~= Seq::<Seq<XmPatternSlot>>::empty());
    while i < header.rows_num
        invariant
            i <= header.rows_num,
            input <= p <= data@.len(),
            pattern_header_at(data@, pos as int) == Ok::<(XmPatternHeader, int), XmError>((header, input as int)),
            repeat_at(row_item(channels_num as nat), data@, input as int, i as nat) == Ok::<
                (Seq<Seq<XmPatternSlot>>, int),
                XmError,
            >((rows_view(rows@), p as int)),
        decreases header.rows_num - i,
    {
        match parse_row(data, p, channels_num) {
            Ok((row, next)) => {
                proof {
                    let item = row_item(channels_num as nat);
                    assert(item(data@, p as int) == row_at(data@, p as int, channels_num as nat));
                    assert(rows_view(rows@.push(row)) =~= rows_view(rows@).push(row@));
                }
                rows.push(row);
                p = next;
            },
            Err(e) => {
                proof {
                    let item = row_item(channels_num as nat);
                    assert(item(data@, p as int) == row_at(data@, p as int, channels_num as nat));
                    lemma_repeat_err(
                        row_item(channels_num as nat),
                        data@,
                        input as int,
                        (i + 1) as nat,
                        header.rows_num as nat,
                    );
                }
                return Err(e);
            },
        }
        i = i + 1;
    }
    proof {
        lemma_pattern_shape(data@, pos as int, channels_num as nat);
    }
    Ok(((header, XmPatternRows(rows), excess), p))
}

impl XmPatternSlot {
    /// The slot as a tracker shows it: the note, the instrument in two
    /// decimal digits, the volume column and the effect, with dots for what
    /// is absent.
    pub open spec fn text(&self) -> Seq<char> {
        self.note.text() + (match self.instrument_index {
            Some(v) => decimal2(v),
            None => ".."@,
        }) + (match self.volume_column {
            Some(v) => v.text(),
            None => "..."@,
        }) + (match self.effect {
            Some(v) => v.text(),
            None => "..."@,
        })
    }

    /// The slot as a tracker shows it.
    pub fn to_text(&self) -> (r: String)
        ensures
            r@ == self.text(),
    {
        let mut out = self.note.to_text();
        match self.instrument_index {
            Some(v) => push_decimal2(&mut out, v),
            None => out.append(".."),
        }
        match self.volume_column {
            Some(v) => out.append(v.to_text().as_str()),
            None => out.append("..."),
        }
        match self.effect {
            Some(v) => out.append(v.to_text().as_str()),
            None => out.append("..."),
        }
        out
    }
}

/// The first `count` slots of a row as text, a bar before each.
pub open spec fn slots_text(slots: Seq<XmPatternSlot>, count: nat) -> Seq<char>
    decreases count,
{
    if count == 0 {
        Seq::empty()
    } else {
        slots_text(slots, (count - 1) as nat) + "|"@ + slots[count - 1].text()
    }
}

/// A row as text: a bar before each slot and one at the end.
pub open spec fn row_text(slots: Seq<XmPatternSlot>) -> Seq<char> {
    slots_text(slots, slots.len()) + "|"@
}

/// The first `count` rows as text, a line break after each.
pub open spec fn rows_text(rows: Seq<Seq<XmPatternSlot>>, count: nat) -> Seq<char>
    decreases count,
{
    if count == 0 {
        Seq::empty()
    } else {
        rows_text(rows, (count - 1) as nat) + row_text(rows[count - 1]) + "\n"@
    }
}

impl XmPatternRow {
    /// The row as a tracker shows it.
    pub fn to_text(&self) -> (r: String)
        ensures
            r@ == row_text(self@),
    {
        let mut out = String::new();
        let mut i: usize = 0;
        while i < self.0.len()
            invariant
                i <= self.0@.len(),
                out@ == slots_text(self.0@, i as nat),
            decreases self.0@.len() - i,
        {
            out.append("|");
            out.append(self.0[i].to_text().as_str());
            i = i + 1;
        }
        out.append("|");
        out
    }
}

impl XmPatternRows {
    /// The rows as a tracker shows them, one to a line.
    pub fn to_text(&self) -> (r: String)
        ensures
            r@ == rows_text(self@, self@.len()),
    {
        let mut out = String::new();
        let mut i: usize = 0;
        while i < self.0.len()
            invariant
                i <= self.0@.len(),
                self@.len() == self.0@.len(),
                out@ == rows_text(self@, i as nat),
            decreases self.0@.len() - i,
        {
            assert(self@[i as int] == self.0@[i as int]@);
            out.append(self.0[i].to_text().as_str());
            out.append("\n");
            i = i + 1;
        }
        out
    }
}

} // verus!
