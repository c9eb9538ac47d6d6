//! Instruments: the header, the envelopes and the samples with their
//! delta-encoded data.

use vstd::prelude::*;
use crate::bits::{bit_set, with_bit};
use crate::bytes::{
    agrees, avail, Decoded, end_error, i8_of, le_i16_at, le_u16_at, le_u32_at, Outcome, read_i8,
    read_le_i16, read_le_u16, read_le_u32, read_u8, seq_agrees, skip, view_agrees, within,
};
use crate::error::{error_at, XmError, XmErrorKind};
use crate::interpolation::{Interpolation, LinearInterpolation, NoInterpolation};
use crate::repeat::{lemma_repeat_err, repeat_at, ItemAt};
use crate::text::{fixed_length_string, text_at};

verus! {

/// The number of bytes of an instrument header without sample options.
pub const XM_INSTRUMENT_HEADER_SIZE: usize = 29;

/// The number of bytes of an instrument header with sample options.
pub const XM_INSTRUMENT_HEADER_SIZE_W_OPTS: usize = 263;

/// The byte that says how an envelope is used: from the lowest bit up,
/// whether it is on, whether it has a sustain point, whether it loops.
#[derive(Clone, Copy, Debug, PartialEq, Eq, Structural)]
pub struct XmEnvelopeType(pub u8);

#[derive(Clone, Copy, Debug, PartialEq, Eq, Structural)]
pub enum XmVibratoType {
    Sine,
    Square,
    RampUp,
    RampDown,
}

#[derive(Clone, Copy, Debug, PartialEq, Eq, Structural)]
pub struct XmEnvelopePoint {
    pub frame: u16,
    pub value: u16,
}

#[derive(Clone, Debug)]
pub struct XmEnvelope {
    pub points: Vec<XmEnvelopePoint>,
    pub sustain_point: Option<u8>,
    pub loop_start_point: Option<u8>,
    pub loop_end_point: Option<u8>,
}

#[derive(Clone, Copy, Debug, PartialEq, Eq, Structural)]
pub struct XmVibratoOpts {
    pub kind: XmVibratoType,
    pub sweep: u8,
    pub depth: u8,
    pub rate: u8,
}

#[derive(Clone, Debug)]
pub struct XmInstrumentSampleOpts {
    pub sample_header_size: u32,
    pub sample_keymap_assignments: [u8; 96],
    pub volume_envelope: Option<XmEnvelope>,
    pub panning_envelope: Option<XmEnvelope>,
    pub vibrato: XmVibratoOpts,
    pub volume_fadeout: u16,
}

#[derive(Clone, Debug)]
pub struct XmInstrumentHeader {
    pub header_size: u32,
    pub name: String,
    pub kind: u8,
    pub samples_num: u16,
    pub sample_opts: Option<XmInstrumentSampleOpts>,
}

#[derive(Clone, Copy, Debug, PartialEq, Eq, Structural)]
pub enum XmSampleLoopType {
    NoLoop,
    ForwardLoop,
    BidirectionalLoop,
    Unknown,
}

#[derive(Clone, Copy, Debug, PartialEq, Eq, Structural)]
pub enum XmSampleBitDepth {
    Bit8,
    Bit16,
    Unknown,
}

/// The type byte of a sample: the loop type in its two lowest bits, the
/// bit depth in bit 4.
#[derive(Clone, Copy, Debug, PartialEq, Eq, Structural)]
pub struct XmSampleType(pub u8);

#[derive(Clone, Debug)]
pub struct XmSampleHeader {
    pub length: u32,
    pub loop_start: u32,
    pub loop_length: u32,
    pub volume: u8,
    pub finetune: i8,
    pub kind: XmSampleType,
    pub panning: u8,
    pub relative_note_num: i8,
    pub name: String,
}

#[derive(Clone, Debug)]
pub enum XmSamplePcmData {
    Bit8Data(Vec<i8>),
    Bit16Data(Vec<i16>),
}

/// An envelope as a mathematical value.
pub struct XmEnvelopeView {
    pub points: Seq<XmEnvelopePoint>,
    pub sustain_point: Option<u8>,
    pub loop_start_point: Option<u8>,
    pub loop_end_point: Option<u8>,
}

/// The sample options of an instrument as a mathematical value.
pub struct XmInstrumentSampleOptsView {
    pub sample_header_size: u32,
    pub sample_keymap_assignments: Seq<u8>,
    pub volume_envelope: Option<XmEnvelopeView>,
    pub panning_envelope: Option<XmEnvelopeView>,
    pub vibrato: XmVibratoOpts,
    pub volume_fadeout: u16,
}

/// An instrument header as a mathematical value.
pub struct XmInstrumentHeaderView {
    pub header_size: u32,
    pub name: Seq<char>,
    pub kind: u8,
    pub samples_num: u16,
    pub sample_opts: Option<XmInstrumentSampleOptsView>,
}

/// A sample header as a mathematical value.
pub struct XmSampleHeaderView {
    pub length: u32,
    pub loop_start: u32,
    pub loop_length: u32,
    pub volume: u8,
    pub finetune: i8,
    pub kind: XmSampleType,
    pub panning: u8,
    pub relative_note_num: i8,
    pub name: Seq<char>,
}

/// The data of a sample as a mathematical value.
pub enum XmSamplePcmView {
    Bit8Data(Seq<i8>),
    Bit16Data(Seq<i16>),
}

impl View for XmEnvelope {
    type V = XmEnvelopeView;

    open spec fn view(&self) -> XmEnvelopeView {
        XmEnvelopeView {
            points: self.points@,
            sustain_point: self.sustain_point,
            loop_start_point: self.loop_start_point,
            loop_end_point: self.loop_end_point,
        }
    }
}

/// The view of an envelope that may be absent.
pub open spec fn envelope_view(e: Option<XmEnvelope>) -> Option<XmEnvelopeView> {
    match e {
        Some(e) => Some(e@),
        None => None,
    }
}

impl View for XmInstrumentSampleOpts {
    type V = XmInstrumentSampleOptsView;

    open spec fn view(&self) -> XmInstrumentSampleOptsView {
        XmInstrumentSampleOptsView {
            sample_header_size: self.sample_header_size,
            sample_keymap_assignments: self.sample_keymap_assignments@,
            volume_envelope: envelope_view(self.volume_envelope),
            panning_envelope: envelope_view(self.panning_envelope),
            vibrato: self.vibrato,
            volume_fadeout: self.volume_fadeout,
        }
    }
}

impl View for XmInstrumentHeader {
    type V = XmInstrumentHeaderView;

    open spec fn view(&self) -> XmInstrumentHeaderView {
        XmInstrumentHeaderView {
            header_size: self.header_size,
            name: self.name@,
            kind: self.kind,
            samples_num: self.samples_num,
            sample_opts: match self.sample_opts {
                Some(opts) => Some(opts@),
                None => None,
            },
        }
    }
}

impl View for XmSampleHeader {
    type V = XmSampleHeaderView;

    open spec fn view(&self) -> XmSampleHeaderView {
        XmSampleHeaderView {
            length: self.length,
            loop_start: self.loop_start,
            loop_length: self.loop_length,
            volume: self.volume,
            finetune: self.finetune,
            kind: self.kind,
            panning: self.panning,
            relative_note_num: self.relative_note_num,
            name: self.name@,
        }
    }
}

impl View for XmSamplePcmData {
    type V = XmSamplePcmView;

    open spec fn view(&self) -> XmSamplePcmView {
        match self {
            XmSamplePcmData::Bit8Data(v) => XmSamplePcmView::Bit8Data(v@),
            XmSamplePcmData::Bit16Data(v) => XmSamplePcmView::Bit16Data(v@),
        }
    }
}

impl XmSamplePcmView {
    /// The number of samples.
    pub open spec fn len(self) -> nat {
        match self {
            XmSamplePcmView::Bit8Data(v) => v.len(),
            XmSamplePcmView::Bit16Data(v) => v.len(),
        }
    }
}

impl XmEnvelopeType {
    pub open spec fn spec_on(&self) -> bool {
        bit_set(self.0, 0)
    }

    pub open spec fn spec_sustain(&self) -> bool {
        bit_set(self.0, 1)
    }

    pub open spec fn spec_loop_(&self) -> bool {
        bit_set(self.0, 2)
    }

    /// The value with every bit clear.
    pub fn new() -> (r: Self)
        ensures
            r == XmEnvelopeType(0),
    {
        XmEnvelopeType(0)
    }

    pub fn with_on(self, value: bool) -> (r: Self)
        ensures
            r == XmEnvelopeType(with_bit(self.0, 0, value)),
            r.spec_on() == value,
    {
        let b: u8 = self.0;
        assert((b | 1u8) == if b % 2 == 1 { b } else { (b + 1) as u8 }) by (bit_vector);
        assert((b & !1u8) == if b % 2 == 1 { (b - 1) as u8 } else { b }) by (bit_vector);
        if value {
            XmEnvelopeType(b | 1)
        } else {
            XmEnvelopeType(b & !1)
        }
    }

    pub fn set_on(&mut self, value: bool)
        ensures
            *final(self) == XmEnvelopeType(with_bit(old(self).0, 0, value)),
    {
        *self = self.with_on(value);
    }

    pub fn with_sustain(self, value: bool) -> (r: Self)
        ensures
            r == XmEnvelopeType(with_bit(self.0, 1, value)),
            r.spec_sustain() == value,
    {
        let b: u8 = self.0;
        assert((b | 2u8) == if b / 2 % 2 == 1 { b } else { (b + 2) as u8 }) by (bit_vector);
        assert((b & !2u8) == if b / 2 % 2 == 1 { (b - 2) as u8 } else { b }) by (bit_vector);
        if value {
            XmEnvelopeType(b | 2)
        } else {
            XmEnvelopeType(b & !2)
        }
    }

    pub fn set_sustain(&mut self, value: bool)
        ensures
            *final(self) == XmEnvelopeType(with_bit(old(self).0, 1, value)),
    {
        *self = self.with_sustain(value);
    }

    pub fn with_loop_(self, value: bool) -> (r: Self)
        ensures
            r == XmEnvelopeType(with_bit(self.0, 2, value)),
            r.spec_loop_() == value,
    {
        let b: u8 = self.0;
        assert((b | 4u8) == if b / 4 % 2 == 1 { b } else { (b + 4) as u8 }) by (bit_vector);
        assert((b & !4u8) == if b / 4 % 2 == 1 { (b - 4) as u8 } else { b }) by (bit_vector);
        if value {
            XmEnvelopeType(b | 4)
        } else {
            XmEnvelopeType(b & !4)
        }
    }

    pub fn set_loop_(&mut self, value: bool)
        ensures
            *final(self) == XmEnvelopeType(with_bit(old(self).0, 2, value)),
    {
        *self = self.with_loop_(value);
    }

    pub fn from_bits(bits: u8) -> (r: Self)
        ensures
            r == XmEnvelopeType(bits),
    {
        XmEnvelopeType(bits)
    }

    pub fn into_bits(self) -> (bits: u8)
        ensures
            bits == self.0,
    {
        self.0
    }

    /// Whether the envelope is in use.
    #[verifier::when_used_as_spec(spec_on)]
    pub fn on(&self) -> (r: bool)
        ensures
            r == self.spec_on(),
    {
        let b: u8 = self.0;
        assert((b & 1 == 1) == (b % 2 == 1)) by (bit_vector);
        b & 1 == 1
    }

    /// Whether the envelope has a sustain point.
    #[verifier::when_used_as_spec(spec_sustain)]
    pub fn sustain(&self) -> (r: bool)
        ensures
            r == self.spec_sustain(),
    {
        let b: u8 = self.0;
        assert(((b >> 1) & 1 == 1) == (b / 2 % 2 == 1)) by (bit_vector);
        (b >> 1) & 1 == 1
    }

    /// Whether the envelope loops.
    #[verifier::when_used_as_spec(spec_loop_)]
    pub fn loop_(&self) -> (r: bool)
        ensures
            r == self.spec_loop_(),
    {
        let b: u8 = self.0;
        assert(((b >> 2) & 1 == 1) == (b / 4 % 2 == 1)) by (bit_vector);
        (b >> 2) & 1 == 1
    }
}

/// The bit depth that the number `value` stands for.
pub open spec fn bit_depth_of(value: u8) -> XmSampleBitDepth {
    if value == 0 {
        XmSampleBitDepth::Bit8
    } else if value == 1 {
        XmSampleBitDepth::Bit16
    } else {
        XmSampleBitDepth::Unknown
    }
}

/// The loop type that the number `value` stands for.
pub open spec fn loop_type_of(value: u8) -> XmSampleLoopType {
    if value == 0 {
        XmSampleLoopType::NoLoop
    } else if value == 1 {
        XmSampleLoopType::ForwardLoop
    } else if value == 2 {
        XmSampleLoopType::BidirectionalLoop
    } else {
        XmSampleLoopType::Unknown
    }
}

impl XmSampleBitDepth {
    /// The place of the depth among the depths.
    pub open spec fn bits(self) -> u8 {
        match self {
            XmSampleBitDepth::Bit8 => 0,
            XmSampleBitDepth::Bit16 => 1,
            XmSampleBitDepth::Unknown => 2,
        }
    }

    pub fn from_bits(value: u8) -> (r: Self)
        ensures
            r == bit_depth_of(value),
    {
        match value {
            0 => XmSampleBitDepth::Bit8,
            1 => XmSampleBitDepth::Bit16,
            _ => XmSampleBitDepth::Unknown,
        }
    }

    pub fn into_bits(self) -> (bits: u8)
        ensures
            bits == self.bits(),
            bit_depth_of(bits) == self,
    {
        match self {
            XmSampleBitDepth::Bit8 => 0,
            XmSampleBitDepth::Bit16 => 1,
            XmSampleBitDepth::Unknown => 2,
        }
    }
}

impl XmSampleLoopType {
    /// The place of the loop type among the loop types.
    pub open spec fn bits(self) -> u8 {
        match self {
            XmSampleLoopType::NoLoop => 0,
            XmSampleLoopType::ForwardLoop => 1,
            XmSampleLoopType::BidirectionalLoop => 2,
            XmSampleLoopType::Unknown => 3,
        }
    }

    pub fn from_bits(value: u8) -> (r: Self)
        ensures
            r == loop_type_of(value),
    {
        match value {
            0 => XmSampleLoopType::NoLoop,
            1 => XmSampleLoopType::ForwardLoop,
            2 => XmSampleLoopType::BidirectionalLoop,
            _ => XmSampleLoopType::Unknown,
        }
    }

    pub fn into_bits(self) -> (bits: u8)
        ensures
            bits == self.bits(),
            loop_type_of(bits) == self,
    {
        match self {
            XmSampleLoopType::NoLoop => 0,
            XmSampleLoopType::ForwardLoop => 1,
            XmSampleLoopType::BidirectionalLoop => 2,
            XmSampleLoopType::Unknown => 3,
        }
    }
}

impl XmSampleType {
    pub open spec fn spec_loop_type(&self) -> XmSampleLoopType {
        loop_type_of(self.0 % 4)
    }

    pub open spec fn spec_depth(&self) -> XmSampleBitDepth {
        bit_depth_of(self.0 / 16 % 2)
    }

    /// The value with every bit clear.
    pub fn new() -> (r: Self)
        ensures
            r == XmSampleType(0),
    {
        XmSampleType(0)
    }

    pub fn with_loop_type(self, value: XmSampleLoopType) -> (r: Self)
        ensures
            r == XmSampleType((self.0 - self.0 % 4 + value.bits()) as u8),
            r.spec_loop_type() == value,
            r.spec_depth() == self.spec_depth(),
    {
        let b: u8 = self.0;
        let v: u8 = value.into_bits();
        assert((b & !0b11u8) | v == b - b % 4 + v) by (bit_vector)
            requires
                v < 4,
        ;
        XmSampleType((b & !0b11) | v)
    }

    pub fn set_loop_type(&mut self, value: XmSampleLoopType)
        ensures
            *final(self) == XmSampleType((old(self).0 - old(self).0 % 4 + value.bits()) as u8),
    {
        *self = self.with_loop_type(value);
    }

    pub fn with_depth(self, value: XmSampleBitDepth) -> (r: Self)
        requires
            value != XmSampleBitDepth::Unknown,
        ensures
            r == XmSampleType(with_bit(self.0, 4, value == XmSampleBitDepth::Bit16)),
            r.spec_depth() == value,
            r.spec_loop_type() == self.spec_loop_type(),
    {
        let b: u8 = self.0;
        assert((b | 16u8) == if b / 16 % 2 == 1 { b } else { (b + 16) as u8 }) by (bit_vector);
        assert((b & !16u8) == if b / 16 % 2 == 1 { (b - 16) as u8 } else { b }) by (bit_vector);
        match value {
            XmSampleBitDepth::Bit16 => XmSampleType(b | 16),
            _ => XmSampleType(b & !16),
        }
    }

    pub fn set_depth(&mut self, value: XmSampleBitDepth)
        requires
            value != XmSampleBitDepth::Unknown,
        ensures
            *final(self) == XmSampleType(with_bit(old(self).0, 4, value == XmSampleBitDepth::Bit16)),
    {
        *self = self.with_depth(value);
    }

    pub fn from_bits(bits: u8) -> (r: Self)
        ensures
            r == XmSampleType(bits),
    {
        XmSampleType(bits)
    }

    pub fn into_bits(self) -> (bits: u8)
        ensures
            bits == self.0,
    {
        self.0
    }

    /// How the sample loops.
    #[verifier::when_used_as_spec(spec_loop_type)]
    pub fn loop_type(&self) -> (r: XmSampleLoopType)
        ensures
            r == self.spec_loop_type(),
    {
        let b: u8 = self.0;
        assert(b & 0b11 == b % 4) by (bit_vector);
        XmSampleLoopType::from_bits(b & 0b11)
    }

    /// The width of one sample of the data.
    #[verifier::when_used_as_spec(spec_depth)]
    pub fn depth(&self) -> (r: XmSampleBitDepth)
        ensures
            r == self.spec_depth(),
            r != XmSampleBitDepth::Unknown,
    {
        let b: u8 = self.0;
        assert((b >> 4) & 1 == b / 16 % 2) by (bit_vector);
        XmSampleBitDepth::from_bits((b >> 4) & 1)
    }
}

/// The first thing wrong with the sample header at `pos`; `None` for a
/// well-formed one.
pub open spec fn sample_header_error(s: Seq<u8>, pos: int) -> Option<XmError> {
    let n = avail(s, pos);
    if n < 4 {
        Some(end_error(pos))
    } else if n < 8 {
        Some(end_error(pos + 4))
    } else if n < 12 {
        Some(end_error(pos + 8))
    } else if n < 18 {
        Some(end_error(pos + n))
    } else if text_at(s, pos + 18, 22) is Err {
        Some(text_at(s, pos + 18, 22)->Err_0)
    } else {
        None
    }
}

/// The fields of the sample header stored at `pos`.
pub open spec fn sample_header_fields(s: Seq<u8>, pos: int) -> XmSampleHeaderView {
    XmSampleHeaderView {
        length: le_u32_at(s, pos),
        loop_start: le_u32_at(s, pos + 4),
        loop_length: le_u32_at(s, pos + 8),
        volume: s[pos + 12],
        finetune: i8_of(s[pos + 13]),
        kind: XmSampleType(s[pos + 14]),
        panning: s[pos + 15],
        relative_note_num: i8_of(s[pos + 16]),
        name: text_at(s, pos + 18, 22)->Ok_0.0,
    }
}

/// What decoding the sample header at `pos` gives.
pub open spec fn sample_header_at(s: Seq<u8>, pos: int) -> Outcome<XmSampleHeaderView> {
    match sample_header_error(s, pos) {
        Some(e) => Err(e),
        None => Ok((sample_header_fields(s, pos), pos + 40)),
    }
}

/// Decodes the sample header at `pos`.
pub fn parse_sample_header(data: &[u8], pos: usize) -> (r: Decoded<XmSampleHeader>)
    requires
        pos <= data@.len(),
    ensures
        view_agrees(r, sample_header_at(data@, pos as int)),
        within(r, pos, data@.len()),
{
    let (length, p) = read_le_u32(data, pos)?;
    let (loop_start, p) = read_le_u32(data, p)?;
    let (loop_length, p) = read_le_u32(data, p)?;
    let (volume, p) = read_u8(data, p)?;
    let (finetune, p) = read_i8(data, p)?;
    let (kind, p) = read_u8(data, p)?;
    let (panning, p) = read_u8(data, p)?;
    let (relative_note_num, p) = read_i8(data, p)?;
    let (_reserved, p) = read_u8(data, p)?;
    let (name, p) = fixed_length_string(data, p, 22)?;
    Ok(
        (
            XmSampleHeader {
                length,
                loop_start,
                loop_length,
                volume,
                finetune,
                kind: XmSampleType(kind),
                panning,
                relative_note_num,
                name,
            },
            p,
        ),
    )
}

/// The 8-bit sample that the first `count` delta bytes at `pos` add up to,
/// wrapping; zero for none.
pub open spec fn delta8_sum(s: Seq<u8>, pos: int, count: nat) -> i8
    decreases count,
{
    if count == 0 {
        0i8
    } else {
        i8_of(s[pos + count - 1]).wrapping_add(delta8_sum(s, pos, (count - 1) as nat))
    }
}

/// The 16-bit sample that the first `count` delta words at `pos` add up
/// to, wrapping; zero for none.
pub open spec fn delta16_sum(s: Seq<u8>, pos: int, count: nat) -> i16
    decreases count,
{
    if count == 0 {
        0i16
    } else {
        le_i16_at(s, pos + 2 * (count - 1)).wrapping_add(delta16_sum(s, pos, (count - 1) as nat))
    }
}

/// The `count` 8-bit samples stored as deltas at `pos`: each is the one
/// before it plus its delta.
pub open spec fn delta8_samples(s: Seq<u8>, pos: int, count: nat) -> Seq<i8> {
    Seq::new(count, |k: int| delta8_sum(s, pos, (k + 1) as nat))
}

/// The `count` 16-bit samples stored as deltas at `pos`.
pub open spec fn delta16_samples(s: Seq<u8>, pos: int, count: nat) -> Seq<i16> {
    Seq::new(count, |k: int| delta16_sum(s, pos, (k + 1) as nat))
}

/// What decoding sample data of `length` bytes at `pos` gives: `length`
/// samples of 8 bits, or `length / 2` samples of 16 bits. An input that ends
/// early is reported at the first sample that is not all there.
pub open spec fn pcm_at(
    s: Seq<u8>,
    pos: int,
    length: nat,
    depth: XmSampleBitDepth,
) -> Outcome<XmSamplePcmView> {
    let n = avail(s, pos);
    match depth {
        XmSampleBitDepth::Unknown => Err(error_at(XmErrorKind::SampleDepth, pos)),
        XmSampleBitDepth::Bit8 => if n < length {
            Err(end_error(pos + n))
        } else {
            Ok((XmSamplePcmView::Bit8Data(delta8_samples(s, pos, length)), pos + length))
        },
        XmSampleBitDepth::Bit16 => if n < 2 * (length / 2) {
            Err(end_error(pos + 2 * (n / 2)))
        } else {
            Ok((XmSamplePcmView::Bit16Data(delta16_samples(s, pos, length / 2)), pos + 2 * (length / 2)))
        },
    }
}

/// Decoded sample data has `length` samples of 8 bits, or `length / 2` of
/// 16 bits, and each sample is the one before it plus its delta, wrapping.
pub proof fn lemma_pcm_samples(s: Seq<u8>, pos: int, length: nat, depth: XmSampleBitDepth)
    ensures
        pcm_at(s, pos, length, depth) matches Ok((XmSamplePcmView::Bit8Data(v), _)) ==> {
            &&& depth == XmSampleBitDepth::Bit8
            &&& v.len() == length
            &&& length > 0 ==> v[0] == i8_of(s[pos])
            &&& forall|k: int| 0 < k < length ==> #[trigger] v[k] == i8_of(s[pos + k]).wrapping_add(v[k - 1])
        },
        pcm_at(s, pos, length, depth) matches Ok((XmSamplePcmView::Bit16Data(v), _)) ==> {
            &&& depth == XmSampleBitDepth::Bit16
            &&& v.len() == length / 2
            &&& length / 2 > 0 ==> v[0] == le_i16_at(s, pos)
            &&& forall|k: int| 0 < k < length / 2 ==> #[trigger] v[k] == le_i16_at(s, pos + 2 * k).wrapping_add(v[k - 1])
        },
{
    reveal_with_fuel(delta8_sum, 2);
    reveal_with_fuel(delta16_sum, 2);
}

/// The samples that are decoded depend on nothing but the delta bytes: the
/// same bytes at another place, or in another input, give the same samples.
pub proof fn lemma_delta8_depends_on_its_bytes(
    s1: Seq<u8>,
    pos1: int,
    s2: Seq<u8>,
    pos2: int,
    count: nat,
)
    requires
        0 <= pos1 && pos1 + count <= s1.len(),
        0 <= pos2 && pos2 + count <= s2.len(),
        s1.subrange(pos1, pos1 + count) == s2.subrange(pos2, pos2 + count),
    ensures
        delta8_sum(s1, pos1, count) == delta8_sum(s2, pos2, count),
        delta8_samples(s1, pos1, count) == delta8_samples(s2, pos2, count),
    decreases count,
{
    let bytes1 = s1.subrange(pos1, pos1 + count);
    let bytes2 = s2.subrange(pos2, pos2 + count);
    if count > 0 {
        assert(s1.subrange(pos1, pos1 + count - 1) =~= bytes1.take(count - 1));
        assert(s2.subrange(pos2, pos2 + count - 1) =~= bytes2.take(count - 1));
        lemma_delta8_depends_on_its_bytes(s1, pos1, s2, pos2, (count - 1) as nat);
        assert(s1[pos1 + count - 1] == bytes1[count - 1]);
        assert(s2[pos2 + count - 1] == bytes2[count - 1]);
    }
    assert forall|k: int| 0 <= k < count implies #[trigger] delta8_samples(s1, pos1, count)[k]
        == delta8_samples(s2, pos2, count)[k] by {
        if k + 1 < count {
            assert(delta8_samples(s1, pos1, (count - 1) as nat)[k] == delta8_samples(
                s2,
                pos2,
                (count - 1) as nat,
            )[k]);
        }
    }
    assert(delta8_samples(s1, pos1, count) =~= delta8_samples(s2, pos2, count));
}

/// The 16-bit samples that are decoded depend on nothing but the delta
/// bytes.
pub proof fn lemma_delta16_depends_on_its_bytes(
    s1: Seq<u8>,
    pos1: int,
    s2: Seq<u8>,
    pos2: int,
    count: nat,
)
    requires
        0 <= pos1 && pos1 + 2 * count <= s1.len(),
        0 <= pos2 && pos2 + 2 * count <= s2.len(),
        s1.subrange(pos1, pos1 + 2 * count) == s2.subrange(pos2, pos2 + 2 * count),
    ensures
        delta16_sum(s1, pos1, count) == delta16_sum(s2, pos2, count),
        delta16_samples(s1, pos1, count) == delta16_samples(s2, pos2, count),
    decreases count,
{
    let bytes1 = s1.subrange(pos1, pos1 + 2 * count);
    let bytes2 = s2.subrange(pos2, pos2 + 2 * count);
    if count > 0 {
        assert(s1.subrange(pos1, pos1 + 2 * (count - 1)) =~= bytes1.take(2 * (count - 1)));
        assert(s2.subrange(pos2, pos2 + 2 * (count - 1)) =~= bytes2.take(2 * (count - 1)));
        lemma_delta16_depends_on_its_bytes(s1, pos1, s2, pos2, (count - 1) as nat);
        assert(s1[pos1 + 2 * (count - 1)] == bytes1[2 * (count - 1)]);
        assert(s2[pos2 + 2 * (count - 1)] == bytes2[2 * (count - 1)]);
        assert(s1[pos1 + 2 * (count - 1) + 1] == bytes1[2 * (count - 1) + 1]);
        assert(s2[pos2 + 2 * (count - 1) + 1] == bytes2[2 * (count - 1) + 1]);
    }
    assert forall|k: int| 0 <= k < count implies #[trigger] delta16_samples(s1, pos1, count)[k]
        == delta16_samples(s2, pos2, count)[k] by {
        if k + 1 < count {
            assert(delta16_samples(s1, pos1, (count - 1) as nat)[k] == delta16_samples(
                s2,
                pos2,
                (count - 1) as nat,
            )[k]);
        }
    }
    assert(delta16_samples(s1, pos1, count) =~= delta16_samples(s2, pos2, count));
}

/// Decodes sample data of `length` bytes at `pos`.
pub fn decode_dpcm_data(
    data: &[u8],
    pos: usize,
    length: usize,
    depth: XmSampleBitDepth,
) -> (r: Decoded<XmSamplePcmData>)
    requires
        pos <= data@.len(),
    ensures
        view_agrees(r, pcm_at(data@, pos as int, length as nat, depth)),
        within(r, pos, data@.len()),
        r matches Ok((XmSamplePcmData::Bit8Data(v), _)) ==> v@.len() == length,
        r matches Ok((XmSamplePcmData::Bit16Data(v), _)) ==> v@.len() == length / 2,
{
    match depth {
        XmSampleBitDepth::Unknown => Err(XmError { kind: XmErrorKind::SampleDepth, offset: pos }),
        XmSampleBitDepth::Bit8 => {
            let mut previous: i8 = 0;
            let mut out: Vec<i8> = Vec::new();
            let mut p: usize = pos;
            let mut i: usize = 0;
            while i < length
                invariant
                    depth == XmSampleBitDepth::Bit8,
                    i <= length,
                    p == pos + i,
                    p <= data@.len(),
                    previous == delta8_sum(data@, pos as int, i as nat),
                    out@ == delta8_samples(data@, pos as int, i as nat),
                decreases length - i,
            {
                let (sample, next) = read_i8(data, p)?;
                previous = sample.wrapping_add(previous);
                out.push(previous);
                p = next;
                i = i + 1;
                assert(out@ =~= delta8_samples(data@, pos as int, i as nat));
            }
            Ok((XmSamplePcmData::Bit8Data(out), p))
        },
        XmSampleBitDepth::Bit16 => {
            let count: usize = length / 2;
            let mut previous: i16 = 0;
            let mut out: Vec<i16> = Vec::new();
            let mut p: usize = pos;
            let mut i: usize = 0;
            while i < count
                invariant
                    depth == XmSampleBitDepth::Bit16,
                    i <= count,
                    count == length / 2,
                    p == pos + 2 * i,
                    p <= data@.len(),
                    previous == delta16_sum(data@, pos as int, i as nat),
                    out@ == delta16_samples(data@, pos as int, i as nat),
                decreases count - i,
            {
                let (sample, next) = read_le_i16(data, p)?;
                previous = sample.wrapping_add(previous);
                out.push(previous);
                p = next;
                i = i + 1;
                assert(out@ =~= delta16_samples(data@, pos as int, i as nat));
            }
            Ok((XmSamplePcmData::Bit16Data(out), p))
        },
    }
}

/// What decoding the envelope point at `pos` gives: a frame and a value.
pub open spec fn envelope_point_at(s: Seq<u8>, pos: int) -> Outcome<XmEnvelopePoint> {
    let n = avail(s, pos);
    if n < 2 {
        Err(end_error(pos))
    } else if n < 4 {
        Err(end_error(pos + 2))
    } else {
        Ok((XmEnvelopePoint { frame: le_u16_at(s, pos), value: le_u16_at(s, pos + 2) }, pos + 4))
    }
}

/// The `count` envelope points stored from `pos` on.
pub open spec fn points_at(s: Seq<u8>, pos: int, count: nat) -> Seq<XmEnvelopePoint> {
    Seq::new(
        count,
        |k: int| XmEnvelopePoint { frame: le_u16_at(s, pos + 4 * k), value: le_u16_at(s, pos + 4 * k + 2) },
    )
}

/// What decoding `count` envelope points at `pos` gives. An input that
/// ends early is reported at the first number that is not all there.
pub open spec fn envelope_points_at(
    s: Seq<u8>,
    pos: int,
    count: nat,
) -> Outcome<Seq<XmEnvelopePoint>> {
    let n = avail(s, pos);
    if n < 4 * count {
        Err(end_error(pos + 2 * (n / 2)))
    } else {
        Ok((points_at(s, pos, count), pos + 4 * count))
    }
}

/// Decodes the envelope point at `pos`.
pub fn parse_envelope_point(data: &[u8], pos: usize) -> (r: Decoded<XmEnvelopePoint>)
    requires
        pos <= data@.len(),
    ensures
        agrees(r, envelope_point_at(data@, pos as int)),
        within(r, pos, data@.len()),
{
    let (x, p) = read_le_u16(data, pos)?;
    let (y, p) = read_le_u16(data, p)?;
    Ok((XmEnvelopePoint { frame: x, value: y }, p))
}

/// Decodes `length` envelope points at `pos`.
pub fn parse_envelope_points(
    data: &[u8],
    pos: usize,
    length: usize,
) -> (r: Decoded<Vec<XmEnvelopePoint>>)
    requires
        pos <= data@.len(),
    ensures
        seq_agrees(r, envelope_points_at(data@, pos as int, length as nat)),
        within(r, pos, data@.len()),
{
    let mut points: Vec<XmEnvelopePoint> = Vec::new();
    let mut p: usize = pos;
    let mut i: usize = 0;
    while i < length
        invariant
            i <= length,
            p == pos + 4 * i,
            p <= data@.len(),
            points@ == points_at(data@, pos as int, i as nat),
        decreases length - i,
    {
        let (point, next) = parse_envelope_point(data, p)?;
        points.push(point);
        p = next;
        i = i + 1;
        assert(points@ =~= points_at(data@, pos as int, i as nat));
    }
    Ok((points, p))
}

/// What decoding the envelope type at `pos` gives.
pub open spec fn envelope_type_at(s: Seq<u8>, pos: int) -> Outcome<XmEnvelopeType> {
    if avail(s, pos) < 1 {
        Err(end_error(pos))
    } else {
        Ok((XmEnvelopeType(s[pos]), pos + 1))
    }
}

/// Decodes the envelope type at `pos`.
pub fn parse_envelope_type(data: &[u8], pos: usize) -> (r: Decoded<XmEnvelopeType>)
    requires
        pos <= data@.len(),
    ensures
        agrees(r, envelope_type_at(data@, pos as int)),
        within(r, pos, data@.len()),
{
    let (byte, p) = read_u8(data, pos)?;
    Ok((XmEnvelopeType(byte), p))
}

/// The vibrato waveform that `byte` stands for; `None` from 4 on.
pub open spec fn vibrato_type_of(byte: u8) -> Option<XmVibratoType> {
    if byte == 0 {
        Some(XmVibratoType::Sine)
    } else if byte == 1 {
        Some(XmVibratoType::Square)
    } else if byte == 2 {
        Some(XmVibratoType::RampDown)
    } else if byte == 3 {
        Some(XmVibratoType::RampUp)
    } else {
        None
    }
}

/// What decoding the vibrato waveform at `pos` gives. An unknown waveform
/// is reported at the position behind its byte.
pub open spec fn vibrato_type_at(s: Seq<u8>, pos: int) -> Outcome<XmVibratoType> {
    if avail(s, pos) < 1 {
        Err(end_error(pos))
    } else {
        match vibrato_type_of(s[pos]) {
            Some(kind) => Ok((kind, pos + 1)),
            None => Err(error_at(XmErrorKind::VibratoType, pos + 1)),
        }
    }
}

/// Decodes the vibrato waveform at `pos`.
pub fn parse_vibrato_type(data: &[u8], pos: usize) -> (r: Decoded<XmVibratoType>)
    requires
        pos <= data@.len(),
    ensures
        agrees(r, vibrato_type_at(data@, pos as int)),
        within(r, pos, data@.len()),
{
    let (byte, p) = read_u8(data, pos)?;
    match byte {
        0 => Ok((XmVibratoType::Sine, p)),
        1 => Ok((XmVibratoType::Square, p)),
        2 => Ok((XmVibratoType::RampDown, p)),
        3 => Ok((XmVibratoType::RampUp, p)),
        _ => Err(XmError { kind: XmErrorKind::VibratoType, offset: p }),
    }
}

/// What decoding the vibrato options at `pos` gives: the waveform, then
/// sweep, depth and rate.
pub open spec fn vibrato_opts_at(s: Seq<u8>, pos: int) -> Outcome<XmVibratoOpts> {
    let n = avail(s, pos);
    match vibrato_type_at(s, pos) {
        Err(e) => Err(e),
        Ok((kind, _)) => if n < 4 {
            Err(end_error(pos + n))
        } else {
            Ok((XmVibratoOpts { kind, sweep: s[pos + 1], depth: s[pos + 2], rate: s[pos + 3] }, pos + 4))
        },
    }
}

/// Decodes the vibrato options at `pos`.
pub fn parse_vibrato_opts(data: &[u8], pos: usize) -> (r: Decoded<XmVibratoOpts>)
    requires
        pos <= data@.len(),
    ensures
        agrees(r, vibrato_opts_at(data@, pos as int)),
        within(r, pos, data@.len()),
{
    let (vibrato_type, p) = parse_vibrato_type(data, pos)?;
    let (vibrato_sweep, p) = read_u8(data, p)?;
    let (vibrato_depth, p) = read_u8(data, p)?;
    let (vibrato_rate, p) = read_u8(data, p)?;
    Ok((XmVibratoOpts { kind: vibrato_type, sweep: vibrato_sweep, depth: vibrato_depth, rate: vibrato_rate }, p))
}

/// The first thing wrong with the sample options at `pos`, field by field
/// in the order of the layout; `None` for well-formed ones.
pub open spec fn sample_opts_error(s: Seq<u8>, pos: int) -> Option<XmError> {
    let n = avail(s, pos);
    if n < 4 {
        Some(end_error(pos))
    } else if n < 100 {
        Some(end_error(pos + 4))
    } else if n < 196 {
        Some(end_error(pos + 100 + 2 * ((n - 100) / 2)))
    } else if n < 207 {
        Some(end_error(pos + n))
    } else if vibrato_type_of(s[pos + 206]) is None {
        Some(error_at(XmErrorKind::VibratoType, pos + 207))
    } else if n < 210 {
        Some(end_error(pos + n))
    } else if n < 212 {
        Some(end_error(pos + 210))
    } else if n < 234 {
        Some(end_error(pos + 212))
    } else if s[pos + 196] > 12 || s[pos + 197] > 12 {
        Some(error_at(XmErrorKind::EnvelopePoints, pos + 234))
    } else {
        None
    }
}

/// The envelope made of the first `count` of the points stored at
/// `points_pos`: absent unless `kind` says that it is on, with a sustain
/// point and loop points only where `kind` says so.
pub open spec fn envelope_of(
    s: Seq<u8>,
    points_pos: int,
    count: u8,
    kind: XmEnvelopeType,
    sustain: u8,
    loop_start: u8,
    loop_end: u8,
) -> Option<XmEnvelopeView> {
    if kind.spec_on() {
        Some(
            XmEnvelopeView {
                points: points_at(s, points_pos, count as nat),
                sustain_point: if kind.spec_sustain() {
                    Some(sustain)
                } else {
                    None
                },
                loop_start_point: if kind.spec_loop_() {
                    Some(loop_start)
                } else {
                    None
                },
                loop_end_point: if kind.spec_loop_() {
                    Some(loop_end)
                } else {
                    None
                },
            },
        )
    } else {
        None
    }
}

/// The fields of the sample options stored at `pos`.
pub open spec fn sample_opts_fields(s: Seq<u8>, pos: int) -> XmInstrumentSampleOptsView {
    XmInstrumentSampleOptsView {
        sample_header_size: le_u32_at(s, pos),
        sample_keymap_assignments: s.subrange(pos + 4, pos + 100),
        volume_envelope: envelope_of(
            s,
            pos + 100,
            s[pos + 196],
            XmEnvelopeType(s[pos + 204]),
            s[pos + 198],
            s[pos + 199],
            s[pos + 200],
        ),
        panning_envelope: envelope_of(
            s,
            pos + 148,
            s[pos + 197],
            XmEnvelopeType(s[pos + 205]),
            s[pos + 201],
            s[pos + 202],
            s[pos + 203],
        ),
        vibrato: XmVibratoOpts {
            kind: vibrato_type_of(s[pos + 206])->Some_0,
            sweep: s[pos + 207],
            depth: s[pos + 208],
            rate: s[pos + 209],
        },
        volume_fadeout: le_u16_at(s, pos + 210),
    }
}

/// What decoding the sample options at `pos` gives.
pub open spec fn sample_opts_at(s: Seq<u8>, pos: int) -> Outcome<XmInstrumentSampleOptsView> {
    match sample_opts_error(s, pos) {
        Some(e) => Err(e),
        None => Ok((sample_opts_fields(s, pos), pos + 234)),
    }
}

/// Reads the 96 bytes that assign a sample to each note.
fn read_keymap(data: &[u8], pos: usize) -> (r: Decoded<[u8; 96]>)
    requires
        pos <= data@.len(),
    ensures
        if avail(data@, pos as int) >= 96 {
            r matches Ok((keymap, p)) && p == pos + 96 && keymap@ == data@.subrange(pos as int, pos + 96)
        } else {
            r == Err::<([u8; 96], usize), XmError>(end_error(pos as int))
        },
{
    let end = skip(data, pos, 96)?;
    let mut keymap: [u8; 96] = [0u8; 96];
    let mut i: usize = 0;
    while i < 96
        invariant
            i <= 96,
            end == pos + 96,
            end <= data@.len(),
            forall|j: int| 0 <= j < i ==> keymap@[j] == data@[pos + j],
        decreases 96 - i,
    {
        keymap[i] = data[pos + i];
        i = i + 1;
    }
    assert(keymap@ =~= data@.subrange(pos as int, pos + 96));
    Ok((keymap, end))
}

/// Makes the envelope of the first `count` of `points`, as `kind` says.
fn make_envelope(
    points: Vec<XmEnvelopePoint>,
    count: u8,
    kind: XmEnvelopeType,
    sustain: u8,
    loop_start: u8,
    loop_end: u8,
) -> (r: Option<XmEnvelope>)
    requires
        count <= points@.len(),
    ensures
        envelope_view(r) == (if kind.spec_on() {
            Some(
                XmEnvelopeView {
                    points: points@.subrange(0, count as int),
                    sustain_point: if kind.spec_sustain() {
                        Some(sustain)
                    } else {
                        None
                    },
                    loop_start_point: if kind.spec_loop_() {
                        Some(loop_start)
                    } else {
                        None
                    },
                    loop_end_point: if kind.spec_loop_() {
                        Some(loop_end)
                    } else {
                        None
                    },
                },
            )
        } else {
            None
        }),
{
    let mut points = points;
    points.truncate(count as usize);
    if kind.on() {
        Some(
            XmEnvelope {
                points,
                sustain_point: if kind.sustain() {
                    Some(sustain)
                } else {
                    None
                },
                loop_start_point: if kind.loop_() {
                    Some(loop_start)
                } else {
                    None
                },
                loop_end_point: if kind.loop_() {
                    Some(loop_end)
                } else {
                    None
                },
            },
        )
    } else {
        None
    }
}

/// Decodes the sample options at `pos`.
pub fn parse_instrument_sample_opts(data: &[u8], pos: usize) -> (r: Decoded<XmInstrumentSampleOpts>)
    requires
        pos <= data@.len(),
    ensures
        view_agrees(r, sample_opts_at(data@, pos as int)),
        within(r, pos, data@.len()),
{
    let (sample_header_size, p) = read_le_u32(data, pos)?;
    let (sample_keymap_assignments, p) = read_keymap(data, p)?;
    let (vol_envelope_points, p) = parse_envelope_points(data, p, 12)?;
    let (pan_envelope_points, p) = parse_envelope_points(data, p, 12)?;
    let (vol_points_num, p) = read_u8(data, p)?;
    let (pan_points_num, p) = read_u8(data, p)?;
    let (vol_sustain_point, p) = read_u8(data, p)?;
    let (vol_loop_start_point, p) = read_u8(data, p)?;
    let (vol_loop_end_point, p) = read_u8(data, p)?;
    let (pan_sustain_point, p) = read_u8(data, p)?;
    let (pan_loop_start_point, p) = read_u8(data, p)?;
    let (pan_loop_end_point, p) = read_u8(data, p)?;
    let (vol_type, p) = parse_envelope_type(data, p)?;
    let (pan_type, p) = parse_envelope_type(data, p)?;
    let (vibrato_opts, p) = parse_vibrato_opts(data, p)?;
    let (volume_fadeout, p) = read_le_u16(data, p)?;
    let p = skip(data, p, 22)?;
    if vol_points_num > 12 || pan_points_num > 12 {
        return Err(XmError { kind: XmErrorKind::EnvelopePoints, offset: p });
    }
    proof {
        assert(vol_envelope_points@.subrange(0, vol_points_num as int) =~= points_at(
            data@,
            pos + 100,
            vol_points_num as nat,
        ));
        assert(pan_envelope_points@.subrange(0, pan_points_num as int) =~= points_at(
            data@,
            pos + 148,
            pan_points_num as nat,
        ));
    }
    let volume_envelope = make_envelope(
        vol_envelope_points,
        vol_points_num,
        vol_type,
        vol_sustain_point,
        vol_loop_start_point,
        vol_loop_end_point,
    );
    let panning_envelope = make_envelope(
        pan_envelope_points,
        pan_points_num,
        pan_type,
        pan_sustain_point,
        pan_loop_start_point,
        pan_loop_end_point,
    );
    Ok(
        (
            XmInstrumentSampleOpts {
                sample_header_size,
                sample_keymap_assignments,
                volume_envelope,
                panning_envelope,
                vibrato: vibrato_opts,
                volume_fadeout,
            },
            p,
        ),
    )
}

/// The number of bytes of the fixed layout of the instrument header at
/// `pos`: with the sample options where the instrument has samples.
pub open spec fn instrument_fixed_len(s: Seq<u8>, pos: int) -> int {
    if le_u16_at(s, pos + 27) > 0 {
        263
    } else {
        29
    }
}

/// The number of bytes that the instrument header at `pos` occupies: its
/// declared size, and the fixed layout at least.
pub open spec fn instrument_header_len(s: Seq<u8>, pos: int) -> int {
    if le_u32_at(s, pos) > instrument_fixed_len(s, pos) {
        le_u32_at(s, pos) as int
    } else {
        instrument_fixed_len(s, pos)
    }
}

/// The first thing wrong with the instrument header at `pos`; `None` for a
/// well-formed one.
pub open spec fn instrument_header_error(s: Seq<u8>, pos: int) -> Option<XmError> {
    let n = avail(s, pos);
    if n < 4 {
        Some(end_error(pos))
    } else if text_at(s, pos + 4, 22) is Err {
        Some(text_at(s, pos + 4, 22)->Err_0)
    } else if n < 27 {
        Some(end_error(pos + 26))
    } else if n < 29 {
        Some(end_error(pos + 27))
    } else if le_u16_at(s, pos + 27) > 0 && sample_opts_error(s, pos + 29) is Some {
        sample_opts_error(s, pos + 29)
    } else if n < instrument_header_len(s, pos) {
        Some(end_error(pos + instrument_fixed_len(s, pos)))
    } else {
        None
    }
}

/// The fields of the instrument header stored at `pos`.
pub open spec fn instrument_header_fields(s: Seq<u8>, pos: int) -> XmInstrumentHeaderView {
    XmInstrumentHeaderView {
        header_size: le_u32_at(s, pos),
        name: text_at(s, pos + 4, 22)->Ok_0.0,
        kind: s[pos + 26],
        samples_num: le_u16_at(s, pos + 27),
        sample_opts: if le_u16_at(s, pos + 27) > 0 {
            Some(sample_opts_fields(s, pos + 29))
        } else {
            None
        },
    }
}

/// What decoding the instrument header at `pos` gives: the header, and the
/// position behind the bytes that its declared size covers.
pub open spec fn instrument_header_at(s: Seq<u8>, pos: int) -> Outcome<XmInstrumentHeaderView> {
    match instrument_header_error(s, pos) {
        Some(e) => Err(e),
        None => Ok((instrument_header_fields(s, pos), pos + instrument_header_len(s, pos))),
    }
}

/// Decodes the instrument header at `pos`, and steps over what its
/// declared size holds beyond the fixed layout.
pub fn parse_instrument_header(data: &[u8], pos: usize) -> (r: Decoded<XmInstrumentHeader>)
    requires
        pos <= data@.len(),
    ensures
        view_agrees(r, instrument_header_at(data@, pos as int)),
        within(r, pos, data@.len()),
{
    let (header_size, p) = read_le_u32(data, pos)?;
    let (name, p) = fixed_length_string(data, p, 22)?;
    let (kind, p) = read_u8(data, p)?;
    let (samples_num, p) = read_le_u16(data, p)?;
    let (sample_opts, p) = if samples_num > 0 {
        let (opts, p) = parse_instrument_sample_opts(data, p)?;
        (Some(opts), p)
    } else {
        (None, p)
    };
    let fixed: usize = match sample_opts {
        Some(_) => XM_INSTRUMENT_HEADER_SIZE_W_OPTS,
        None => XM_INSTRUMENT_HEADER_SIZE,
    };
    let p = if header_size as usize > fixed {
        skip(data, p, header_size as usize - fixed)?
    } else {
        p
    };
    Ok((XmInstrumentHeader { header_size, name, kind, samples_num, sample_opts }, p))
}

/// Decoding one sample header, as a function of the input and the
/// position.
pub open spec fn sample_header_item() -> ItemAt<XmSampleHeaderView> {
    |s: Seq<u8>, pos: int| sample_header_at(s, pos)
}

/// What decoding the data of the first `count` of the samples described by
/// `headers` gives, the first at `pos`: each as long and as wide as its
/// header says.
pub open spec fn pcm_all_at(
    s: Seq<u8>,
    pos: int,
    headers: Seq<XmSampleHeaderView>,
    count: nat,
) -> Outcome<Seq<XmSamplePcmView>>
    decreases count,
{
    if count == 0 {
        Ok((Seq::empty(), pos))
    } else {
        match pcm_all_at(s, pos, headers, (count - 1) as nat) {
            Err(e) => Err(e),
            Ok((front, p)) => match pcm_at(
                s,
                p,
                headers[count - 1].length as nat,
                headers[count - 1].kind.spec_depth(),
            ) {
                Err(e) => Err(e),
                Ok((pcm, end)) => Ok((front.push(pcm), end)),
            },
        }
    }
}

/// Once the data of a sample has failed, asking for more of them gives the
/// same error.
pub proof fn lemma_pcm_all_err(
    s: Seq<u8>,
    pos: int,
    headers: Seq<XmSampleHeaderView>,
    k: nat,
    count: nat,
)
    requires
        k <= count,
        pcm_all_at(s, pos, headers, k) is Err,
    ensures
        pcm_all_at(s, pos, headers, count) == pcm_all_at(s, pos, headers, k),
    decreases count,
{
    if k < count {
        lemma_pcm_all_err(s, pos, headers, k, (count - 1) as nat);
    }
}

/// The samples of an instrument: each header with its data.
pub open spec fn zip_samples(headers: Seq<XmSampleHeaderView>, pcm: Seq<XmSamplePcmView>) -> Seq<
    (XmSampleHeaderView, XmSamplePcmView),
> {
    Seq::new(pcm.len(), |i: int| (headers[i], pcm[i]))
}

/// The samples of `v` as mathematical values.
pub open spec fn samples_view(v: Seq<(XmSampleHeader, XmSamplePcmData)>) -> Seq<
    (XmSampleHeaderView, XmSamplePcmView),
> {
    Seq::new(v.len(), |i: int| (v[i].0@, v[i].1@))
}

/// The sample headers of `v` as mathematical values.
pub open spec fn sample_headers_view(v: Seq<XmSampleHeader>) -> Seq<XmSampleHeaderView> {
    Seq::new(v.len(), |i: int| v[i]@)
}

/// What decoding the instrument at `pos` gives: its header and its
/// samples. The headers of all the samples come first, then the data of each
/// in the same order.
pub open spec fn instrument_at(
    s: Seq<u8>,
    pos: int,
) -> Outcome<(XmInstrumentHeaderView, Seq<(XmSampleHeaderView, XmSamplePcmView)>)> {
    match instrument_header_at(s, pos) {
        Err(e) => Err(e),
        Ok((header, p1)) => match repeat_at(sample_header_item(), s, p1, header.samples_num as nat) {
            Err(e) => Err(e),
            Ok((headers, p2)) => match pcm_all_at(s, p2, headers, header.samples_num as nat) {
                Err(e) => Err(e),
                Ok((pcm, end)) => Ok(((header, zip_samples(headers, pcm)), end)),
            },
        },
    }
}

/// Decodes `count` sample headers at `pos`.
fn parse_sample_headers(data: &[u8], pos: usize, count: u16) -> (r: Decoded<Vec<XmSampleHeader>>)
    requires
        pos <= data@.len(),
    ensures
        match repeat_at(sample_header_item(), data@, pos as int, count as nat) {
            Ok((headers, end)) => r matches Ok((v, p)) && sample_headers_view(v@) == headers && p == end
                && v@.len() == count,
            Err(e) => r == Err::<(Vec<XmSampleHeader>, usize), XmError>(e),
        },
        within(r, pos, data@.len()),
{
    let mut headers: Vec<XmSampleHeader> = Vec::new();
    let mut p: usize = pos;
    let mut i: u16 = 0;
    assert(sample_headers_view(headers@) =~= Seq::<XmSampleHeaderView>::empty());
    while i < count
        invariant
            i <= count,
            pos <= p <= data@.len(),
            headers@.len() == i,
            repeat_at(sample_header_item(), data@, pos as int, i as nat) == Ok::<
                (Seq<XmSampleHeaderView>, int),
                XmError,
            >((sample_headers_view(headers@), p as int)),
        decreases count - i,
    {
        let ghost item = sample_header_item();
        assert(item(data@, p as int) == sample_header_at(data@, p as int));
        match parse_sample_header(data, p) {
            Ok((header, next)) => {
                assert(sample_headers_view(headers@.push(header)) =~= sample_headers_view(headers@).push(
                    header@,
                ));
                headers.push(header);
                p = next;
            },
            Err(e) => {
                proof {
                    lemma_repeat_err(item, data@, pos as int, (i + 1) as nat, count as nat);
                }
                return Err(e);
            },
        }
        i = i + 1;
    }
    Ok((headers, p))
}

/// Decodes the instrument at `pos`: its header, then the headers of its
/// samples, then their data.
pub fn parse(
    data: &[u8],
    pos: usize,
) -> (r: Decoded<(XmInstrumentHeader, Vec<(XmSampleHeader, XmSamplePcmData)>)>)
    requires
        pos <= data@.len(),
    ensures
        match instrument_at(data@, pos as int) {
            Ok(((header, samples), end)) => r matches Ok(((h, v), p)) && h@ == header && samples_view(v@)
                == samples && p == end,
            Err(e) => r == Err::<((XmInstrumentHeader, Vec<(XmSampleHeader, XmSamplePcmData)>), usize), XmError>(
                e,
            ),
        },
        within(r, pos, data@.len()),
        r matches Ok(((h, v), _)) ==> v@.len() == h.samples_num,
{
    let (instr_header, input) = parse_instrument_header(data, pos)?;
    if instr_header.samples_num == 0 {
        assert(samples_view(Seq::<(XmSampleHeader, XmSamplePcmData)>::empty()) =~= zip_samples(
            Seq::<XmSampleHeaderView>::empty(),
            Seq::<XmSamplePcmView>::empty(),
        ));
        return Ok(((instr_header, Vec::new()), input));
    }
    let (sample_headers, start) = parse_sample_headers(data, input, instr_header.samples_num)?;
    let ghost headers = sample_headers_view(sample_headers@);
    let ghost count = instr_header.samples_num as nat;
    let mut samples: Vec<(XmSampleHeader, XmSamplePcmData)> = Vec::new();
    let mut p: usize = start;
    let ghost mut pcm: Seq<XmSamplePcmView> = Seq::empty();
    assert(samples_view(samples@) =~= zip_samples(headers, pcm));
    for header in iter: sample_headers.into_iter()
        invariant
            iter.seq().len() == count,
            headers == sample_headers_view(iter.seq()),
            start <= p <= data@.len(),
            pcm.len() == iter.index(),
            samples@.len() == iter.index(),
            pcm_all_at(data@, start as int, headers, iter.index() as nat) == Ok::<
                (Seq<XmSamplePcmView>, int),
                XmError,
            >((pcm, p as int)),
            samples_view(samples@) == zip_samples(headers, pcm),
            instrument_header_at(data@, pos as int) == Ok::<(XmInstrumentHeaderView, int), XmError>(
                (instr_header@, input as int),
            ),
            repeat_at(sample_header_item(), data@, input as int, count) == Ok::<
                (Seq<XmSampleHeaderView>, int),
                XmError,
            >((headers, start as int)),
            count == instr_header.samples_num,
    {
        let ghost k = iter.index();
        assert(headers[k] == header@);
        match decode_dpcm_data(data, p, header.length as usize, header.kind.depth()) {
            Ok((sample_data_entry, next)) => {
                proof {
                    let old_pcm = pcm;
                    let grown = samples@.push((header, sample_data_entry));
                    pcm = pcm.push(sample_data_entry@);
                    assert forall|i: int| 0 <= i < grown.len() implies samples_view(grown)[i]
                        == zip_samples(headers, pcm)[i] by {
                        if i < k {
                            assert(samples_view(samples@)[i] == zip_samples(headers, old_pcm)[i]);
                        }
                    }
                    assert(samples_view(grown) =~= zip_samples(headers, pcm));
                }
                samples.push((header, sample_data_entry));
                p = next;
            },
            Err(e) => {
                proof {
                    lemma_pcm_all_err(data@, start as int, headers, (k + 1) as nat, count);
                }
                return Err(e);
            },
        }
    }
    Ok(((instr_header, samples), p))
}

/// How the amplitude between two samples is filled in.
#[derive(Clone, Copy, Debug, PartialEq, Eq, Structural)]
pub enum XmResamplingType {
    NoInterpolation,
    LinearInterpolation,
}

impl XmResamplingType {
    /// The amplitude at fraction `t` of the way from `v0` to `v1`.
    pub open spec fn amplitude(self, v0: i16, v1: i16, t: u16) -> int {
        match self {
            XmResamplingType::NoInterpolation => NoInterpolation::amplitude(v0, v1, t),
            XmResamplingType::LinearInterpolation => LinearInterpolation::amplitude(v0, v1, t),
        }
    }

    /// The amplitude at fraction `t` of the way from `v0` to `v1`.
    pub fn interpolate(self, v0: i16, v1: i16, t: u16) -> (r: i16)
        ensures
            r == self.amplitude(v0, v1, t),
    {
        match self {
            XmResamplingType::NoInterpolation => NoInterpolation::interpolate(v0, v1, t),
            XmResamplingType::LinearInterpolation => LinearInterpolation::interpolate(v0, v1, t),
        }
    }
}

impl XmSamplePcmView {
    /// The amplitude of sample `i` on the scale of 16 bits: a sample of 8
    /// bits counts 256 times its value.
    pub open spec fn amplitude(self, i: int) -> i16 {
        match self {
            XmSamplePcmView::Bit8Data(v) => (v[i] * 256) as i16,
            XmSamplePcmView::Bit16Data(v) => v[i],
        }
    }

    /// Read backwards, a straight line gives the amplitude that it gives
    /// read forwards.
    pub proof fn lemma_linear_reads_alike(self, position: u64)
        ensures
            self.interpolated(position, true, XmResamplingType::LinearInterpolation) == self.interpolated(
                position,
                false,
                XmResamplingType::LinearInterpolation,
            ),
    {
        let i = position as int / 65536;
        let t = position as int % 65536;
        if i < self.len() && t > 0 {
            let a = self.amplitude(i);
            let b = if i + 1 < self.len() {
                self.amplitude(i + 1)
            } else {
                a
            };
            let d = b - a;
            assert((65536 - t) * (a - b) == t * d - 65536 * d) by (nonlinear_arith)
                requires
                    d == b - a,
            ;
            assert((t * d - 65536 * d) / 65536 == (t * d) / 65536 - d);
        }
    }

    /// The amplitude at `position`, which counts samples in units of
    /// 1/65536. The position lies between the sample it has reached and the
    /// next one, the last sample standing for what would follow it. Read
    /// forwards, the amplitude is taken on the way from the first of the two
    /// to the second; read backwards, on the way from the second to the
    /// first, by the fraction that is left. There is none behind the data.
    pub open spec fn interpolated(
        self,
        position: u64,
        reversed: bool,
        kind: XmResamplingType,
    ) -> Option<
        i16,
    > {
        let i = position as int / 65536;
        let t = position as int % 65536;
        if i >= self.len() {
            None
        } else {
            let a = self.amplitude(i);
            let b = if i + 1 < self.len() {
                self.amplitude(i + 1)
            } else {
                a
            };
            if reversed && t > 0 {
                Some(kind.amplitude(b, a, (65536 - t) as u16) as i16)
            } else {
                Some(kind.amplitude(a, b, t as u16) as i16)
            }
        }
    }
}

impl XmSamplePcmData {
    /// The number of samples.
    pub fn len(&self) -> (n: usize)
        ensures
            n == self@.len(),
    {
        match self {
            XmSamplePcmData::Bit8Data(v) => v.len(),
            XmSamplePcmData::Bit16Data(v) => v.len(),
        }
    }

    /// The amplitude of sample `index` on the scale of 16 bits.
    pub fn get(&self, index: usize) -> (r: Option<i16>)
        ensures
            index < self@.len() ==> r == Some(self@.amplitude(index as int)),
            index >= self@.len() ==> r.is_none(),
    {
        match self {
            XmSamplePcmData::Bit8Data(v) => if index < v.len() {
                Some(v[index] as i16 * 256)
            } else {
                None
            },
            XmSamplePcmData::Bit16Data(v) => if index < v.len() {
                Some(v[index])
            } else {
                None
            },
        }
    }

    /// The amplitude at `position`, read forwards or backwards.
    pub fn get_interpolated(
        &self,
        position: u64,
        reversed: bool,
        kind: XmResamplingType,
    ) -> (r: Option<i16>)
        ensures
            r == self@.interpolated(position, reversed, kind),
    {
        let index: u64 = position / 65536;
        let t: u16 = (position % 65536) as u16;
        let len = self.len();
        if index >= len as u64 {
            return None;
        }
        let i: usize = index as usize;
        let a = match self.get(i) {
            Some(a) => a,
            None => {
                return None;
            },
        };
        let b = if i + 1 < len {
            match self.get(i + 1) {
                Some(b) => b,
                None => a,
            }
        } else {
            a
        };
        if reversed && t > 0 {
            Some(kind.interpolate(b, a, (65536 - t as u32) as u16))
        } else {
            Some(kind.interpolate(a, b, t))
        }
    }
}

} // verus!
