//! Effect commands and the volume column.

use vstd::prelude::*;
use vstd::string::*;
use crate::bytes::{agrees, avail, Decoded, end_error, Outcome, read_u8};
use crate::digits::{decimal2, hex1, hex2, push_decimal2, push_hex1, push_hex2};
use crate::error::{error_at, XmError, XmErrorKind};

verus! {

/// One byte that holds two 4-bit values: `x` in the high half, `y` in the
/// low half.
#[derive(Clone, Copy, Debug, PartialEq, Eq, Structural)]
pub struct DoubleU4(pub u8);

/// An effect command with its argument.
#[derive(Clone, Copy, Debug, PartialEq, Eq, Structural)]
pub enum XmEffect {
    /// Command `0x00`, shown as `0xy`.
    Arpeggio(DoubleU4),
    /// Command `0x01`, shown as `1xx`.
    PortamentoUp(u8),
    /// Command `0x02`, shown as `2xx`.
    PortamentoDown(u8),
    /// Command `0x03`, shown as `3xx`.
    TonePortamento(u8),
    /// Command `0x04`, shown as `4xy`.
    Vibrato(DoubleU4),
    /// Command `0x05`, shown as `5xy`.
    VolumeSlideTonePortamento(DoubleU4),
    /// Command `0x06`, shown as `6xy`.
    VolumeSlideVibrato(DoubleU4),
    /// Command `0x07`, shown as `7xy`.
    Tremolo(DoubleU4),
    /// Command `0x08`, shown as `8xx`.
    SetPanningFine(u8),
    /// Command `0x09`, shown as `9xx`.
    SampleOffset(u8),
    /// Command `0x0A`, shown as `Axy`.
    VolumeSlide(DoubleU4),
    /// Command `0x0B`, shown as `Bxx`.
    PositionJump(u8),
    /// Command `0x0C`, shown as `Cxx`.
    SetVolume(u8),
    /// Command `0x0D`, shown as `Dxx`.
    PatternBreak(u8),
    /// Command `0x0E`, sub-effect `1`, shown as `E1x`.
    FinePortamentoUp(u8),
    /// Command `0x0E`, sub-effect `2`, shown as `E2x`.
    FinePortamentoDown(u8),
    /// Command `0x0E`, sub-effect `3`, shown as `E3x`.
    GlissandoControl(u8),
    /// Command `0x0E`, sub-effect `4`, shown as `E4x`.
    SetVibratoWaveform(u8),
    /// Command `0x0E`, sub-effect `5`, shown as `E5x`.
    SetFinetune(u8),
    /// Command `0x0E`, parameter `0x60`, shown as `E60`.
    PatternLoopStart,
    /// Command `0x0E`, sub-effect `6`, shown as `E6x`.
    PatternLoop(u8),
    /// Command `0x0E`, sub-effect `7`, shown as `E7x`.
    SetTremoloWaveform(u8),
    /// Command `0x0E`, sub-effect `8`, shown as `E8x`.
    SetPanning(u8),
    /// Command `0x0E`, sub-effect `9`, shown as `E9x`.
    Retrigger(u8),
    /// Command `0x0E`, sub-effect `A`, shown as `EAx`.
    FineVolumeSlideUp(u8),
    /// Command `0x0E`, sub-effect `B`, shown as `EBx`.
    FineVolumeSlideDown(u8),
    /// Command `0x0E`, sub-effect `C`, shown as `ECx`.
    NoteCut(u8),
    /// Command `0x0E`, sub-effect `D`, shown as `EDx`.
    NoteDelay(u8),
    /// Command `0x0E`, sub-effect `E`, shown as `EEx`.
    PatternDelay(u8),
    /// Command `0x0E`, sub-effect `F`, shown as `EFx`.
    SetActiveMacro(u8),
    /// Command `0x0F`, shown as `Fxx`.
    SetTempo(u8),
    /// Command `0x10`, shown as `Gxx`.
    SetGlobalVolume(u8),
    /// Command `0x11`, shown as `Hxy`.
    GlobalVolumeSlide(DoubleU4),
    /// Command `0x14`, shown as `Kxx`.
    KeyOff(u8),
    /// Command `0x15`, shown as `Lxx`.
    SetEnvelopePosition(u8),
    /// Command `0x19`, shown as `Pxy`.
    PanningSlide(DoubleU4),
    /// Command `0x1B`, shown as `Rxy`.
    RetriggerWithVolume(DoubleU4),
    /// Command `0x1D`, shown as `Txy`.
    Tremor(DoubleU4),
    /// Command `0x21`, sub-effect `1`, shown as `X1x`.
    ExtraFinePortamentoUp(u8),
    /// Command `0x21`, sub-effect `2`, shown as `X2x`.
    ExtraFinePortamentoDown(u8),
    /// Command `0x21`, sub-effect `5`, shown as `X5x`.
    SetPanbrelloWaveform(u8),
    /// Command `0x21`, sub-effect `6`, shown as `X6x`.
    FinePatternDelay(u8),
    /// Command `0x21`, sub-effect `9`, shown as `X9x`.
    SoundControl(u8),
    /// Command `0x21`, sub-effect `A`, shown as `XAx`.
    HighOffset(u8),
    /// Command `0x22`, shown as `Yxy`.
    Panbrello(DoubleU4),
    /// Command `0x23`, shown as `Zxx`.
    MidiMacro(u8),
    /// Command `0x24`, shown as `\\xx`.
    SmoothMidiMacro(u8),
}

impl DoubleU4 {
    /// The first of the two values: the high four bits.
    pub open spec fn spec_x(&self) -> u8 {
        self.0 / 16
    }

    /// The second of the two values: the low four bits.
    pub open spec fn spec_y(&self) -> u8 {
        self.0 % 16
    }

    /// The value with both halves zero.
    pub fn new() -> (r: Self)
        ensures
            r == DoubleU4(0),
    {
        DoubleU4(0)
    }

    pub fn with_x(self, value: u8) -> (r: Self)
        requires
            value < 16,
        ensures
            r == DoubleU4((value * 16 + self.0 % 16) as u8),
            r.spec_x() == value,
            r.spec_y() == self.spec_y(),
    {
        let b: u8 = self.0;
        assert((b & 0b1111u8) | (value << 4u8) == value * 16 + b % 16) by (bit_vector)
            requires
                value < 16,
        ;
        DoubleU4((b & 0b1111) | (value << 4))
    }

    pub fn set_x(&mut self, value: u8)
        requires
            value < 16,
        ensures
            *final(self) == DoubleU4((value * 16 + old(self).0 % 16) as u8),
    {
        *self = self.with_x(value);
    }

    pub fn with_y(self, value: u8) -> (r: Self)
        requires
            value < 16,
        ensures
            r == DoubleU4((self.0 / 16 * 16 + value) as u8),
            r.spec_x() == self.spec_x(),
            r.spec_y() == value,
    {
        let b: u8 = self.0;
        assert((b & 0b1111_0000u8) | value == b / 16 * 16 + value) by (bit_vector)
            requires
                value < 16,
        ;
        DoubleU4((b & 0b1111_0000) | value)
    }

    pub fn set_y(&mut self, value: u8)
        requires
            value < 16,
        ensures
            *final(self) == DoubleU4((old(self).0 / 16 * 16 + value) as u8),
    {
        *self = self.with_y(value);
    }

    pub fn from_bits(bits: u8) -> (r: Self)
        ensures
            r == DoubleU4(bits),
    {
        DoubleU4(bits)
    }

    pub fn into_bits(self) -> (bits: u8)
        ensures
            bits == self.0,
    {
        self.0
    }

    /// The first of the two values.
    #[verifier::when_used_as_spec(spec_x)]
    pub fn x(&self) -> (v: u8)
        ensures
            v == self.spec_x(),
            v < 16,
    {
        let b: u8 = self.0;
        assert(b >> 4 == b / 16) by (bit_vector);
        b >> 4
    }

    /// The second of the two values.
    #[verifier::when_used_as_spec(spec_y)]
    pub fn y(&self) -> (v: u8)
        ensures
            v == self.spec_y(),
            v < 16,
    {
        let b: u8 = self.0;
        assert(b & 0b1111 == b % 16) by (bit_vector);
        b & 0b1111
    }
}

/// The effect of command `0x0E`, whose parameter names a sub-effect in its
/// high half and carries the argument in its low half.
pub open spec fn effect_e_of(parameter: u8) -> Option<XmEffect> {
    let sub = parameter / 16;
    let arg = parameter % 16;
    if sub == 0x1 {
        Some(XmEffect::FinePortamentoUp(arg))
    } else if sub == 0x2 {
        Some(XmEffect::FinePortamentoDown(arg))
    } else if sub == 0x3 {
        Some(XmEffect::GlissandoControl(arg))
    } else if sub == 0x4 {
        Some(XmEffect::SetVibratoWaveform(arg))
    } else if sub == 0x5 {
        Some(XmEffect::SetFinetune(arg))
    } else if parameter == 0x60 {
        Some(XmEffect::PatternLoopStart)
    } else if sub == 0x6 {
        Some(XmEffect::PatternLoop(arg))
    } else if sub == 0x7 {
        Some(XmEffect::SetTremoloWaveform(arg))
    } else if sub == 0x8 {
        Some(XmEffect::SetPanning(arg))
    } else if sub == 0x9 {
        Some(XmEffect::Retrigger(arg))
    } else if sub == 0xa {
        Some(XmEffect::FineVolumeSlideUp(arg))
    } else if sub == 0xb {
        Some(XmEffect::FineVolumeSlideDown(arg))
    } else if sub == 0xc {
        Some(XmEffect::NoteCut(arg))
    } else if sub == 0xd {
        Some(XmEffect::NoteDelay(arg))
    } else if sub == 0xe {
        Some(XmEffect::PatternDelay(arg))
    } else if sub == 0xf {
        Some(XmEffect::SetActiveMacro(arg))
    } else {
        None
    }
}

/// The effect of command `0x21`, laid out as that of `0x0E`.
pub open spec fn effect_x_of(parameter: u8) -> Option<XmEffect> {
    let sub = parameter / 16;
    let arg = parameter % 16;
    if sub == 0x1 {
        Some(XmEffect::ExtraFinePortamentoUp(arg))
    } else if sub == 0x2 {
        Some(XmEffect::ExtraFinePortamentoDown(arg))
    } else if sub == 0x5 {
        Some(XmEffect::SetPanbrelloWaveform(arg))
    } else if sub == 0x6 {
        Some(XmEffect::FinePatternDelay(arg))
    } else if sub == 0x9 {
        Some(XmEffect::SoundControl(arg))
    } else if sub == 0xa {
        Some(XmEffect::HighOffset(arg))
    } else {
        None
    }
}

/// The effect that a command byte and a parameter byte stand for; `None`
/// where the command, or its sub-effect, is not one of the known ones.
pub open spec fn effect_of(command: u8, parameter: u8) -> Option<XmEffect> {
    if command == 0x00 {
        Some(XmEffect::Arpeggio(DoubleU4(parameter)))
    } else if command == 0x01 {
        Some(XmEffect::PortamentoUp(parameter))
    } else if command == 0x02 {
        Some(XmEffect::PortamentoDown(parameter))
    } else if command == 0x03 {
        Some(XmEffect::TonePortamento(parameter))
    } else if command == 0x04 {
        Some(XmEffect::Vibrato(DoubleU4(parameter)))
    } else if command == 0x05 {
        Some(XmEffect::VolumeSlideTonePortamento(DoubleU4(parameter)))
    } else if command == 0x06 {
        Some(XmEffect::VolumeSlideVibrato(DoubleU4(parameter)))
    } else if command == 0x07 {
        Some(XmEffect::Tremolo(DoubleU4(parameter)))
    } else if command == 0x08 {
        Some(XmEffect::SetPanningFine(parameter))
    } else if command == 0x09 {
        Some(XmEffect::SampleOffset(parameter))
    } else if command == 0x0a {
        Some(XmEffect::VolumeSlide(DoubleU4(parameter)))
    } else if command == 0x0b {
        Some(XmEffect::PositionJump(parameter))
    } else if command == 0x0c {
        Some(XmEffect::SetVolume(parameter))
    } else if command == 0x0d {
        Some(XmEffect::PatternBreak(parameter))
    } else if command == 0x0e {
        effect_e_of(parameter)
    } else if command == 0x0f {
        Some(XmEffect::SetTempo(parameter))
    } else if command == 0x10 {
        Some(XmEffect::SetGlobalVolume(parameter))
    } else if command == 0x11 {
        Some(XmEffect::GlobalVolumeSlide(DoubleU4(parameter)))
    } else if command == 0x14 {
        Some(XmEffect::KeyOff(parameter))
    } else if command == 0x15 {
        Some(XmEffect::SetEnvelopePosition(parameter))
    } else if command == 0x19 {
        Some(XmEffect::PanningSlide(DoubleU4(parameter)))
    } else if command == 0x1b {
        Some(XmEffect::RetriggerWithVolume(DoubleU4(parameter)))
    } else if command == 0x1d {
        Some(XmEffect::Tremor(DoubleU4(parameter)))
    } else if command == 0x21 {
        effect_x_of(parameter)
    } else if command == 0x22 {
        Some(XmEffect::Panbrello(DoubleU4(parameter)))
    } else if command == 0x23 {
        Some(XmEffect::MidiMacro(parameter))
    } else if command == 0x24 {
        Some(XmEffect::SmoothMidiMacro(parameter))
    } else {
        None
    }
}

/// The two bytes of the effect stored at `pos`, a byte that is not stored
/// counting as zero; `None` where neither is stored.
pub open spec fn effect_bytes(s: Seq<u8>, pos: int, has_type: bool, has_parameter: bool) -> Option<
    (u8, u8),
> {
    if has_type && has_parameter {
        Some((s[pos], s[pos + 1]))
    } else if has_type {
        Some((s[pos], 0u8))
    } else if has_parameter {
        Some((0u8, s[pos]))
    } else {
        None
    }
}

/// The number of bytes that the effect occupies.
pub open spec fn effect_len(has_type: bool, has_parameter: bool) -> int {
    (if has_type { 1int } else { 0int }) + (if has_parameter { 1int } else { 0int })
}

/// What decoding the effect at `pos` gives. An input that ends early is
/// reported at the missing byte, an unknown effect at `pos`.
pub open spec fn effect_at(
    s: Seq<u8>,
    pos: int,
    has_type: bool,
    has_parameter: bool,
) -> Outcome<Option<XmEffect>> {
    let n = effect_len(has_type, has_parameter);
    if avail(s, pos) < n {
        Err(end_error(if avail(s, pos) < 1 { pos } else { pos + 1 }))
    } else {
        match effect_bytes(s, pos, has_type, has_parameter) {
            None => Ok((None, pos)),
            Some((command, parameter)) => match effect_of(command, parameter) {
                Some(effect) => Ok((Some(effect), pos + n)),
                None => Err(error_at(XmErrorKind::Effect, pos)),
            },
        }
    }
}

/// The effect that is decoded depends on nothing but the bytes that are
/// stored for it and on which of them are stored: the same bytes at another
/// place, or in another input, give the same effect.
pub proof fn lemma_effect_depends_on_its_bytes(
    s1: Seq<u8>,
    pos1: int,
    s2: Seq<u8>,
    pos2: int,
    has_type: bool,
    has_parameter: bool,
)
    requires
        avail(s1, pos1) >= effect_len(has_type, has_parameter),
        avail(s2, pos2) >= effect_len(has_type, has_parameter),
        effect_bytes(s1, pos1, has_type, has_parameter) == effect_bytes(s2, pos2, has_type, has_parameter),
    ensures
        effect_at(s1, pos1, has_type, has_parameter) is Ok <==> effect_at(s2, pos2, has_type, has_parameter)
            is Ok,
        effect_at(s1, pos1, has_type, has_parameter) matches Ok((e1, _)) ==> effect_at(
            s2,
            pos2,
            has_type,
            has_parameter,
        ) matches Ok((e2, _)) && e1 == e2,
{
}

/// Classifies a command byte and its parameter byte.
pub fn effect_from_bytes(command: u8, parameter: u8) -> (r: Option<XmEffect>)
    ensures
        r == effect_of(command, parameter),
{
    let high_ord_nibble_param: u8 = parameter >> 4;
    assert(parameter >> 4 == parameter / 16) by (bit_vector);
    assert(parameter & 0b1111 == parameter % 16) by (bit_vector);
    match (command, parameter, high_ord_nibble_param) {
        (0x00, a, _) => Some(XmEffect::Arpeggio(DoubleU4(a))),
        (0x01, a, _) => Some(XmEffect::PortamentoUp(a)),
        (0x02, a, _) => Some(XmEffect::PortamentoDown(a)),
        (0x03, a, _) => Some(XmEffect::TonePortamento(a)),
        (0x04, a, _) => Some(XmEffect::Vibrato(DoubleU4(a))),
        (0x05, a, _) => Some(XmEffect::VolumeSlideTonePortamento(DoubleU4(a))),
        (0x06, a, _) => Some(XmEffect::VolumeSlideVibrato(DoubleU4(a))),
        (0x07, a, _) => Some(XmEffect::Tremolo(DoubleU4(a))),
        (0x08, a, _) => Some(XmEffect::SetPanningFine(a)),
        (0x09, a, _) => Some(XmEffect::SampleOffset(a)),
        (0x0a, a, _) => Some(XmEffect::VolumeSlide(DoubleU4(a))),
        (0x0b, a, _) => Some(XmEffect::PositionJump(a)),
        (0x0c, a, _) => Some(XmEffect::SetVolume(a)),
        (0x0d, a, _) => Some(XmEffect::PatternBreak(a)),
        (0x0e, a, 0x1) => Some(XmEffect::FinePortamentoUp(a & 0b1111)),
        (0x0e, a, 0x2) => Some(XmEffect::FinePortamentoDown(a & 0b1111)),
        (0x0e, a, 0x3) => Some(XmEffect::GlissandoControl(a & 0b1111)),
        (0x0e, a, 0x4) => Some(XmEffect::SetVibratoWaveform(a & 0b1111)),
        (0x0e, a, 0x5) => Some(XmEffect::SetFinetune(a & 0b1111)),
        (0x0e, 0x60, _) => Some(XmEffect::PatternLoopStart),
        (0x0e, a, 0x6) => Some(XmEffect::PatternLoop(a & 0b1111)),
        (0x0e, a, 0x7) => Some(XmEffect::SetTremoloWaveform(a & 0b1111)),
        (0x0e, a, 0x8) => Some(XmEffect::SetPanning(a & 0b1111)),
        (0x0e, a, 0x9) => Some(XmEffect::Retrigger(a & 0b1111)),
        (0x0e, a, 0xa) => Some(XmEffect::FineVolumeSlideUp(a & 0b1111)),
        (0x0e, a, 0xb) => Some(XmEffect::FineVolumeSlideDown(a & 0b1111)),
        (0x0e, a, 0xc) => Some(XmEffect::NoteCut(a & 0b1111)),
        (0x0e, a, 0xd) => Some(XmEffect::NoteDelay(a & 0b1111)),
        (0x0e, a, 0xe) => Some(XmEffect::PatternDelay(a & 0b1111)),
        (0x0e, a, 0xf) => Some(XmEffect::SetActiveMacro(a & 0b1111)),
        (0x0f, a, _) => Some(XmEffect::SetTempo(a)),
        (0x10, a, _) => Some(XmEffect::SetGlobalVolume(a)),
        (0x11, a, _) => Some(XmEffect::GlobalVolumeSlide(DoubleU4(a))),
        (0x14, a, _) => Some(XmEffect::KeyOff(a)),
        (0x15, a, _) => Some(XmEffect::SetEnvelopePosition(a)),
        (0x19, a, _) => Some(XmEffect::PanningSlide(DoubleU4(a))),
        (0x1b, a, _) => Some(XmEffect::RetriggerWithVolume(DoubleU4(a))),
        (0x1d, a, _) => Some(XmEffect::Tremor(DoubleU4(a))),
        (0x21, a, 0x1) => Some(XmEffect::ExtraFinePortamentoUp(a & 0b1111)),
        (0x21, a, 0x2) => Some(XmEffect::ExtraFinePortamentoDown(a & 0b1111)),
        (0x21, a, 0x5) => Some(XmEffect::SetPanbrelloWaveform(a & 0b1111)),
        (0x21, a, 0x6) => Some(XmEffect::FinePatternDelay(a & 0b1111)),
        (0x21, a, 0x9) => Some(XmEffect::SoundControl(a & 0b1111)),
        (0x21, a, 0xa) => Some(XmEffect::HighOffset(a & 0b1111)),
        (0x22, a, _) => Some(XmEffect::Panbrello(DoubleU4(a))),
        (0x23, a, _) => Some(XmEffect::MidiMacro(a)),
        (0x24, a, _) => Some(XmEffect::SmoothMidiMacro(a)),
        (_, _, _) => None,
    }
}

/// Decodes the effect at `pos`, of which the command byte, the parameter
/// byte, both or neither are stored.
pub fn parse_effect(
    data: &[u8],
    pos: usize,
    effect_type_follows: bool,
    effect_parameter_follows: bool,
) -> (r: Decoded<Option<XmEffect>>)
    requires
        pos <= data@.len(),
    ensures
        agrees(r, effect_at(data@, pos as int, effect_type_follows, effect_parameter_follows)),
{
    let mut p: usize = pos;
    let mut command: Option<u8> = None;
    let mut parameter: Option<u8> = None;
    if effect_type_follows {
        let (c, next) = read_u8(data, p)?;
        command = Some(c);
        p = next;
    }
    if effect_parameter_follows {
        let (c, next) = read_u8(data, p)?;
        parameter = Some(c);
        p = next;
    }
    let (command, parameter): (u8, u8) = match (command, parameter) {
        (Some(c), Some(a)) => (c, a),
        (Some(c), None) => (c, 0),
        (None, Some(a)) => (0, a),
        (None, None) => {
            return Ok((None, p));
        },
    };
    match effect_from_bytes(command, parameter) {
        Some(effect) => Ok((Some(effect), p)),
        None => Err(XmError { kind: XmErrorKind::Effect, offset: pos }),
    }
}

/// The value of the volume column of a slot, as stored.
#[derive(Clone, Copy, Debug, PartialEq, Eq, Structural)]
pub struct XmVolumeColumn(pub u8);

/// What a volume column value asks for.
#[derive(Clone, Copy, Debug, PartialEq, Eq, Structural)]
pub enum XmVolumeColumnCommand {
    SetVolume,
    VolumeSlideUp,
    VolumeSlideDown,
    FineVolumeDown,
    FineVolumeUp,
    VibratoSpeed,
    VibratoDepth,
    SetPanning,
    PanSlideLeft,
    PanSlideRight,
    TonePortamento,
    Unknown,
}

/// The command that the high half `value` of a volume column byte selects.
pub open spec fn volume_command_of(value: u8) -> XmVolumeColumnCommand {
    if value <= 0x5 {
        XmVolumeColumnCommand::SetVolume
    } else if value == 0x6 {
        XmVolumeColumnCommand::VolumeSlideDown
    } else if value == 0x7 {
        XmVolumeColumnCommand::VolumeSlideUp
    } else if value == 0x8 {
        XmVolumeColumnCommand::FineVolumeDown
    } else if value == 0x9 {
        XmVolumeColumnCommand::FineVolumeUp
    } else if value == 0xa {
        XmVolumeColumnCommand::VibratoSpeed
    } else if value == 0xb {
        XmVolumeColumnCommand::VibratoDepth
    } else if value == 0xc {
        XmVolumeColumnCommand::SetPanning
    } else if value == 0xd {
        XmVolumeColumnCommand::PanSlideLeft
    } else if value == 0xe {
        XmVolumeColumnCommand::PanSlideRight
    } else if value == 0xf {
        XmVolumeColumnCommand::TonePortamento
    } else {
        XmVolumeColumnCommand::Unknown
    }
}

impl XmVolumeColumnCommand {
    /// The place of the command among the commands.
    pub open spec fn bits(self) -> u8 {
        match self {
            XmVolumeColumnCommand::SetVolume => 0,
            XmVolumeColumnCommand::VolumeSlideUp => 1,
            XmVolumeColumnCommand::VolumeSlideDown => 2,
            XmVolumeColumnCommand::FineVolumeDown => 3,
            XmVolumeColumnCommand::FineVolumeUp => 4,
            XmVolumeColumnCommand::VibratoSpeed => 5,
            XmVolumeColumnCommand::VibratoDepth => 6,
            XmVolumeColumnCommand::SetPanning => 7,
            XmVolumeColumnCommand::PanSlideLeft => 8,
            XmVolumeColumnCommand::PanSlideRight => 9,
            XmVolumeColumnCommand::TonePortamento => 10,
            XmVolumeColumnCommand::Unknown => 11,
        }
    }

    /// The letter that stands for the command.
    pub open spec fn text(&self) -> Seq<char> {
        match self {
            XmVolumeColumnCommand::SetVolume => "v"@,
            XmVolumeColumnCommand::VolumeSlideUp => "c"@,
            XmVolumeColumnCommand::VolumeSlideDown => "d"@,
            XmVolumeColumnCommand::FineVolumeDown => "b"@,
            XmVolumeColumnCommand::FineVolumeUp => "a"@,
            XmVolumeColumnCommand::VibratoSpeed => "u"@,
            XmVolumeColumnCommand::VibratoDepth => "h"@,
            XmVolumeColumnCommand::SetPanning => "p"@,
            XmVolumeColumnCommand::PanSlideLeft => "l"@,
            XmVolumeColumnCommand::PanSlideRight => "r"@,
            XmVolumeColumnCommand::TonePortamento => "g"@,
            XmVolumeColumnCommand::Unknown => "_"@,
        }
    }

    pub fn into_bits(self) -> (bits: u8)
        ensures
            bits == self.bits(),
    {
        match self {
            XmVolumeColumnCommand::SetVolume => 0,
            XmVolumeColumnCommand::VolumeSlideUp => 1,
            XmVolumeColumnCommand::VolumeSlideDown => 2,
            XmVolumeColumnCommand::FineVolumeDown => 3,
            XmVolumeColumnCommand::FineVolumeUp => 4,
            XmVolumeColumnCommand::VibratoSpeed => 5,
            XmVolumeColumnCommand::VibratoDepth => 6,
            XmVolumeColumnCommand::SetPanning => 7,
            XmVolumeColumnCommand::PanSlideLeft => 8,
            XmVolumeColumnCommand::PanSlideRight => 9,
            XmVolumeColumnCommand::TonePortamento => 10,
            XmVolumeColumnCommand::Unknown => 11,
        }
    }

    pub fn from_bits(value: u8) -> (r: Self)
        ensures
            r == volume_command_of(value),
            value < 16 ==> r != XmVolumeColumnCommand::Unknown,
    {
        match value {
            0x0..=0x5 => XmVolumeColumnCommand::SetVolume,
            0x6 => XmVolumeColumnCommand::VolumeSlideDown,
            0x7 => XmVolumeColumnCommand::VolumeSlideUp,
            0x8 => XmVolumeColumnCommand::FineVolumeDown,
            0x9 => XmVolumeColumnCommand::FineVolumeUp,
            0xa => XmVolumeColumnCommand::VibratoSpeed,
            0xb => XmVolumeColumnCommand::VibratoDepth,
            0xc => XmVolumeColumnCommand::SetPanning,
            0xd => XmVolumeColumnCommand::PanSlideLeft,
            0xe => XmVolumeColumnCommand::PanSlideRight,
            0xf => XmVolumeColumnCommand::TonePortamento,
            _ => XmVolumeColumnCommand::Unknown,
        }
    }

    /// The letter that stands for the command.
    pub fn to_text(&self) -> (r: String)
        ensures
            r@ == self.text(),
    {
        String::from_str(
            match self {
                XmVolumeColumnCommand::SetVolume => "v",
                XmVolumeColumnCommand::VolumeSlideUp => "c",
                XmVolumeColumnCommand::VolumeSlideDown => "d",
                XmVolumeColumnCommand::FineVolumeDown => "b",
                XmVolumeColumnCommand::FineVolumeUp => "a",
                XmVolumeColumnCommand::VibratoSpeed => "u",
                XmVolumeColumnCommand::VibratoDepth => "h",
                XmVolumeColumnCommand::SetPanning => "p",
                XmVolumeColumnCommand::PanSlideLeft => "l",
                XmVolumeColumnCommand::PanSlideRight => "r",
                XmVolumeColumnCommand::TonePortamento => "g",
                XmVolumeColumnCommand::Unknown => "_",
            },
        )
    }
}

impl XmVolumeColumn {
    /// The high half of the stored byte.
    pub open spec fn spec_command_raw(&self) -> u8 {
        self.0 / 16
    }

    /// The command that the stored byte selects.
    pub open spec fn spec_command(&self) -> XmVolumeColumnCommand {
        volume_command_of(self.0 / 16)
    }

    /// The argument of the command. A volume is counted from the first
    /// set-volume byte, `0x10`, and wraps below it; a panning position is
    /// spread over the range of a byte; every other command has the low
    /// half of the byte.
    pub open spec fn spec_argument(&self) -> u8 {
        match self.spec_command() {
            XmVolumeColumnCommand::SetVolume => if self.0 >= 16 {
                (self.0 - 16) as u8
            } else {
                (self.0 + 240) as u8
            },
            XmVolumeColumnCommand::SetPanning => (2 + (self.0 % 16) * 4) as u8,
            _ => self.0 % 16,
        }
    }

    /// The command letter, then the argument in decimal.
    pub open spec fn text(&self) -> Seq<char> {
        self.spec_command().text() + decimal2(self.spec_argument())
    }

    pub fn new(v: u8) -> (r: Self)
        ensures
            r == XmVolumeColumn(v),
    {
        Self(v)
    }

    #[verifier::when_used_as_spec(spec_argument)]
    pub fn argument(&self) -> (r: u8)
        ensures
            r == self.spec_argument(),
    {
        let b: u8 = self.0;
        assert(b & 0b0000_1111 == b % 16) by (bit_vector);
        let value: u8 = b & 0b0000_1111;
        match self.command() {
            XmVolumeColumnCommand::SetVolume => b.wrapping_sub(0x10),
            XmVolumeColumnCommand::VolumeSlideDown => value,
            XmVolumeColumnCommand::VolumeSlideUp => value,
            XmVolumeColumnCommand::FineVolumeDown => value,
            XmVolumeColumnCommand::FineVolumeUp => value,
            XmVolumeColumnCommand::VibratoSpeed => value,
            XmVolumeColumnCommand::VibratoDepth => value,
            XmVolumeColumnCommand::SetPanning => 2 + value * 4,
            XmVolumeColumnCommand::PanSlideLeft => value,
            XmVolumeColumnCommand::PanSlideRight => value,
            XmVolumeColumnCommand::TonePortamento => value,
            XmVolumeColumnCommand::Unknown => value,
        }
    }

    #[verifier::when_used_as_spec(spec_command)]
    pub fn command(&self) -> (r: XmVolumeColumnCommand)
        ensures
            r == self.spec_command(),
            r != XmVolumeColumnCommand::Unknown,
    {
        XmVolumeColumnCommand::from_bits(self.command_raw())
    }

    #[verifier::when_used_as_spec(spec_command_raw)]
    pub fn command_raw(&self) -> (r: u8)
        ensures
            r == self.spec_command_raw(),
            r < 16,
    {
        let b: u8 = self.0;
        assert((b & 0b1111_0000) >> 4 == b / 16) by (bit_vector);
        (b & 0b1111_0000) >> 4
    }

    /// The command letter, then the argument in decimal.
    pub fn to_text(&self) -> (r: String)
        ensures
            r@ == self.text(),
    {
        let mut out = self.command().to_text();
        push_decimal2(&mut out, self.argument());
        out
    }
}

impl From<u8> for XmVolumeColumn {
    fn from(value: u8) -> (r: Self) {
        Self::new(value)
    }
}

impl vstd::std_specs::convert::FromSpecImpl<u8> for XmVolumeColumn {
    open spec fn obeys_from_spec() -> bool {
        true
    }

    open spec fn from_spec(value: u8) -> Self {
        XmVolumeColumn(value)
    }
}

impl XmEffect {
    /// The effect as a tracker shows it: the sign of the command, then the
    /// argument in upper-case hexadecimal.
    pub open spec fn text(&self) -> Seq<char> {
        match self {
            XmEffect::Arpeggio(a) => "0"@ + hex2(a.0),
            XmEffect::PortamentoUp(a) => "1"@ + hex2(*a),
            XmEffect::PortamentoDown(a) => "2"@ + hex2(*a),
            XmEffect::TonePortamento(a) => "3"@ + hex2(*a),
            XmEffect::Vibrato(a) => "4"@ + hex2(a.0),
            XmEffect::VolumeSlideTonePortamento(a) => "5"@ + hex2(a.0),
            XmEffect::VolumeSlideVibrato(a) => "6"@ + hex2(a.0),
            XmEffect::Tremolo(a) => "7"@ + hex2(a.0),
            XmEffect::SetPanningFine(a) => "8"@ + hex2(*a),
            XmEffect::SampleOffset(a) => "9"@ + hex2(*a),
            XmEffect::VolumeSlide(a) => "A"@ + hex2(a.0),
            XmEffect::PositionJump(a) => "B"@ + hex2(*a),
            XmEffect::SetVolume(a) => "C"@ + hex2(*a),
            XmEffect::PatternBreak(a) => "D"@ + hex2(*a),
            XmEffect::FinePortamentoUp(a) => "E1"@ + hex1(*a),
            XmEffect::FinePortamentoDown(a) => "E2"@ + hex1(*a),
            XmEffect::GlissandoControl(a) => "E3"@ + hex1(*a),
            XmEffect::SetVibratoWaveform(a) => "E4"@ + hex1(*a),
            XmEffect::SetFinetune(a) => "E5"@ + hex1(*a),
            XmEffect::PatternLoopStart => "E60"@,
            XmEffect::PatternLoop(a) => "E6"@ + hex1(*a),
            XmEffect::SetTremoloWaveform(a) => "E7"@ + hex1(*a),
            XmEffect::SetPanning(a) => "E8"@ + hex1(*a),
            XmEffect::Retrigger(a) => "E9"@ + hex1(*a),
            XmEffect::FineVolumeSlideUp(a) => "EA"@ + hex1(*a),
            XmEffect::FineVolumeSlideDown(a) => "EB"@ + hex1(*a),
            XmEffect::NoteCut(a) => "EC"@ + hex1(*a),
            XmEffect::NoteDelay(a) => "ED"@ + hex1(*a),
            XmEffect::PatternDelay(a) => "EE"@ + hex1(*a),
            XmEffect::SetActiveMacro(a) => "EF"@ + hex1(*a),
            XmEffect::SetTempo(a) => "F"@ + hex2(*a),
            XmEffect::SetGlobalVolume(a) => "G"@ + hex2(*a),
            XmEffect::GlobalVolumeSlide(a) => "H"@ + hex2(a.0),
            XmEffect::KeyOff(a) => "K"@ + hex2(*a),
            XmEffect::SetEnvelopePosition(a) => "L"@ + hex2(*a),
            XmEffect::PanningSlide(a) => "P"@ + hex2(a.0),
            XmEffect::RetriggerWithVolume(a) => "R"@ + hex2(a.0),
            XmEffect::Tremor(a) => "T"@ + hex2(a.0),
            XmEffect::ExtraFinePortamentoUp(a) => "X1"@ + hex1(*a),
            XmEffect::ExtraFinePortamentoDown(a) => "X2"@ + hex1(*a),
            XmEffect::SetPanbrelloWaveform(a) => "X5"@ + hex1(*a),
            XmEffect::FinePatternDelay(a) => "X6"@ + hex1(*a),
            XmEffect::SoundControl(a) => "X9"@ + hex1(*a),
            XmEffect::HighOffset(a) => "XA"@ + hex1(*a),
            XmEffect::Panbrello(a) => "Y"@ + hex2(a.0),
            XmEffect::MidiMacro(a) => "Z"@ + hex2(*a),
            XmEffect::SmoothMidiMacro(a) => "\\"@ + hex2(*a),
        }
    }

    /// The effect as a tracker shows it.
    pub fn to_text(&self) -> (r: String)
        ensures
            r@ == self.text(),
    {
        match self {
            XmEffect::Arpeggio(a) => tagged_hex2("0", a.into_bits()),
            XmEffect::PortamentoUp(a) => tagged_hex2("1", *a),
            XmEffect::PortamentoDown(a) => tagged_hex2("2", *a),
            XmEffect::TonePortamento(a) => tagged_hex2("3", *a),
            XmEffect::Vibrato(a) => tagged_hex2("4", a.into_bits()),
            XmEffect::VolumeSlideTonePortamento(a) => tagged_hex2("5", a.into_bits()),
            XmEffect::VolumeSlideVibrato(a) => tagged_hex2("6", a.into_bits()),
            XmEffect::Tremolo(a) => tagged_hex2("7", a.into_bits()),
            XmEffect::SetPanningFine(a) => tagged_hex2("8", *a),
            XmEffect::SampleOffset(a) => tagged_hex2("9", *a),
            XmEffect::VolumeSlide(a) => tagged_hex2("A", a.into_bits()),
            XmEffect::PositionJump(a) => tagged_hex2("B", *a),
            XmEffect::SetVolume(a) => tagged_hex2("C", *a),
            XmEffect::PatternBreak(a) => tagged_hex2("D", *a),
            XmEffect::FinePortamentoUp(a) => tagged_hex1("E1", *a),
            XmEffect::FinePortamentoDown(a) => tagged_hex1("E2", *a),
            XmEffect::GlissandoControl(a) => tagged_hex1("E3", *a),
            XmEffect::SetVibratoWaveform(a) => tagged_hex1("E4", *a),
            XmEffect::SetFinetune(a) => tagged_hex1("E5", *a),
            XmEffect::PatternLoopStart => String::from_str("E60"),
            XmEffect::PatternLoop(a) => tagged_hex1("E6", *a),
            XmEffect::SetTremoloWaveform(a) => tagged_hex1("E7", *a),
            XmEffect::SetPanning(a) => tagged_hex1("E8", *a),
            XmEffect::Retrigger(a) => tagged_hex1("E9", *a),
            XmEffect::FineVolumeSlideUp(a) => tagged_hex1("EA", *a),
            XmEffect::FineVolumeSlideDown(a) => tagged_hex1("EB", *a),
            XmEffect::NoteCut(a) => tagged_hex1("EC", *a),
            XmEffect::NoteDelay(a) => tagged_hex1("ED", *a),
            XmEffect::PatternDelay(a) => tagged_hex1("EE", *a),
            XmEffect::SetActiveMacro(a) => tagged_hex1("EF", *a),
            XmEffect::SetTempo(a) => tagged_hex2("F", *a),
            XmEffect::SetGlobalVolume(a) => tagged_hex2("G", *a),
            XmEffect::GlobalVolumeSlide(a) => tagged_hex2("H", a.into_bits()),
            XmEffect::KeyOff(a) => tagged_hex2("K", *a),
            XmEffect::SetEnvelopePosition(a) => tagged_hex2("L", *a),
            XmEffect::PanningSlide(a) => tagged_hex2("P", a.into_bits()),
            XmEffect::RetriggerWithVolume(a) => tagged_hex2("R", a.into_bits()),
            XmEffect::Tremor(a) => tagged_hex2("T", a.into_bits()),
            XmEffect::ExtraFinePortamentoUp(a) => tagged_hex1("X1", *a),
            XmEffect::ExtraFinePortamentoDown(a) => tagged_hex1("X2", *a),
            XmEffect::SetPanbrelloWaveform(a) => tagged_hex1("X5", *a),
            XmEffect::FinePatternDelay(a) => tagged_hex1("X6", *a),
            XmEffect::SoundControl(a) => tagged_hex1("X9", *a),
            XmEffect::HighOffset(a) => tagged_hex1("XA", *a),
            XmEffect::Panbrello(a) => tagged_hex2("Y", a.into_bits()),
            XmEffect::MidiMacro(a) => tagged_hex2("Z", *a),
            XmEffect::SmoothMidiMacro(a) => tagged_hex2("\\", *a),
        }
    }
}

/// `tag`, then `v` in hexadecimal, two digits.
fn tagged_hex2(tag: &str, v: u8) -> (r: String)
    ensures
        r@ == tag@ + hex2(v),
{
    let mut out = String::from_str(tag);
    push_hex2(&mut out, v);
    out
}

/// `tag`, then `v` in hexadecimal, as few digits as it takes.
fn tagged_hex1(tag: &str, v: u8) -> (r: String)
    ensures
        r@ == tag@ + hex1(v),
{
    let mut out = String::from_str(tag);
    push_hex1(&mut out, v);
    out
}

/// What decoding the volume column at `pos` gives: every byte is a volume
/// column value.
pub open spec fn volume_column_at(s: Seq<u8>, pos: int) -> Outcome<XmVolumeColumn> {
    if avail(s, pos) < 1 {
        Err(end_error(pos))
    } else {
        Ok((XmVolumeColumn(s[pos]), pos + 1))
    }
}

/// Decodes the volume column at `pos`.
pub fn parse_volume_column(data: &[u8], pos: usize) -> (r: Decoded<XmVolumeColumn>)
    requires
        pos <= data@.len(),
    ensures
        agrees(r, volume_column_at(data@, pos as int)),
{
    let (byte, p) = read_u8(data, pos)?;
    let byte = XmVolumeColumn::from(byte);
    if let XmVolumeColumnCommand::Unknown = byte.command() {
        Err(XmError { kind: XmErrorKind::VolumeColumn, offset: pos })
    } else {
        Ok((byte, p))
    }
}

} // verus!
