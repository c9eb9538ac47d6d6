use xm_tracker::effect::{
    effect_from_bytes, parse_effect, parse_volume_column, DoubleU4, XmEffect, XmVolumeColumn,
    XmVolumeColumnCommand,
};
use xm_tracker::error::{XmError, XmErrorKind};

#[test]
fn arpeggio_splits_its_parameter() {
    let effect = effect_from_bytes(0x00, 0x35);
    assert_eq!(effect, Some(XmEffect::Arpeggio(DoubleU4(0x35))));
    match effect {
        Some(XmEffect::Arpeggio(a)) => {
            assert_eq!(a.x(), 3);
            assert_eq!(a.y(), 5);
            assert_eq!(a.into_bits(), 0x35);
        }
        _ => panic!("not an arpeggio"),
    }
}

#[test]
fn double_u4_keeps_its_byte() {
    for b in 0..=255u8 {
        let d = DoubleU4::from_bits(b);
        assert_eq!(d.into_bits(), b);
        assert_eq!(d.x() * 16 + d.y(), b);
    }
}

#[test]
fn retrigger_is_a_sub_effect_of_e() {
    assert_eq!(effect_from_bytes(0x0E, 0x93), Some(XmEffect::Retrigger(3)));
    assert_eq!(parse_effect(&[0x0E, 0x93], 0, true, true), Ok((Some(XmEffect::Retrigger(3)), 2)));
}

#[test]
fn decoding_twice_gives_the_same_effect() {
    for command in 0..=255u8 {
        for parameter in 0..=255u8 {
            assert_eq!(effect_from_bytes(command, parameter), effect_from_bytes(command, parameter));
        }
    }
}

#[test]
fn effects_with_a_whole_byte() {
    assert_eq!(effect_from_bytes(0x01, 0xab), Some(XmEffect::PortamentoUp(0xab)));
    assert_eq!(effect_from_bytes(0x02, 0x01), Some(XmEffect::PortamentoDown(0x01)));
    assert_eq!(effect_from_bytes(0x03, 0xff), Some(XmEffect::TonePortamento(0xff)));
    assert_eq!(effect_from_bytes(0x08, 0x80), Some(XmEffect::SetPanningFine(0x80)));
    assert_eq!(effect_from_bytes(0x09, 0x10), Some(XmEffect::SampleOffset(0x10)));
    assert_eq!(effect_from_bytes(0x0b, 0x02), Some(XmEffect::PositionJump(0x02)));
    assert_eq!(effect_from_bytes(0x0c, 0x40), Some(XmEffect::SetVolume(0x40)));
    assert_eq!(effect_from_bytes(0x0d, 0x20), Some(XmEffect::PatternBreak(0x20)));
    assert_eq!(effect_from_bytes(0x0f, 0x7d), Some(XmEffect::SetTempo(0x7d)));
    assert_eq!(effect_from_bytes(0x10, 0x30), Some(XmEffect::SetGlobalVolume(0x30)));
    assert_eq!(effect_from_bytes(0x14, 0x00), Some(XmEffect::KeyOff(0x00)));
    assert_eq!(effect_from_bytes(0x15, 0x05), Some(XmEffect::SetEnvelopePosition(0x05)));
    assert_eq!(effect_from_bytes(0x23, 0x11), Some(XmEffect::MidiMacro(0x11)));
    assert_eq!(effect_from_bytes(0x24, 0x12), Some(XmEffect::SmoothMidiMacro(0x12)));
}

#[test]
fn effects_with_two_halves() {
    assert_eq!(effect_from_bytes(0x04, 0x12), Some(XmEffect::Vibrato(DoubleU4(0x12))));
    assert_eq!(effect_from_bytes(0x05, 0x34), Some(XmEffect::VolumeSlideTonePortamento(DoubleU4(0x34))));
    assert_eq!(effect_from_bytes(0x06, 0x56), Some(XmEffect::VolumeSlideVibrato(DoubleU4(0x56))));
    assert_eq!(effect_from_bytes(0x07, 0x78), Some(XmEffect::Tremolo(DoubleU4(0x78))));
    assert_eq!(effect_from_bytes(0x0a, 0x9a), Some(XmEffect::VolumeSlide(DoubleU4(0x9a))));
    assert_eq!(effect_from_bytes(0x11, 0xbc), Some(XmEffect::GlobalVolumeSlide(DoubleU4(0xbc))));
    assert_eq!(effect_from_bytes(0x19, 0xde), Some(XmEffect::PanningSlide(DoubleU4(0xde))));
    assert_eq!(effect_from_bytes(0x1b, 0xf0), Some(XmEffect::RetriggerWithVolume(DoubleU4(0xf0))));
    assert_eq!(effect_from_bytes(0x1d, 0x21), Some(XmEffect::Tremor(DoubleU4(0x21))));
    assert_eq!(effect_from_bytes(0x22, 0x43), Some(XmEffect::Panbrello(DoubleU4(0x43))));
}

#[test]
fn sub_effects_of_e() {
    assert_eq!(effect_from_bytes(0x0e, 0x1f), Some(XmEffect::FinePortamentoUp(0xf)));
    assert_eq!(effect_from_bytes(0x0e, 0x2e), Some(XmEffect::FinePortamentoDown(0xe)));
    assert_eq!(effect_from_bytes(0x0e, 0x3d), Some(XmEffect::GlissandoControl(0xd)));
    assert_eq!(effect_from_bytes(0x0e, 0x4c), Some(XmEffect::SetVibratoWaveform(0xc)));
    assert_eq!(effect_from_bytes(0x0e, 0x5b), Some(XmEffect::SetFinetune(0xb)));
    assert_eq!(effect_from_bytes(0x0e, 0x60), Some(XmEffect::PatternLoopStart));
    assert_eq!(effect_from_bytes(0x0e, 0x61), Some(XmEffect::PatternLoop(1)));
    assert_eq!(effect_from_bytes(0x0e, 0x6f), Some(XmEffect::PatternLoop(0xf)));
    assert_eq!(effect_from_bytes(0x0e, 0x7a), Some(XmEffect::SetTremoloWaveform(0xa)));
    assert_eq!(effect_from_bytes(0x0e, 0x89), Some(XmEffect::SetPanning(9)));
    assert_eq!(effect_from_bytes(0x0e, 0xa8), Some(XmEffect::FineVolumeSlideUp(8)));
    assert_eq!(effect_from_bytes(0x0e, 0xb7), Some(XmEffect::FineVolumeSlideDown(7)));
    assert_eq!(effect_from_bytes(0x0e, 0xc6), Some(XmEffect::NoteCut(6)));
    assert_eq!(effect_from_bytes(0x0e, 0xd5), Some(XmEffect::NoteDelay(5)));
    assert_eq!(effect_from_bytes(0x0e, 0xe4), Some(XmEffect::PatternDelay(4)));
    assert_eq!(effect_from_bytes(0x0e, 0xf3), Some(XmEffect::SetActiveMacro(3)));
}

#[test]
fn sub_effects_of_x() {
    assert_eq!(effect_from_bytes(0x21, 0x12), Some(XmEffect::ExtraFinePortamentoUp(2)));
    assert_eq!(effect_from_bytes(0x21, 0x23), Some(XmEffect::ExtraFinePortamentoDown(3)));
    assert_eq!(effect_from_bytes(0x21, 0x54), Some(XmEffect::SetPanbrelloWaveform(4)));
    assert_eq!(effect_from_bytes(0x21, 0x65), Some(XmEffect::FinePatternDelay(5)));
    assert_eq!(effect_from_bytes(0x21, 0x96), Some(XmEffect::SoundControl(6)));
    assert_eq!(effect_from_bytes(0x21, 0xa7), Some(XmEffect::HighOffset(7)));
}

#[test]
fn unknown_effects_are_none() {
    assert_eq!(effect_from_bytes(0x0e, 0x05), None);
    assert_eq!(effect_from_bytes(0x21, 0x00), None);
    assert_eq!(effect_from_bytes(0x21, 0x30), None);
    assert_eq!(effect_from_bytes(0x21, 0xf1), None);
    for command in [0x12u8, 0x13, 0x16, 0x17, 0x18, 0x1a, 0x1c, 0x1e, 0x1f, 0x20, 0x25, 0xff] {
        assert_eq!(effect_from_bytes(command, 0x11), None);
    }
}

#[test]
fn unknown_effect_is_reported_at_its_start() {
    assert_eq!(
        parse_effect(&[0x00, 0x12, 0x00], 1, true, true),
        Err(XmError { kind: XmErrorKind::Effect, offset: 1 })
    );
}

#[test]
fn an_absent_byte_of_an_effect_counts_as_zero() {
    assert_eq!(parse_effect(&[0x0c], 0, true, false), Ok((Some(XmEffect::SetVolume(0)), 1)));
    assert_eq!(parse_effect(&[0x35], 0, false, true), Ok((Some(XmEffect::Arpeggio(DoubleU4(0x35))), 1)));
    assert_eq!(parse_effect(&[0x35], 0, false, false), Ok((None, 0)));
    assert_eq!(parse_effect(&[], 0, false, false), Ok((None, 0)));
}

#[test]
fn an_effect_cut_short_is_reported_at_the_missing_byte() {
    assert_eq!(
        parse_effect(&[0x0c], 0, true, true),
        Err(XmError { kind: XmErrorKind::UnexpectedEnd, offset: 1 })
    );
    assert_eq!(
        parse_effect(&[0x0c], 1, true, true),
        Err(XmError { kind: XmErrorKind::UnexpectedEnd, offset: 1 })
    );
    assert_eq!(
        parse_effect(&[], 0, false, true),
        Err(XmError { kind: XmErrorKind::UnexpectedEnd, offset: 0 })
    );
}

#[test]
fn effects_as_text() {
    assert_eq!(XmEffect::Arpeggio(DoubleU4(0x35)).to_text(), "035");
    assert_eq!(XmEffect::PortamentoUp(0x0a).to_text(), "10A");
    assert_eq!(XmEffect::VolumeSlide(DoubleU4(0xf0)).to_text(), "AF0");
    assert_eq!(XmEffect::PositionJump(0).to_text(), "B00");
    assert_eq!(XmEffect::PatternBreak(0xff).to_text(), "DFF");
    assert_eq!(XmEffect::FinePortamentoUp(0xc).to_text(), "E1C");
    assert_eq!(XmEffect::PatternLoopStart.to_text(), "E60");
    assert_eq!(XmEffect::PatternLoop(3).to_text(), "E63");
    assert_eq!(XmEffect::Retrigger(3).to_text(), "E93");
    assert_eq!(XmEffect::Retrigger(0x1f).to_text(), "E91F");
    assert_eq!(XmEffect::SetTempo(0x7d).to_text(), "F7D");
    assert_eq!(XmEffect::SetGlobalVolume(0x40).to_text(), "G40");
    assert_eq!(XmEffect::GlobalVolumeSlide(DoubleU4(0x01)).to_text(), "H01");
    assert_eq!(XmEffect::KeyOff(2).to_text(), "K02");
    assert_eq!(XmEffect::SetEnvelopePosition(0x10).to_text(), "L10");
    assert_eq!(XmEffect::PanningSlide(DoubleU4(0x0f)).to_text(), "P0F");
    assert_eq!(XmEffect::RetriggerWithVolume(DoubleU4(0x81)).to_text(), "R81");
    assert_eq!(XmEffect::Tremor(DoubleU4(0x11)).to_text(), "T11");
    assert_eq!(XmEffect::ExtraFinePortamentoDown(9).to_text(), "X29");
    assert_eq!(XmEffect::HighOffset(0xa).to_text(), "XAA");
    assert_eq!(XmEffect::Panbrello(DoubleU4(0x22)).to_text(), "Y22");
    assert_eq!(XmEffect::MidiMacro(0x7f).to_text(), "Z7F");
    assert_eq!(XmEffect::SmoothMidiMacro(0x80).to_text(), "\\80");
}

#[test]
fn volume_column_commands() {
    assert_eq!(XmVolumeColumn::new(0x00).command(), XmVolumeColumnCommand::SetVolume);
    assert_eq!(XmVolumeColumn::new(0x5f).command(), XmVolumeColumnCommand::SetVolume);
    assert_eq!(XmVolumeColumn::new(0x60).command(), XmVolumeColumnCommand::VolumeSlideDown);
    assert_eq!(XmVolumeColumn::new(0x7f).command(), XmVolumeColumnCommand::VolumeSlideUp);
    assert_eq!(XmVolumeColumn::new(0x80).command(), XmVolumeColumnCommand::FineVolumeDown);
    assert_eq!(XmVolumeColumn::new(0x90).command(), XmVolumeColumnCommand::FineVolumeUp);
    assert_eq!(XmVolumeColumn::new(0xa0).command(), XmVolumeColumnCommand::VibratoSpeed);
    assert_eq!(XmVolumeColumn::new(0xb0).command(), XmVolumeColumnCommand::VibratoDepth);
    assert_eq!(XmVolumeColumn::new(0xc0).command(), XmVolumeColumnCommand::SetPanning);
    assert_eq!(XmVolumeColumn::new(0xd0).command(), XmVolumeColumnCommand::PanSlideLeft);
    assert_eq!(XmVolumeColumn::new(0xe0).command(), XmVolumeColumnCommand::PanSlideRight);
    assert_eq!(XmVolumeColumn::new(0xff).command(), XmVolumeColumnCommand::TonePortamento);
    assert_eq!(XmVolumeColumn::new(0xa7).command_raw(), 0xa);
}

#[test]
fn volume_column_arguments() {
    assert_eq!(XmVolumeColumn::new(0x10).argument(), 0);
    assert_eq!(XmVolumeColumn::new(0x25).argument(), 0x15);
    assert_eq!(XmVolumeColumn::new(0x50).argument(), 0x40);
    assert_eq!(XmVolumeColumn::new(0x00).argument(), 0xf0);
    assert_eq!(XmVolumeColumn::new(0x0f).argument(), 0xff);
    assert_eq!(XmVolumeColumn::new(0x6a).argument(), 0xa);
    assert_eq!(XmVolumeColumn::new(0xc0).argument(), 2);
    assert_eq!(XmVolumeColumn::new(0xc8).argument(), 34);
    assert_eq!(XmVolumeColumn::new(0xcf).argument(), 62);
    assert_eq!(XmVolumeColumn::new(0xf3).argument(), 3);
}

#[test]
fn volume_column_from_a_byte() {
    assert_eq!(XmVolumeColumn::from(0x42), XmVolumeColumn::new(0x42));
    assert_eq!(XmVolumeColumn::from(0x42), XmVolumeColumn(0x42));
}

#[test]
fn volume_command_numbers() {
    assert_eq!(XmVolumeColumnCommand::SetVolume.into_bits(), 0);
    assert_eq!(XmVolumeColumnCommand::VolumeSlideUp.into_bits(), 1);
    assert_eq!(XmVolumeColumnCommand::VolumeSlideDown.into_bits(), 2);
    assert_eq!(XmVolumeColumnCommand::TonePortamento.into_bits(), 10);
    assert_eq!(XmVolumeColumnCommand::Unknown.into_bits(), 11);
    assert_eq!(XmVolumeColumnCommand::from_bits(0), XmVolumeColumnCommand::SetVolume);
    assert_eq!(XmVolumeColumnCommand::from_bits(5), XmVolumeColumnCommand::SetVolume);
    assert_eq!(XmVolumeColumnCommand::from_bits(6), XmVolumeColumnCommand::VolumeSlideDown);
    assert_eq!(XmVolumeColumnCommand::from_bits(7), XmVolumeColumnCommand::VolumeSlideUp);
    assert_eq!(XmVolumeColumnCommand::from_bits(15), XmVolumeColumnCommand::TonePortamento);
    assert_eq!(XmVolumeColumnCommand::from_bits(16), XmVolumeColumnCommand::Unknown);
    assert_eq!(XmVolumeColumnCommand::from_bits(255), XmVolumeColumnCommand::Unknown);
}

#[test]
fn every_byte_is_a_volume_column() {
    for b in 0..=255u8 {
        assert_eq!(parse_volume_column(&[b], 0), Ok((XmVolumeColumn(b), 1)));
    }
    assert_eq!(
        parse_volume_column(&[1, 2], 2),
        Err(XmError { kind: XmErrorKind::UnexpectedEnd, offset: 2 })
    );
}

#[test]
fn volume_column_as_text() {
    assert_eq!(XmVolumeColumn::new(0x10).to_text(), "v00");
    assert_eq!(XmVolumeColumn::new(0x50).to_text(), "v64");
    assert_eq!(XmVolumeColumn::new(0x05).to_text(), "v245");
    assert_eq!(XmVolumeColumn::new(0x6a).to_text(), "d10");
    assert_eq!(XmVolumeColumn::new(0x71).to_text(), "c01");
    assert_eq!(XmVolumeColumn::new(0x82).to_text(), "b02");
    assert_eq!(XmVolumeColumn::new(0x93).to_text(), "a03");
    assert_eq!(XmVolumeColumn::new(0xa4).to_text(), "u04");
    assert_eq!(XmVolumeColumn::new(0xb5).to_text(), "h05");
    assert_eq!(XmVolumeColumn::new(0xcf).to_text(), "p62");
    assert_eq!(XmVolumeColumn::new(0xd6).to_text(), "l06");
    assert_eq!(XmVolumeColumn::new(0xe7).to_text(), "r07");
    assert_eq!(XmVolumeColumn::new(0xf8).to_text(), "g08");
    assert_eq!(XmVolumeColumnCommand::Unknown.to_text(), "_");
}
