use xm_tracker::context::{
    find_trigger, step_of, XmChannelContext, XmInstrumentState, XmPlaybackContext, XmTrigger,
};
use xm_tracker::effect::XmEffect;
use xm_tracker::header::XmHeader;
use xm_tracker::instrument::{
    XmInstrumentHeader, XmInstrumentSampleOpts, XmSampleHeader, XmSamplePcmData, XmSampleType,
    XmVibratoOpts, XmVibratoType,
};
use xm_tracker::note::{XmNote, XmTone};
use xm_tracker::pattern::{XmPatternHeader, XmPatternRow, XmPatternRows, XmPatternSlot};
use xm_tracker::XmModule;

fn wave(data: Vec<i16>) -> (XmSampleHeader, XmSamplePcmData) {
    (
        XmSampleHeader {
            length: 2 * data.len() as u32,
            loop_start: 0,
            loop_length: 0,
            volume: 64,
            finetune: 0,
            kind: XmSampleType(0x10),
            panning: 128,
            relative_note_num: 0,
            name: String::from("wave"),
        },
        XmSamplePcmData::Bit16Data(data),
    )
}

/// An instrument with `samples` samples, whose key map assigns sample 1 to
/// the notes from number 49 on and sample 0 to the others.
fn instrument(samples: usize, with_opts: bool) -> (XmInstrumentHeader, Vec<(XmSampleHeader, XmSamplePcmData)>) {
    let mut keymap = [0u8; 96];
    for key in 48..96 {
        keymap[key] = 1;
    }
    let opts = XmInstrumentSampleOpts {
        sample_header_size: 40,
        sample_keymap_assignments: keymap,
        volume_envelope: None,
        panning_envelope: None,
        vibrato: XmVibratoOpts { kind: XmVibratoType::Sine, sweep: 0, depth: 0, rate: 0 },
        volume_fadeout: 0,
    };
    (
        XmInstrumentHeader {
            header_size: 263,
            name: String::from("lead"),
            kind: 0,
            samples_num: samples as u16,
            sample_opts: if with_opts { Some(opts) } else { None },
        },
        (0..samples).map(|k| wave(vec![100 * (k as i16 + 1); 4])).collect(),
    )
}

fn slot(note: XmNote, instrument_index: Option<u8>) -> XmPatternSlot {
    XmPatternSlot { note, instrument_index, volume_column: None, effect: None }
}

fn tune(rows: Vec<Vec<XmPatternSlot>>) -> XmModule {
    let channels = rows[0].len() as u16;
    XmModule {
        header: XmHeader {
            module_name: String::from("tune"),
            tracker_name: String::from("tracker"),
            version: 0x0104,
            song_length: 1,
            restart_pos: 0,
            channels_num: channels,
            patterns_num: 1,
            instruments_num: 3,
            is_amiga: false,
            default_tempo: 2,
            default_bpm: 125,
        },
        patterns: vec![(
            XmPatternHeader { header_length: 9, packing_type: 0, rows_num: rows.len() as u16, packed_data_size: 0 },
            XmPatternRows(rows.into_iter().map(XmPatternRow).collect()),
        )],
        instruments: vec![instrument(2, true), instrument(1, true), instrument(1, false)],
        pattern_order_table: vec![0],
    }
}

fn c5() -> XmNote {
    XmNote::Note { tone: XmTone::C, octave: 5 }
}

fn b4() -> XmNote {
    XmNote::Note { tone: XmTone::B, octave: 4 }
}

#[test]
fn a_note_with_an_instrument_starts_a_sample() {
    let module = tune(vec![vec![XmPatternSlot::default()]]);
    assert_eq!(
        find_trigger(&module, slot(c5(), Some(1))),
        Some(XmTrigger { instrument: 0, sample: 1, period: 4544, slot: slot(c5(), Some(1)) })
    );
    assert_eq!(
        find_trigger(&module, slot(b4(), Some(1))),
        Some(XmTrigger { instrument: 0, sample: 0, period: 4608, slot: slot(b4(), Some(1)) })
    );
    assert_eq!(
        find_trigger(&module, slot(b4(), Some(2))),
        Some(XmTrigger { instrument: 1, sample: 0, period: 4608, slot: slot(b4(), Some(2)) })
    );
    let high = XmNote::Note { tone: XmTone::B, octave: 200 };
    assert_eq!(
        find_trigger(&module, slot(high, Some(1))),
        Some(XmTrigger { instrument: 0, sample: 1, period: 1536, slot: slot(high, Some(1)) })
    );
}

#[test]
fn nothing_starts_without_a_note_an_instrument_or_a_sample() {
    let module = tune(vec![vec![XmPatternSlot::default()]]);
    assert_eq!(find_trigger(&module, slot(c5(), None)), None);
    assert_eq!(find_trigger(&module, slot(XmNote::NoNote, Some(1))), None);
    assert_eq!(find_trigger(&module, slot(XmNote::NoteOff, Some(1))), None);
    assert_eq!(find_trigger(&module, slot(c5(), Some(0))), None);
    assert_eq!(find_trigger(&module, slot(c5(), Some(2))), None);
    assert_eq!(find_trigger(&module, slot(c5(), Some(3))), None);
    assert_eq!(find_trigger(&module, slot(c5(), Some(4))), None);
    assert_eq!(find_trigger(&module, slot(c5(), Some(255))), None);
}

#[test]
fn steps_of_frequencies() {
    assert_eq!(step_of(8363 << 16, 8363), 65536);
    assert_eq!(step_of(8363 << 16, 44100), 12428);
    assert_eq!(step_of(44100 << 16, 22050), 131072);
    assert_eq!(step_of(0, 44100), 0);
    assert_eq!(step_of(1, 0), u32::MAX);
    assert_eq!(step_of(u64::MAX, 1), u32::MAX);
    assert_eq!(step_of((u32::MAX as u64) * 7, 7), u32::MAX);
    assert_eq!(step_of((u32::MAX as u64) * 7 - 1, 7), u32::MAX - 1);
}

#[test]
fn the_slot_of_a_channel_is_that_of_the_current_row() {
    let rows = vec![
        vec![slot(c5(), Some(1)), XmPatternSlot::default()],
        vec![XmPatternSlot::default(), slot(b4(), Some(2))],
    ];
    let mut context = XmPlaybackContext::new(tune(rows), 8363);
    assert_eq!(context.current_slot(0), Some(slot(c5(), Some(1))));
    assert_eq!(context.current_slot(1), Some(XmPatternSlot::default()));
    assert_eq!(context.current_slot(2), None);
    assert_eq!(context.trigger(0).map(|t| (t.instrument, t.sample)), Some((0, 1)));
    assert_eq!(context.trigger(1), None);
    context.current_row = 1;
    assert_eq!(context.current_slot(1), Some(slot(b4(), Some(2))));
    assert_eq!(context.trigger(1).map(|t| (t.instrument, t.sample)), Some((1, 0)));
    context.current_row = 2;
    assert_eq!(context.current_slot(0), None);
    assert_eq!(context.trigger(0), None);
    context.current_row = 0;
    context.current_order = 1;
    assert_eq!(context.current_slot(0), None);
    context.current_order = 0;
    context.module.pattern_order_table[0] = 9;
    assert_eq!(context.current_slot(0), None);
    assert_eq!(context.rows_in_current_pattern(), 0);
}

#[test]
fn binding_starts_the_sample_on_the_channel() {
    let rows = vec![vec![slot(c5(), Some(1)), XmPatternSlot::default(), XmPatternSlot::default()]];
    let mut context = XmPlaybackContext::new(tune(rows), 8363);
    context.channels[1] = None;
    context.channels[2] = Some(XmChannelContext { volume: 1000, panning: 5, ..XmChannelContext::default() });
    let trigger = context.trigger(0).unwrap();
    context.bind(0, trigger, 8363 << 16);
    context.bind(1, trigger, 8363 << 16);
    context.bind(2, trigger, 4181 << 16);
    context.bind(3, trigger, 8363 << 16);
    assert_eq!(context.channels.len(), 3);
    assert_eq!(
        context.channels[0],
        Some(XmChannelContext {
            instrument_state: Some(XmInstrumentState {
                instrument: 0,
                sample: 1,
                sample_position: 0,
                period: 4544,
                frequency: 8363 << 16,
                step: 65536,
                ping: true,
            }),
            pattern_slot_state: Some(slot(c5(), Some(1))),
            ..XmChannelContext::default()
        })
    );
    assert_eq!(context.channels[1], None);
    let third = context.channels[2].unwrap();
    assert_eq!((third.volume, third.panning), (1000, 5));
    assert_eq!(third.instrument_state.unwrap().step, 32764);
    assert!(context.check());
    assert_eq!(context.sample(), (141 + 2, 141 + 0));
}

#[test]
fn a_row_that_starts_is_reported() {
    let rows = vec![vec![XmPatternSlot::default()], vec![slot(c5(), Some(1))]];
    let mut context = XmPlaybackContext::new(tune(rows), 100);
    let mut starts = Vec::new();
    for frame in 0..9 {
        if context.advance() {
            starts.push((frame, context.current_order, context.current_row));
        }
    }
    assert_eq!(starts, vec![(4, 0, 1), (8, 0, 0)]);
}

#[test]
fn contexts_out_of_their_scales_are_told_apart() {
    let rows = vec![vec![slot(c5(), Some(1)), slot(XmNote::NoNote, None)]];
    let good = XmPlaybackContext::new(tune(rows), 44100);
    assert!(good.check());
    let mut loud = good.clone();
    loud.channels[1] = Some(XmChannelContext { volume: 65537, ..XmChannelContext::default() });
    assert!(!loud.check());
    let mut wide = good.clone();
    wide.channels[0] = Some(XmChannelContext { panning: 65537, ..XmChannelContext::default() });
    assert!(!wide.check());
    let mut full = good.clone();
    full.channels[0] = Some(XmChannelContext { volume: 65536, panning: 65536, ..XmChannelContext::default() });
    full.channels[1] = None;
    assert!(full.check());
    let mut late = good.clone();
    late.current_tick = 131071;
    assert!(!late.check());
    late.current_tick = 131070;
    assert!(late.check());
    let mut far = good.clone();
    far.current_order = 65536;
    assert!(!far.check());
    let mut deep = good.clone();
    deep.current_row = 65536;
    assert!(!deep.check());
    let mut many = good.clone();
    many.channels = vec![None; 65536];
    assert!(!many.check());
    many.channels = vec![None; 65535];
    assert!(many.check());
}

#[test]
fn effects_of_a_slot_are_kept_apart_from_its_note() {
    let with_effect = XmPatternSlot { effect: Some(XmEffect::SetVolume(3)), ..slot(c5(), Some(1)) };
    let module = tune(vec![vec![with_effect]]);
    let trigger = find_trigger(&module, with_effect).unwrap();
    assert_eq!(trigger.slot, with_effect);
    assert_eq!((trigger.instrument, trigger.sample, trigger.period), (0, 1, 4544));
}
