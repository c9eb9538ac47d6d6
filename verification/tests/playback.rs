use xm_tracker::context::{find_sample, XmChannelContext, XmInstrumentState, XmPlaybackContext};
use xm_tracker::fixed::{isqrt, scale};
use xm_tracker::frequency::{tone_to_raw, Linear};
use xm_tracker::header::XmHeader;
use xm_tracker::instrument::{XmInstrumentHeader, XmSampleHeader, XmSamplePcmData, XmSampleType};
use xm_tracker::interpolation::{Interpolation, LinearInterpolation, NoInterpolation};
use xm_tracker::note::XmTone;
use xm_tracker::pattern::{XmPatternHeader, XmPatternRow, XmPatternRows, XmPatternSlot};
use xm_tracker::XmModule;

const ONE: u64 = 65536;

fn sample(kind: u8, loop_start: u32, loop_length: u32, data: Vec<i16>) -> (XmSampleHeader, XmSamplePcmData) {
    (
        XmSampleHeader {
            length: 2 * data.len() as u32,
            loop_start,
            loop_length,
            volume: 64,
            finetune: 0,
            kind: XmSampleType(kind | 0x10),
            panning: 128,
            relative_note_num: 0,
            name: String::from("wave"),
        },
        XmSamplePcmData::Bit16Data(data),
    )
}

fn state_at(position: u64, step: u32, ping: bool) -> XmInstrumentState {
    XmInstrumentState { sample_position: position, ping, ..XmInstrumentState::new(0, 0, 4544, 8363 << 16, step) }
}

fn module(channels: u16, rows: &[u16], order: Vec<u8>, samples: Vec<(XmSampleHeader, XmSamplePcmData)>) -> XmModule {
    let patterns = rows
        .iter()
        .map(|&rows_num| {
            let row = XmPatternRow(vec![XmPatternSlot::default(); channels as usize]);
            (
                XmPatternHeader { header_length: 9, packing_type: 0, rows_num, packed_data_size: 0 },
                XmPatternRows(vec![row; rows_num as usize]),
            )
        })
        .collect::<Vec<_>>();
    XmModule {
        header: XmHeader {
            module_name: String::from("tune"),
            tracker_name: String::from("tracker"),
            version: 0x0104,
            song_length: order.len() as u16,
            restart_pos: 1,
            channels_num: channels,
            patterns_num: rows.len() as u16,
            instruments_num: 1,
            is_amiga: false,
            default_tempo: 3,
            default_bpm: 125,
        },
        patterns,
        instruments: vec![(
            XmInstrumentHeader {
                header_size: 263,
                name: String::from("lead"),
                kind: 0,
                samples_num: samples.len() as u16,
                sample_opts: None,
            },
            samples,
        )],
        pattern_order_table: order,
    }
}

#[test]
fn new_state_starts_at_the_beginning() {
    let state = XmInstrumentState::new(2, 3, 4544, 8363 << 16, 12345);
    assert_eq!(state.instrument, 2);
    assert_eq!(state.sample, 3);
    assert_eq!(state.sample_position, 0);
    assert_eq!(state.period, 4544);
    assert_eq!(state.frequency, 8363 << 16);
    assert_eq!(state.step, 12345);
    assert!(state.ping);
}

#[test]
fn sample_without_loop_plays_to_its_end() {
    let wave = sample(0, 0, 0, vec![0, 100, 200, 300]);
    let mut state = state_at(0, 3 * 32768, true);
    assert!(!state.advance(&wave));
    assert_eq!(state.sample_position, 3 * 32768);
    assert!(!state.advance(&wave));
    assert_eq!(state.sample_position, 3 * ONE);
    assert!(state.advance(&wave));
    assert_eq!(state.sample_position, 9 * 32768);
    let unknown = sample(3, 0, 2, vec![0, 100]);
    let mut state = state_at(ONE, 65535, true);
    assert!(!state.advance(&unknown));
    assert!(state.advance(&unknown));
}

#[test]
fn sample_without_data_is_over_at_once() {
    let wave = sample(1, 0, 4, vec![]);
    let mut state = state_at(7, 100, true);
    assert!(state.advance(&wave));
    assert_eq!(state, state_at(7, 100, true));
    assert_eq!(state.sample(&wave), 0);
}

#[test]
fn forward_loop_starts_again_at_the_loop_start() {
    let wave = sample(1, 2, 3, vec![0, 1, 2, 3, 4, 5, 6, 7]);
    let mut state = state_at(0, ONE as u32 + 32768, true);
    let mut seen = Vec::new();
    for _ in 0..8 {
        assert!(!state.advance(&wave));
        assert!(state.sample_position < 5 * ONE);
        seen.push(state.sample_position);
    }
    assert_eq!(
        seen,
        vec![98304, 196608, 294912, 2 * ONE, 229376, 2 * ONE, 229376, 2 * ONE]
    );
}

#[test]
fn forward_loop_never_reaches_its_end() {
    for step in [1u32, 1000, 65535, 65536, 65537, 200000, u32::MAX] {
        let wave = sample(1, 3, 2, vec![0; 16]);
        let mut state = state_at(0, step, true);
        for _ in 0..2000 {
            assert!(!state.advance(&wave));
            assert!(state.sample_position < 5 * ONE);
        }
    }
}

#[test]
fn forward_loop_of_no_length_stays_at_its_start() {
    let wave = sample(1, 3, 0, vec![0; 16]);
    let mut state = state_at(0, 4 * ONE as u32, true);
    assert!(!state.advance(&wave));
    assert_eq!(state.sample_position, 3 * ONE);
}

#[test]
fn bidirectional_loop_turns_at_both_ends() {
    let wave = sample(2, 1, 2, vec![0, 10, 20, 30, 40]);
    let mut state = state_at(ONE, 49152, true);
    let mut seen = Vec::new();
    for _ in 0..8 {
        assert!(!state.advance(&wave));
        assert!(ONE <= state.sample_position && state.sample_position <= 3 * ONE);
        seen.push((state.sample_position, state.ping));
    }
    assert_eq!(
        seen,
        vec![
            (114688, true),
            (163840, true),
            (3 * ONE, false),
            (147456, false),
            (98304, false),
            (ONE, true),
            (114688, true),
            (163840, true)
        ]
    );
}

#[test]
fn bidirectional_loop_stays_within_the_loop() {
    for step in [0u32, 1, 30000, 65536, 100000, 131072, 131073, u32::MAX] {
        let wave = sample(2, 2, 2, vec![0; 8]);
        let mut state = state_at(2 * ONE, step, true);
        for _ in 0..2000 {
            let before = state;
            assert!(!state.advance(&wave));
            assert!(2 * ONE <= state.sample_position && state.sample_position <= 4 * ONE);
            if before.ping != state.ping {
                let boundary = if before.ping { 4 * ONE } else { 2 * ONE };
                assert_eq!(state.sample_position, boundary);
            }
        }
    }
}

#[test]
fn position_that_cannot_grow_stays_at_its_largest() {
    let wave = sample(0, 0, 0, vec![0, 1]);
    let mut state = state_at(u64::MAX - 5, 100, true);
    assert!(state.advance(&wave));
    assert_eq!(state.sample_position, u64::MAX);
}

#[test]
fn amplitude_is_read_backwards_on_the_way_back() {
    let wave = sample(2, 0, 2, vec![0, 1000, 3000]);
    assert_eq!(state_at(16384, 0, true).sample(&wave), 250);
    assert_eq!(state_at(16384, 0, false).sample(&wave), 250);
    assert_eq!(state_at(ONE + 32768, 0, true).sample(&wave), 2000);
    assert_eq!(state_at(ONE + 32768, 0, false).sample(&wave), 2000);
    assert_eq!(state_at(ONE + 1, 0, true).sample(&wave), 1000);
    assert_eq!(state_at(ONE + 1, 0, false).sample(&wave), 1000);
    assert_eq!(state_at(ONE + 65535, 0, false).sample(&wave), 2999);
    assert_eq!(state_at(2 * ONE, 0, false).sample(&wave), 3000);
    assert_eq!(state_at(3 * ONE, 0, false).sample(&wave), 0);
    let forward = sample(1, 0, 2, vec![0, 1000, 3000]);
    assert_eq!(state_at(ONE + 1, 0, false).sample(&forward), 1000);
}

#[test]
fn linear_interpolation_starts_at_the_first_amplitude() {
    for (v0, v1) in [(0i16, 0i16), (5, 9), (9, 5), (-32768, 32767), (32767, -32768), (-7, -7)] {
        assert_eq!(LinearInterpolation::interpolate(v0, v1, 0), v0);
        let last = LinearInterpolation::interpolate(v0, v1, 65535) as i32;
        assert!((v1 as i32 - last).abs() <= 1);
        assert_eq!(NoInterpolation::interpolate(v0, v1, 0), v0);
        assert_eq!(NoInterpolation::interpolate(v0, v1, 65535), v0);
    }
}

#[test]
fn linear_interpolation_values() {
    assert_eq!(LinearInterpolation::interpolate(0, 1000, 32768), 500);
    assert_eq!(LinearInterpolation::interpolate(1000, 0, 32768), 500);
    assert_eq!(LinearInterpolation::interpolate(0, 3, 32768), 1);
    assert_eq!(LinearInterpolation::interpolate(0, -3, 32768), -2);
    assert_eq!(LinearInterpolation::interpolate(-32768, 32767, 65535), 32766);
    assert_eq!(LinearInterpolation::interpolate(32767, -32768, 65535), -32768);
    assert_eq!(LinearInterpolation::interpolate(100, 200, 16384), 125);
}

#[test]
fn linear_interpolation_moves_steadily() {
    let mut last = LinearInterpolation::interpolate(-300, 500, 0);
    for t in 1..=65535u16 {
        let next = LinearInterpolation::interpolate(-300, 500, t);
        assert!(next >= last && next - last <= 1);
        last = next;
    }
}

#[test]
fn note_numbers_and_periods() {
    assert_eq!(tone_to_raw(&XmTone::C, 1), 1);
    assert_eq!(tone_to_raw(&XmTone::B, 1), 12);
    assert_eq!(tone_to_raw(&XmTone::C, 5), 49);
    assert_eq!(tone_to_raw(&XmTone::A, 5), 58);
    assert_eq!(tone_to_raw(&XmTone::B, 8), 96);
    assert_eq!(tone_to_raw(&XmTone::C, 0), 1);
    assert_eq!(tone_to_raw(&XmTone::D, 9), 87);
    assert_eq!(tone_to_raw(&XmTone::D, 255), 87);
    assert_eq!(Linear::period(&XmTone::C, 1), 7616);
    assert_eq!(Linear::period(&XmTone::C, 5), 4544);
    assert_eq!(Linear::period(&XmTone::B, 4), 4608);
    assert_eq!(Linear::period(&XmTone::B, 8), 1536);
}

#[test]
fn square_roots() {
    assert_eq!(isqrt(0), 0);
    assert_eq!(isqrt(1), 1);
    assert_eq!(isqrt(3), 1);
    assert_eq!(isqrt(4), 2);
    assert_eq!(isqrt(99), 9);
    assert_eq!(isqrt(1 << 31), 46340);
    assert_eq!(isqrt((1 << 32) - 1), 65535);
    assert_eq!(isqrt(1 << 32), 65536);
}

#[test]
fn scaling_rounds_down() {
    assert_eq!(scale(1000, 65536), 1000);
    assert_eq!(scale(1000, 32768), 500);
    assert_eq!(scale(-1000, 32768), -500);
    assert_eq!(scale(3, 32768), 1);
    assert_eq!(scale(-3, 32768), -2);
    assert_eq!(scale(1000, 0), 0);
    assert_eq!(scale(i32::MIN, u32::MAX), -140737488322560);
    assert_eq!(scale(i32::MAX, u32::MAX), 140737488257024);
}

#[test]
fn volume_and_panning() {
    assert_eq!(XmPlaybackContext::volume(1000, 65536), 1000);
    assert_eq!(XmPlaybackContext::volume(1000, 16384), 250);
    assert_eq!(XmPlaybackContext::volume(-32768, 0), 0);
    assert_eq!(XmPlaybackContext::volume(-32768, u32::MAX), -2147483648);
    assert_eq!(XmPlaybackContext::pan(1000, 32768), (707, 707));
    assert_eq!(XmPlaybackContext::pan(1000, 0), (1000, 0));
    assert_eq!(XmPlaybackContext::pan(1000, 65536), (0, 1000));
    assert_eq!(XmPlaybackContext::pan(-1000, 16384), (-867, -500));
    assert_eq!(XmPlaybackContext::pan(0, 1234), (0, 0));
}

#[test]
fn length_of_a_tick() {
    assert_eq!(XmPlaybackContext::samples_in_tick(44100, 125), 882 * 65536);
    assert_eq!(XmPlaybackContext::samples_in_tick(48000, 125), 960 * 65536);
    assert_eq!(XmPlaybackContext::samples_in_tick(8000, 33), 39718787);
    assert_eq!(XmPlaybackContext::samples_in_tick(0, 125), 0);
    assert_eq!(XmPlaybackContext::samples_in_tick(44100, 0), i64::MAX);
    assert_eq!(XmPlaybackContext::samples_in_tick(u32::MAX, 1), 703687441612800);
}

#[test]
fn channel_at_rest() {
    let channel = XmChannelContext::default();
    assert_eq!(channel.fine_tune, 0);
    assert_eq!(channel.instrument_state, None);
    assert_eq!(channel.pattern_slot_state, None);
    assert_eq!(channel.volume, 65536);
    assert_eq!(channel.panning, 32768);
    let tune = module(1, &[1], vec![0], vec![sample(0, 0, 0, vec![1, 2])]);
    let mut moved = channel;
    moved.advance(&tune);
    assert_eq!(moved, channel);
    assert_eq!(moved.sample(&tune), 0);
}

#[test]
fn channel_falls_idle_when_its_sample_is_over() {
    let tune = module(1, &[1], vec![0], vec![sample(0, 0, 0, vec![100, 200])]);
    let mut channel = XmChannelContext {
        instrument_state: Some(XmInstrumentState::new(0, 0, 4544, 8363 << 16, 65536)),
        ..XmChannelContext::default()
    };
    assert_eq!(channel.sample(&tune), 100);
    channel.advance(&tune);
    assert_eq!(channel.sample(&tune), 200);
    assert!(channel.instrument_state.is_some());
    channel.advance(&tune);
    assert!(channel.instrument_state.is_none());
    assert_eq!(channel.sample(&tune), 0);
}

#[test]
fn channel_with_a_missing_sample_is_silent_and_falls_idle() {
    let tune = module(1, &[1], vec![0], vec![sample(0, 0, 0, vec![100, 200])]);
    for (instrument, sample_index) in [(0usize, 1usize), (1, 0), (usize::MAX, usize::MAX)] {
        assert!(find_sample(&tune, instrument, sample_index).is_none());
        let mut channel = XmChannelContext {
            instrument_state: Some(XmInstrumentState::new(instrument, sample_index, 4544, 8363 << 16, 65536)),
            ..XmChannelContext::default()
        };
        assert_eq!(channel.sample(&tune), 0);
        channel.advance(&tune);
        assert!(channel.instrument_state.is_none());
    }
    assert!(find_sample(&tune, 0, 0).is_some());
}

#[test]
fn new_context_starts_at_the_first_row() {
    let tune = module(3, &[2, 1], vec![0, 1], vec![]);
    let context = XmPlaybackContext::new(tune, 44100);
    assert_eq!(context.sample_rate, 44100);
    assert_eq!(context.tempo, 3);
    assert_eq!(context.bpm, 125);
    assert_eq!(context.current_order, 0);
    assert_eq!(context.current_row, 0);
    assert_eq!(context.current_tick, 0);
    assert_eq!(context.left_samples_in_tick, 882 * 65536);
    assert_eq!(context.jump_dest, None);
    assert_eq!(context.jump_row, None);
    assert_eq!(context.extra_ticks, 0);
    assert_eq!(context.channels, vec![Some(XmChannelContext::default()); 3]);
    assert_eq!(context.rows_in_current_pattern(), 2);
}

#[test]
fn ticks_step_through_rows_and_orders() {
    let tune = module(1, &[2, 1], vec![0, 1, 0], vec![]);
    let mut context = XmPlaybackContext::new(tune, 44100);
    let mut seen = Vec::new();
    for _ in 0..18 {
        context.tick();
        seen.push((context.current_order, context.current_row, context.current_tick));
    }
    assert_eq!(
        seen,
        vec![
            (0, 0, 1),
            (0, 0, 2),
            (0, 1, 0),
            (0, 1, 1),
            (0, 1, 2),
            (1, 0, 0),
            (1, 0, 1),
            (1, 0, 2),
            (2, 0, 0),
            (2, 0, 1),
            (2, 0, 2),
            (2, 1, 0),
            (2, 1, 1),
            (2, 1, 2),
            (1, 0, 0),
            (1, 0, 1),
            (1, 0, 2),
            (2, 0, 0)
        ]
    );
    assert_eq!(context.left_samples_in_tick, 19 * 882 * 65536);
}

#[test]
fn pending_jumps_are_used_up_at_the_end_of_the_row() {
    let tune = module(1, &[4, 4, 4], vec![0, 1, 2], vec![]);
    let mut context = XmPlaybackContext::new(tune, 44100);
    context.tempo = 1;
    context.jump_row = Some(3);
    context.tick();
    assert_eq!((context.current_order, context.current_row, context.current_tick), (1, 3, 0));
    assert_eq!((context.jump_dest, context.jump_row), (None, None));
    context.jump_dest = Some(2);
    context.tick();
    assert_eq!((context.current_order, context.current_row), (2, 0));
    context.jump_dest = Some(0);
    context.jump_row = Some(2);
    context.extra_ticks = 2;
    context.tick();
    assert_eq!((context.current_order, context.current_row, context.current_tick), (2, 0, 1));
    assert_eq!((context.jump_dest, context.jump_row, context.extra_ticks), (Some(0), Some(2), 2));
    context.tick();
    context.tick();
    assert_eq!((context.current_order, context.current_row, context.current_tick), (0, 2, 0));
    assert_eq!((context.jump_dest, context.jump_row, context.extra_ticks), (None, None, 0));
    context.jump_dest = Some(200);
    context.tick();
    assert_eq!((context.current_order, context.current_row), (1, 0));
}

#[test]
fn a_frame_uses_up_the_tick() {
    let tune = module(0, &[1], vec![0], vec![]);
    let mut context = XmPlaybackContext::new(tune, 100);
    assert_eq!(context.left_samples_in_tick, 2 * 65536);
    context.advance();
    assert_eq!((context.left_samples_in_tick, context.current_tick), (65536, 0));
    context.advance();
    assert_eq!((context.left_samples_in_tick, context.current_tick), (0, 0));
    context.advance();
    assert_eq!((context.left_samples_in_tick, context.current_tick), (65536, 1));
    context.left_samples_in_tick = i64::MIN;
    context.bpm = 0;
    context.advance();
    assert_eq!(context.left_samples_in_tick, -65537);
}

#[test]
fn playing_channels_are_mixed() {
    let waves = vec![sample(0, 0, 0, vec![1000, 2000, 3000]), sample(0, 0, 0, vec![-400, -400])];
    let tune = module(3, &[1], vec![0], waves);
    let mut context = XmPlaybackContext::new(tune, 44100);
    context.channels[0] = Some(XmChannelContext {
        instrument_state: Some(XmInstrumentState::new(0, 0, 4544, 8363 << 16, 65536)),
        volume: 32768,
        panning: 0,
        ..XmChannelContext::default()
    });
    context.channels[1] = None;
    context.channels[2] = Some(XmChannelContext {
        instrument_state: Some(XmInstrumentState::new(0, 1, 4544, 8363 << 16, 32768)),
        panning: 65536,
        ..XmChannelContext::default()
    });
    assert_eq!(context.sample(), (500, -400));
    context.advance();
    assert_eq!(context.sample(), (1000, -400));
    context.advance();
    assert_eq!(context.sample(), (1500, -400));
    context.advance();
    assert_eq!(context.sample(), (0, -400));
    assert!(context.channels[0].unwrap().instrument_state.is_none());
    assert!(context.channels[1].is_none());
    context.advance();
    assert_eq!(context.sample(), (0, 0));
    context.channels[2] = Some(XmChannelContext {
        instrument_state: Some(XmInstrumentState::new(0, 0, 4544, 8363 << 16, 0)),
        ..XmChannelContext::default()
    });
    assert_eq!(context.sample(), (707, 707));
}
