use xm_tracker::context::XmPlaybackContext;
use xm_tracker::error::{XmError, XmErrorKind};
use xm_tracker::instrument::XmSamplePcmData;
use xm_tracker::note::XmNote;
use xm_tracker::parse;

fn le16(v: u16) -> Vec<u8> {
    vec![(v & 0xff) as u8, (v >> 8) as u8]
}

fn le32(v: u32) -> Vec<u8> {
    vec![(v & 0xff) as u8, ((v >> 8) & 0xff) as u8, ((v >> 16) & 0xff) as u8, (v >> 24) as u8]
}

fn text_field(text: &str, len: usize) -> Vec<u8> {
    let mut out = text.as_bytes().to_vec();
    out.resize(len, 0);
    out
}

/// A header with the given counts (song length, channels, patterns,
/// instruments), tempo 6 and 125 beats a minute, and its order table.
fn header_bytes(counts: [u16; 4], order_table: &[u8]) -> Vec<u8> {
    let mut out = Vec::new();
    out.extend(text_field("Extended Module: ", 17));
    out.extend(text_field("silence", 20));
    out.push(0x1a);
    out.extend(text_field("a tracker", 20));
    out.extend(le16(0x0104));
    out.extend(le32(20 + order_table.len() as u32));
    out.extend(le16(counts[0]));
    out.extend(le16(0));
    out.extend(le16(counts[1]));
    out.extend(le16(counts[2]));
    out.extend(le16(counts[3]));
    out.extend(le16(1));
    out.extend(le16(6));
    out.extend(le16(125));
    out.extend_from_slice(order_table);
    out
}

fn pattern_bytes(rows: u16, slots: &[u8]) -> Vec<u8> {
    let mut out = le32(9);
    out.push(0);
    out.extend(le16(rows));
    out.extend(le16(slots.len() as u16));
    out.extend_from_slice(slots);
    out
}

fn plain_instrument_bytes(name: &str) -> Vec<u8> {
    let mut out = le32(29);
    out.extend(text_field(name, 22));
    out.push(0);
    out.extend(le16(0));
    out
}

fn instrument_with_sample_bytes(name: &str, kind: u8, data: &[u8]) -> Vec<u8> {
    let mut out = le32(263);
    out.extend(text_field(name, 22));
    out.push(0);
    out.extend(le16(1));
    out.extend(le32(40));
    out.extend([0u8; 96]);
    out.extend([0u8; 96]);
    out.extend([0u8; 10]);
    out.extend([0, 0, 0, 0]);
    out.extend(le16(0));
    out.extend([0u8; 22]);
    out.extend(le32(data.len() as u32));
    out.extend(le32(0));
    out.extend(le32(0));
    out.extend([64, 0, kind, 128, 0, 0]);
    out.extend(text_field("wave", 22));
    out.extend_from_slice(data);
    out
}

fn silent_module_bytes() -> Vec<u8> {
    let mut data = header_bytes([1, 4, 1, 0], &[0]);
    data.extend(pattern_bytes(1, &[0x80, 0x80, 0x80, 0x80]));
    data
}

#[test]
fn module_of_one_empty_row_decodes() {
    let data = silent_module_bytes();
    let (rest, module) = parse(&data).unwrap();
    assert!(rest.is_empty());
    assert_eq!(module.header.song_length, 1);
    assert_eq!(module.header.channels_num, 4);
    assert_eq!(module.header.patterns_num, 1);
    assert_eq!(module.header.instruments_num, 0);
    assert_eq!(module.header.default_tempo, 6);
    assert_eq!(module.header.default_bpm, 125);
    assert_eq!(module.pattern_order_table, vec![0u8]);
    assert!(module.instruments.is_empty());
    assert_eq!(module.patterns.len(), 1);
    let (header, rows) = &module.patterns[0];
    assert_eq!(header.rows_num, 1);
    assert_eq!(rows.0.len(), 1);
    assert_eq!(rows.0[0].0.len(), 4);
    for slot in rows.0[0].0.iter() {
        assert_eq!(slot.note, XmNote::NoNote);
        assert_eq!(slot.instrument_index, None);
        assert_eq!(slot.volume_column, None);
        assert_eq!(slot.effect, None);
    }
}

#[test]
fn module_of_one_empty_row_plays_silence() {
    let data = silent_module_bytes();
    for sample_rate in [0u32, 1, 8000, 44100, 48000, u32::MAX] {
        let (_, module) = parse(&data).unwrap();
        let mut context = XmPlaybackContext::new(module, sample_rate);
        assert_eq!(context.channels.len(), 4);
        for _ in 0..5000 {
            assert_eq!(context.sample(), (0, 0));
            context.advance();
        }
    }
}

#[test]
fn module_with_patterns_and_instruments_decodes() {
    let mut data = header_bytes([3, 2, 2, 2], &[1, 0, 1, 9, 9]);
    data.extend(pattern_bytes(2, &[0x80, 0x83, 49, 1, 0x80, 0x80]));
    data.extend(pattern_bytes(1, &[0x81, 97, 0x88, 0x0d]));
    data.extend(plain_instrument_bytes("none"));
    data.extend(instrument_with_sample_bytes("some", 0x11, &[1, 0, 2, 0, 0xfd, 0xff]));
    data.extend([0xde, 0xad]);
    let (rest, module) = parse(&data).unwrap();
    assert_eq!(rest, &[0xde, 0xad][..]);
    assert_eq!(module.pattern_order_table, vec![1u8, 0, 1]);
    assert_eq!(module.patterns.len(), 2);
    assert_eq!(module.patterns[0].1 .0.len(), 2);
    assert_eq!(module.patterns[1].1 .0.len(), 1);
    assert_eq!(module.patterns[0].1 .0[0].0[1].instrument_index, Some(1));
    assert_eq!(module.patterns[1].1 .0[0].0[0].note, XmNote::NoteOff);
    assert_eq!(module.instruments.len(), 2);
    assert_eq!(module.instruments[0].0.name, "none");
    assert!(module.instruments[0].1.is_empty());
    assert_eq!(module.instruments[1].0.name, "some");
    assert_eq!(module.instruments[1].1.len(), 1);
    match &module.instruments[1].1[0].1 {
        XmSamplePcmData::Bit16Data(v) => assert_eq!(v, &vec![1i16, 3, 0]),
        _ => panic!("not 16-bit data"),
    }
}

#[test]
fn module_fails_with_the_error_of_its_first_bad_part() {
    let data = header_bytes([2, 4, 1, 0], &[0]);
    assert_eq!(parse(&data).map(|r| r.0.len()), Err(XmError { kind: XmErrorKind::OrderTable, offset: 80 }));
    let mut data = header_bytes([1, 4, 2, 0], &[0]);
    data.extend(pattern_bytes(1, &[0x80, 0x80, 0x80, 0x80]));
    data.extend(pattern_bytes(0, &[]));
    assert_eq!(parse(&data).map(|r| r.0.len()), Err(XmError { kind: XmErrorKind::RowCount, offset: 99 }));
    let mut data = header_bytes([1, 1, 1, 2], &[0]);
    data.extend(pattern_bytes(1, &[0x80]));
    data.extend(plain_instrument_bytes("only"));
    assert_eq!(
        parse(&data).map(|r| r.0.len()),
        Err(XmError { kind: XmErrorKind::UnexpectedEnd, offset: data.len() })
    );
    assert_eq!(parse(&[]).map(|r| r.0.len()), Err(XmError { kind: XmErrorKind::UnexpectedEnd, offset: 0 }));
}

#[test]
fn test_parse_xm_header_first() {
    let mut data = header_bytes([2, 2, 1, 1], &[0, 0]);
    data.extend(pattern_bytes(2, &[0x83, 49, 1, 0x80, 0x98, 0x0e, 0x93, 0x84, 0x40]));
    data.extend(instrument_with_sample_bytes("sine", 0x00, &[10, 10, 0xf6, 0xf6]));
    let (_input, format) = parse(&data).unwrap();

    println!("{:?}", format.pattern_order_table);
    println!("{:#?}", format.instruments.len());
    println!("{}", format.patterns[0].1.to_text());

    assert_eq!(format.pattern_order_table, vec![0u8, 0]);
    assert_eq!(format.instruments.len(), 1);
    assert_eq!(
        format.patterns[0].1.to_text(),
        "|C-501......|...........|\n|........E93|.....v48...|\n"
    );
}
