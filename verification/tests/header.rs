use xm_tracker::error::{XmError, XmErrorKind};
use xm_tracker::header::parse;
use xm_tracker::text::fixed_length_string;

fn text_field(text: &str, len: usize) -> Vec<u8> {
    let mut out = text.as_bytes().to_vec();
    assert!(out.len() <= len);
    out.resize(len, 0);
    out
}

fn le16(v: u16) -> Vec<u8> {
    vec![(v & 0xff) as u8, (v >> 8) as u8]
}

fn le32(v: u32) -> Vec<u8> {
    vec![(v & 0xff) as u8, ((v >> 8) & 0xff) as u8, ((v >> 16) & 0xff) as u8, (v >> 24) as u8]
}

/// A header with the given counts: song length, channels, patterns,
/// instruments.
fn header_bytes(header_size: u32, counts: [u16; 4], flags: u16) -> Vec<u8> {
    let mut out = Vec::new();
    out.extend(text_field("Extended Module: ", 17));
    out.extend(text_field("a tune", 20));
    out.push(0x1a);
    out.extend(text_field("FastTracker v2.00", 20));
    out.extend(le16(0x0104));
    out.extend(le32(header_size));
    out.extend(le16(counts[0]));
    out.extend(le16(3));
    out.extend(le16(counts[1]));
    out.extend(le16(counts[2]));
    out.extend(le16(counts[3]));
    out.extend(le16(flags));
    out.extend(le16(6));
    out.extend(le16(125));
    out
}

fn kind_of(data: &[u8]) -> Result<usize, XmError> {
    parse(data, 0).map(|(_, end)| end)
}

#[test]
fn header_fields_are_decoded() {
    let data = header_bytes(276, [2, 8, 5, 7], 1);
    let ((header, id_text, marker, table_size), end) = parse(&data, 0).unwrap();
    assert_eq!(end, 80);
    assert_eq!(id_text, "Extended Module: ");
    assert_eq!(marker, 0x1a);
    assert_eq!(table_size, 256);
    assert_eq!(header.module_name, "a tune");
    assert_eq!(header.tracker_name, "FastTracker v2.00");
    assert_eq!(header.version, 0x0104);
    assert_eq!(header.song_length, 2);
    assert_eq!(header.restart_pos, 3);
    assert_eq!(header.channels_num, 8);
    assert_eq!(header.patterns_num, 5);
    assert_eq!(header.instruments_num, 7);
    assert!(!header.is_amiga);
    assert_eq!(header.default_tempo, 6);
    assert_eq!(header.default_bpm, 125);
}

#[test]
fn header_is_decoded_at_a_position() {
    let mut data = vec![0xaa, 0xbb, 0xcc];
    data.extend(header_bytes(21, [1, 4, 1, 0], 0));
    let ((header, _, _, table_size), end) = parse(&data, 3).unwrap();
    assert_eq!(end, 83);
    assert_eq!(table_size, 1);
    assert!(header.is_amiga);
    assert_eq!(header.channels_num, 4);
}

#[test]
fn counts_at_their_bounds_decode() {
    assert_eq!(kind_of(&header_bytes(276, [1, 0, 1, 0], 1)), Ok(80));
    assert_eq!(kind_of(&header_bytes(276, [256, 127, 256, 128], 1)), Ok(80));
}

#[test]
fn song_length_out_of_bounds_fails() {
    let zero = header_bytes(276, [0, 4, 1, 0], 1);
    assert_eq!(kind_of(&zero), Err(XmError { kind: XmErrorKind::SongLength, offset: 64 }));
    let large = header_bytes(276, [257, 4, 1, 0], 1);
    assert_eq!(kind_of(&large), Err(XmError { kind: XmErrorKind::SongLength, offset: 64 }));
}

#[test]
fn channel_count_out_of_bounds_fails() {
    let data = header_bytes(276, [1, 128, 1, 0], 1);
    assert_eq!(kind_of(&data), Err(XmError { kind: XmErrorKind::ChannelCount, offset: 68 }));
}

#[test]
fn pattern_count_out_of_bounds_fails() {
    let zero = header_bytes(276, [1, 4, 0, 0], 1);
    assert_eq!(kind_of(&zero), Err(XmError { kind: XmErrorKind::PatternCount, offset: 70 }));
    let large = header_bytes(276, [1, 4, 257, 0], 1);
    assert_eq!(kind_of(&large), Err(XmError { kind: XmErrorKind::PatternCount, offset: 70 }));
}

#[test]
fn instrument_count_out_of_bounds_fails() {
    let data = header_bytes(276, [1, 4, 1, 129], 1);
    assert_eq!(kind_of(&data), Err(XmError { kind: XmErrorKind::InstrumentCount, offset: 72 }));
}

#[test]
fn header_size_below_its_base_fails() {
    let data = header_bytes(19, [1, 4, 1, 0], 1);
    assert_eq!(kind_of(&data), Err(XmError { kind: XmErrorKind::HeaderSize, offset: 60 }));
}

#[test]
fn a_bad_count_is_found_before_a_short_input() {
    let mut data = header_bytes(276, [1, 200, 1, 0], 1);
    data.truncate(70);
    assert_eq!(kind_of(&data), Err(XmError { kind: XmErrorKind::ChannelCount, offset: 68 }));
}

#[test]
fn short_header_is_reported_at_the_field_that_is_cut() {
    let data = header_bytes(276, [1, 4, 1, 0], 1);
    assert_eq!(kind_of(&data[..10]), Err(XmError { kind: XmErrorKind::UnexpectedEnd, offset: 0 }));
    assert_eq!(kind_of(&data[..17]), Err(XmError { kind: XmErrorKind::UnexpectedEnd, offset: 17 }));
    assert_eq!(kind_of(&data[..37]), Err(XmError { kind: XmErrorKind::UnexpectedEnd, offset: 37 }));
    assert_eq!(kind_of(&data[..57]), Err(XmError { kind: XmErrorKind::UnexpectedEnd, offset: 38 }));
    assert_eq!(kind_of(&data[..59]), Err(XmError { kind: XmErrorKind::UnexpectedEnd, offset: 58 }));
    assert_eq!(kind_of(&data[..63]), Err(XmError { kind: XmErrorKind::UnexpectedEnd, offset: 60 }));
    assert_eq!(kind_of(&data[..65]), Err(XmError { kind: XmErrorKind::UnexpectedEnd, offset: 64 }));
    assert_eq!(kind_of(&data[..79]), Err(XmError { kind: XmErrorKind::UnexpectedEnd, offset: 78 }));
    assert_eq!(kind_of(&data[..80]), Ok(80));
}

#[test]
fn text_is_trimmed_of_trailing_zero_bytes() {
    let data = [b'a', b'b', 0, b'c', 0, 0, 0, b'x'];
    let (text, end) = fixed_length_string(&data, 0, 7).unwrap();
    assert_eq!(text, "ab\0c");
    assert_eq!(end, 7);
}

#[test]
fn text_of_zero_bytes_is_empty() {
    let data = [0u8; 5];
    assert_eq!(fixed_length_string(&data, 1, 4), Ok((String::new(), 5)));
    assert_eq!(fixed_length_string(&data, 5, 0), Ok((String::new(), 5)));
}

#[test]
fn text_holds_characters_of_several_bytes() {
    let data = "né€".as_bytes();
    assert_eq!(fixed_length_string(data, 0, data.len()), Ok((String::from("né€"), 6)));
}

#[test]
fn text_that_is_not_utf8_fails() {
    let data = [b'a', 0xff, b'b', 0];
    assert_eq!(
        fixed_length_string(&data, 0, 4),
        Err(XmError { kind: XmErrorKind::InvalidText, offset: 0 })
    );
    let cut = [b'a', 0xc3, 0, 0];
    assert_eq!(
        fixed_length_string(&cut, 0, 4),
        Err(XmError { kind: XmErrorKind::InvalidText, offset: 0 })
    );
}

#[test]
fn text_longer_than_the_input_fails() {
    let data = [b'a', b'b'];
    assert_eq!(
        fixed_length_string(&data, 1, 2),
        Err(XmError { kind: XmErrorKind::UnexpectedEnd, offset: 1 })
    );
}

#[test]
fn invalid_name_in_header_fails_at_the_name() {
    let mut data = header_bytes(276, [1, 4, 1, 0], 1);
    data[20] = 0xff;
    assert_eq!(kind_of(&data), Err(XmError { kind: XmErrorKind::InvalidText, offset: 17 }));
}
