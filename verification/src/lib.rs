//! A decoder for FastTracker II Extended Module ("XM") files, and the
//! playback state that runs on a decoded module.

use vstd::prelude::*;
use crate::bytes::{Decoded, Outcome};
use vstd::slice::slice_subrange;

pub mod bits;
pub mod bytes;
pub mod context;
pub mod digits;
pub mod effect;
pub mod error;
pub mod fixed;
pub mod frequency;
pub mod header;
pub mod instrument;
pub mod interpolation;
pub mod note;
pub mod pattern;
pub mod repeat;
pub mod text;

use crate::error::XmError;
use crate::header::{header_at, XmHeaderView};
use crate::instrument::{
    instrument_at, samples_view, XmInstrumentHeader, XmInstrumentHeaderView, XmSampleHeader,
    XmSampleHeaderView, XmSamplePcmData, XmSamplePcmView,
};
use crate::pattern::{
    order_table_at, pattern_at, XmPatternHeader, XmPatternOrderTable, XmPatternRows, XmPatternSlot,
};
use crate::repeat::{lemma_repeat_err, repeat_at, ItemAt};

verus! {

/// A sample: its header and its data.
pub type XmSample = (XmSampleHeader, XmSamplePcmData);

/// The instruments of a module, each with its samples.
pub type XmInstrumentCollection = Vec<(XmInstrumentHeader, Vec<XmSample>)>;

/// A pattern: its header and its rows.
pub type XmPattern = (XmPatternHeader, XmPatternRows);

/// The patterns of a module.
pub type XmPatternCollection = Vec<XmPattern>;

/// A pattern as a mathematical value.
pub type XmPatternView = (XmPatternHeader, Seq<Seq<XmPatternSlot>>);

/// An instrument with its samples as a mathematical value.
pub type XmInstrumentView = (XmInstrumentHeaderView, Seq<(XmSampleHeaderView, XmSamplePcmView)>);

/// A decoded module.
#[derive(Clone, Debug)]
pub struct XmModule {
    pub header: header::XmHeader,
    pub patterns: XmPatternCollection,
    pub instruments: XmInstrumentCollection,
    pub pattern_order_table: XmPatternOrderTable,
}

/// A module as a mathematical value.
pub struct XmModuleView {
    pub header: XmHeaderView,
    pub patterns: Seq<XmPatternView>,
    pub instruments: Seq<XmInstrumentView>,
    pub pattern_order_table: Seq<u8>,
}

/// The patterns of `v` as mathematical values.
pub open spec fn patterns_view(v: Seq<XmPattern>) -> Seq<XmPatternView> {
    Seq::new(v.len(), |i: int| (v[i].0, v[i].1@))
}

/// The instruments of `v` as mathematical values.
pub open spec fn instruments_view(
    v: Seq<(XmInstrumentHeader, Vec<XmSample>)>,
) -> Seq<XmInstrumentView> {
    Seq::new(v.len(), |i: int| (v[i].0@, samples_view(v[i].1@)))
}

impl View for XmModule {
    type V = XmModuleView;

    open spec fn view(&self) -> XmModuleView {
        XmModuleView {
            header: self.header@,
            patterns: patterns_view(self.patterns@),
            instruments: instruments_view(self.instruments@),
            pattern_order_table: self.pattern_order_table@,
        }
    }
}

impl XmModuleView {
    /// The parts of the module are as many, and as large, as its header
    /// says.
    pub open spec fn well_formed(self) -> bool {
        &&& self.header.in_bounds()
        &&& self.pattern_order_table.len() == self.header.song_length
        &&& self.patterns.len() == self.header.patterns_num
        &&& self.instruments.len() == self.header.instruments_num
        &&& forall|i: int|
            0 <= i < self.patterns.len() ==> {
                &&& (#[trigger] self.patterns[i]).1.len() == self.patterns[i].0.rows_num
                &&& forall|j: int|
                    0 <= j < self.patterns[i].1.len() ==> (#[trigger] self.patterns[i].1[j]).len()
                        == self.header.channels_num
            }
        &&& forall|i: int|
            0 <= i < self.instruments.len() ==> (#[trigger] self.instruments[i]).1.len()
                == self.instruments[i].0.samples_num
    }
}

/// Decoding one pattern of `channels` slots a row, as a function of the
/// input and the position.
pub open spec fn pattern_item(channels: nat) -> ItemAt<XmPatternView> {
    |s: Seq<u8>, pos: int| pattern_at(s, pos, channels)
}

/// Decoding one instrument, as a function of the input and the position.
pub open spec fn instrument_item() -> ItemAt<XmInstrumentView> {
    |s: Seq<u8>, pos: int| instrument_at(s, pos)
}

/// What decoding the module stored in `s` gives: the header, the order
/// table, then as many patterns and as many instruments as the header says;
/// and the position behind the last of them.
pub open spec fn module_at(s: Seq<u8>) -> Outcome<XmModuleView> {
    match header_at(s, 0) {
        Err(e) => Err(e),
        Ok((parts, p1)) => match order_table_at(
            s,
            p1,
            parts.header.song_length as int,
            parts.order_table_size as int,
        ) {
            Err(e) => Err(e),
            Ok((pattern_order_table, p2)) => match repeat_at(
                pattern_item(parts.header.channels_num as nat),
                s,
                p2,
                parts.header.patterns_num as nat,
            ) {
                Err(e) => Err(e),
                Ok((patterns, p3)) => match repeat_at(
                    instrument_item(),
                    s,
                    p3,
                    parts.header.instruments_num as nat,
                ) {
                    Err(e) => Err(e),
                    Ok((instruments, end)) => Ok(
                        (XmModuleView { header: parts.header, patterns, instruments, pattern_order_table }, end),
                    ),
                },
            },
        },
    }
}

/// Decodes `count` patterns of `channels_num` slots a row at `pos`.
fn parse_patterns(
    data: &[u8],
    pos: usize,
    channels_num: u16,
    count: u16,
) -> (r: Decoded<XmPatternCollection>)
    requires
        pos <= data@.len(),
    ensures
        match repeat_at(pattern_item(channels_num as nat), data@, pos as int, count as nat) {
            Ok((patterns, end)) => r matches Ok((v, p)) && patterns_view(v@) == patterns && p == end
                && pos <= p <= data@.len(),
            Err(e) => r == Err::<(XmPatternCollection, usize), XmError>(e),
        },
        r matches Ok((v, _)) ==> {
            &&& v@.len() == count
            &&& forall|i: int|
                0 <= i < v@.len() ==> {
                    &&& (#[trigger] v@[i]).1@.len() == v@[i].0.rows_num
                    &&& forall|j: int|
                        0 <= j < v@[i].1@.len() ==> (#[trigger] v@[i].1@[j]).len() == channels_num
                }
        },
{
    let mut patterns: XmPatternCollection = Vec::new();
    let mut p: usize = pos;
    let mut i: u16 = 0;
    assert(patterns_view(patterns@) =~= Seq::<XmPatternView>::empty());
    while i < count
        invariant
            i <= count,
            pos <= p <= data@.len(),
            patterns@.len() == i,
            repeat_at(pattern_item(channels_num as nat), data@, pos as int, i as nat) == Ok::<
                (Seq<XmPatternView>, int),
                XmError,
            >((patterns_view(patterns@), p as int)),
            forall|k: int|
                0 <= k < patterns@.len() ==> {
                    &&& (#[trigger] patterns@[k]).1@.len() == patterns@[k].0.rows_num
                    &&& forall|j: int|
                        0 <= j < patterns@[k].1@.len() ==> (#[trigger] patterns@[k].1@[j]).len()
                            == channels_num
                },
        decreases count - i,
    {
        let ghost item = pattern_item(channels_num as nat);
        assert(item(data@, p as int) == pattern_at(data@, p as int, channels_num as nat));
        match pattern::parse(data, p, channels_num) {
            Ok(((header, rows, _excess), next)) => {
                assert(patterns_view(patterns@.push((header, rows))) =~= patterns_view(patterns@).push(
                    (header, rows@),
                ));
                patterns.push((header, rows));
                p = next;
            },
            Err(e) => {
                proof {
                    lemma_repeat_err(item, data@, pos as int, (i + 1) as nat, count as nat);
                }
                return Err(e);
            },
        }
        i = i + 1;
    }
    Ok((patterns, p))
}

/// Decodes `count` instruments at `pos`.
fn parse_instruments(data: &[u8], pos: usize, count: u16) -> (r: Decoded<XmInstrumentCollection>)
    requires
        pos <= data@.len(),
    ensures
        match repeat_at(instrument_item(), data@, pos as int, count as nat) {
            Ok((instruments, end)) => r matches Ok((v, p)) && instruments_view(v@) == instruments && p
                == end && pos <= p <= data@.len(),
            Err(e) => r == Err::<(XmInstrumentCollection, usize), XmError>(e),
        },
        r matches Ok((v, _)) ==> {
            &&& v@.len() == count
            &&& forall|i: int| 0 <= i < v@.len() ==> (#[trigger] v@[i]).1@.len() == v@[i].0.samples_num
        },
{
    let mut instruments: XmInstrumentCollection = Vec::new();
    let mut p: usize = pos;
    let mut i: u16 = 0;
    assert(instruments_view(instruments@) =~= Seq::<XmInstrumentView>::empty());
    while i < count
        invariant
            i <= count,
            pos <= p <= data@.len(),
            instruments@.len() == i,
            repeat_at(instrument_item(), data@, pos as int, i as nat) == Ok::<
                (Seq<XmInstrumentView>, int),
                XmError,
            >((instruments_view(instruments@), p as int)),
            forall|k: int|
                0 <= k < instruments@.len() ==> (#[trigger] instruments@[k]).1@.len()
                    == instruments@[k].0.samples_num,
        decreases count - i,
    {
        let ghost item = instrument_item();
        assert(item(data@, p as int) == instrument_at(data@, p as int));
        match instrument::parse(data, p) {
            Ok(((header, samples), next)) => {
                assert(instruments_view(instruments@.push((header, samples))) =~= instruments_view(
                    instruments@,
                ).push((header@, samples_view(samples@))));
                instruments.push((header, samples));
                p = next;
            },
            Err(e) => {
                proof {
                    lemma_repeat_err(item, data@, pos as int, (i + 1) as nat, count as nat);
                }
                return Err(e);
            },
        }
        i = i + 1;
    }
    Ok((instruments, p))
}

/// Decodes the module stored in `data`, and returns it with the input that
/// follows it.
pub fn parse<'a>(data: &'a [u8]) -> (r: Result<(&'a [u8], XmModule), XmError>)
    ensures
        match module_at(data@) {
            Ok((module, end)) => r matches Ok((rest, m)) && m@ == module && rest@ == data@.subrange(
                end,
                data@.len() as int,
            ),
            Err(e) => r == Err::<(&[u8], XmModule), XmError>(e),
        },
        r matches Ok((_, m)) ==> m@.well_formed(),
{
    let ((header, _id_text, _marker, order_table_size), input) = header::parse(data, 0)?;
    let (pattern_order_table, input) = pattern::parse_order_table_raw(
        data,
        input,
        header.song_length as usize,
        order_table_size as usize,
    )?;
    let (patterns, input) = parse_patterns(data, input, header.channels_num, header.patterns_num)?;
    let (instruments, input) = parse_instruments(data, input, header.instruments_num)?;
    let rest = slice_subrange(data, input, data.len());
    let module = XmModule { header, patterns, instruments, pattern_order_table };
    proof {
        assert forall|i: int| 0 <= i < module@.patterns.len() implies {
            &&& (#[trigger] module@.patterns[i]).1.len() == module@.patterns[i].0.rows_num
            &&& forall|j: int|
                0 <= j < module@.patterns[i].1.len() ==> (#[trigger] module@.patterns[i].1[j]).len()
                    == module@.header.channels_num
        } by {
            assert(module@.patterns[i] == (module.patterns@[i].0, module.patterns@[i].1@));
        }
        assert forall|i: int| 0 <= i < module@.instruments.len() implies (
        #[trigger] module@.instruments[i]).1.len() == module@.instruments[i].0.samples_num by {
            assert(module@.instruments[i] == (module.instruments@[i].0@, samples_view(module.instruments@[i].1@)));
        }
    }
    Ok((rest, module))
}

} // verus!
