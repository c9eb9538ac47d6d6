//! Playback state: the cursor of each channel in the sample it plays, and
//! the clock that steps through the rows of a module.
//!
//! Positions in a sample and lengths of time are counted in units of 1/65536
//! of a sample; volumes and panning positions in units of 1/65536, so that
//! 65536 is full volume and 32768 the middle between left and right.

use vstd::prelude::*;
use crate::fixed::{clamp_i64, clamp_u64, isqrt, lemma_root, lemma_scaled, root, scale, scaled};
use crate::frequency::{linear_period, note_index, tone_to_raw, Linear};
use crate::instrument::{XmResamplingType, XmSampleHeaderView, XmSampleLoopType, XmSamplePcmView};
use crate::note::XmNote;
use crate::pattern::XmPatternSlot;
use crate::{XmModule, XmSample};

verus! {

/// One whole sample, or full volume, in the units of this module.
pub const XM_ONE: u64 = 65536;

/// The playing of one sample of one instrument on a channel.
#[derive(Clone, Copy, Debug, PartialEq, Eq, Structural)]
pub struct XmInstrumentState {
    /// The place of the instrument among the instruments of the module.
    pub instrument: usize,
    /// The place of the sample among the samples of the instrument.
    pub sample: usize,
    /// The position in the sample.
    pub sample_position: u64,
    /// The period of the note that plays.
    pub period: u16,
    /// The frequency of the note that plays, in units of 1/65536 Hz.
    pub frequency: u64,
    /// By how much the position moves with every output frame.
    pub step: u32,
    /// Whether a bidirectional loop is on its way forward.
    pub ping: bool,
}

/// The position at which the loop of a sample starts.
pub open spec fn loop_start_of(header: XmSampleHeaderView) -> int {
    header.loop_start * 65536
}

/// The position at which the loop of a sample ends.
pub open spec fn loop_end_of(header: XmSampleHeaderView) -> int {
    (header.loop_start + header.loop_length) * 65536
}

impl XmInstrumentState {
    /// The position one step further on.
    pub open spec fn stepped_up(self) -> u64 {
        clamp_u64(self.sample_position + self.step)
    }

    /// The position one step further back.
    pub open spec fn stepped_down(self) -> u64 {
        clamp_u64(self.sample_position - self.step)
    }

    /// The state at `position`, going forward if `ping`.
    pub open spec fn moved_to(self, position: int, ping: bool) -> Self {
        XmInstrumentState { sample_position: position as u64, ping, ..self }
    }

    /// Whether the position lies within the loop of the sample.
    pub open spec fn in_loop(self, header: XmSampleHeaderView) -> bool {
        loop_start_of(header) <= self.sample_position <= loop_end_of(header)
    }

    /// What one output frame makes of the state, on a sample with `header`
    /// and `len` samples of data, and whether the sample has then played to
    /// its end.
    ///
    /// Without a loop the position moves on by one step, and the end is
    /// reached with the end of the data. A forward loop moves on and starts
    /// again at the start of the loop once it reaches the end of the loop. A
    /// bidirectional loop moves on, or back, and turns round where it reaches
    /// the end, or the start, of the loop, which is then its position.
    pub open spec fn advanced(self, header: XmSampleHeaderView, len: nat) -> (Self, bool) {
        let up = self.stepped_up();
        let down = self.stepped_down();
        if len == 0 {
            (self, true)
        } else {
            match header.kind.spec_loop_type() {
                XmSampleLoopType::ForwardLoop => if up >= loop_end_of(header) {
                    (self.moved_to(loop_start_of(header), self.ping), false)
                } else {
                    (self.moved_to(up as int, self.ping), false)
                },
                XmSampleLoopType::BidirectionalLoop => if self.ping {
                    if up >= loop_end_of(header) {
                        (self.moved_to(loop_end_of(header), false), false)
                    } else {
                        (self.moved_to(up as int, true), false)
                    }
                } else {
                    if down <= loop_start_of(header) {
                        (self.moved_to(loop_start_of(header), true), false)
                    } else {
                        (self.moved_to(down as int, false), false)
                    }
                },
                _ => (self.moved_to(up as int, self.ping), up / 65536 >= len),
            }
        }
    }

    /// The amplitude at the position, on a sample with `header` and the
    /// data `pcm`: read backwards on the way back of a bidirectional loop,
    /// forwards otherwise; zero where there is no data at the position.
    pub open spec fn amplitude(self, header: XmSampleHeaderView, pcm: XmSamplePcmView) -> i16 {
        let reversed = header.kind.spec_loop_type() == XmSampleLoopType::BidirectionalLoop && !self.ping;
        match pcm.interpolated(self.sample_position, reversed, XmResamplingType::LinearInterpolation) {
            Some(v) => v,
            None => 0,
        }
    }

    /// The state that starts to play a sample from its beginning.
    pub fn new(
        instrument: usize,
        sample: usize,
        period: u16,
        frequency: u64,
        step: u32,
    ) -> (r: Self)
        ensures
            r == (XmInstrumentState { instrument, sample, sample_position: 0, period, frequency, step, ping: true }),
    {
        XmInstrumentState { instrument, sample, sample_position: 0, period, frequency, step, ping: true }
    }

    /// Moves the position on by one output frame. Returns whether the
    /// sample has played to its end.
    pub fn advance(&mut self, sample: &XmSample) -> (finished: bool)
        ensures
            (*final(self), finished) == old(self).advanced(sample.0@, sample.1@.len()),
            sample.0.kind.spec_loop_type() == XmSampleLoopType::ForwardLoop && sample.1@.len() > 0 ==> {
                &&& final(self).sample_position <= loop_end_of(sample.0@)
                &&& sample.0.loop_length > 0 ==> final(self).sample_position < loop_end_of(sample.0@)
            },
            sample.0.kind.spec_loop_type() == XmSampleLoopType::BidirectionalLoop && sample.1@.len() > 0 ==> {
                &&& old(self).in_loop(sample.0@) ==> final(self).in_loop(sample.0@)
                &&& old(self).ping ==> (!final(self).ping <==> final(self).sample_position == loop_end_of(
                    sample.0@,
                ))
                &&& !old(self).ping ==> (final(self).ping <==> final(self).sample_position == loop_start_of(
                    sample.0@,
                ))
            },
    {
        if sample.1.len() == 0 {
            return true;
        }
        let loop_start: u64 = sample.0.loop_start as u64 * XM_ONE;
        let loop_end: u64 = (sample.0.loop_start as u64 + sample.0.loop_length as u64) * XM_ONE;
        match sample.0.kind.loop_type() {
            XmSampleLoopType::NoLoop | XmSampleLoopType::Unknown => {
                self.sample_position = self.sample_position.saturating_add(self.step as u64);
                // Without a loop the sample is done once its data is.
                self.sample_position / XM_ONE >= sample.1.len() as u64
            },
            XmSampleLoopType::ForwardLoop => {
                self.sample_position = self.sample_position.saturating_add(self.step as u64);
                if self.sample_position >= loop_end {
                    self.sample_position = loop_start;
                }
                false
            },
            XmSampleLoopType::BidirectionalLoop => {
                if self.ping {
                    self.sample_position = self.sample_position.saturating_add(self.step as u64);
                } else {
                    self.sample_position = self.sample_position.saturating_sub(self.step as u64);
                }
                if self.ping {
                    if self.sample_position >= loop_end {
                        self.ping = false;
                        self.sample_position = loop_end;
                    }
                } else {
                    if self.sample_position <= loop_start {
                        self.ping = true;
                        self.sample_position = loop_start;
                    }
                }
                false
            },
        }
    }

    /// The amplitude at the position.
    pub fn sample(&self, sample: &XmSample) -> (r: i16)
        ensures
            r == self.amplitude(sample.0@, sample.1@),
    {
        if sample.1.len() == 0 {
            // Nothing to play: there is no data.
            return 0;
        }
        let value = match sample.0.kind.loop_type() {
            XmSampleLoopType::NoLoop | XmSampleLoopType::ForwardLoop | XmSampleLoopType::Unknown => {
                sample.1.get_interpolated(self.sample_position, false, XmResamplingType::LinearInterpolation)
            },
            XmSampleLoopType::BidirectionalLoop => {
                if self.ping {
                    sample.1.get_interpolated(
                        self.sample_position,
                        false,
                        XmResamplingType::LinearInterpolation,
                    )
                } else {
                    sample.1.get_interpolated(self.sample_position, true, XmResamplingType::LinearInterpolation)
                }
            },
        };
        match value {
            Some(v) => v,
            None => 0,
        }
    }
}

/// A forward loop on a sample with data never leaves the position behind
/// the end of the loop, and where the loop has a length the position stays
/// before its end.
pub proof fn lemma_forward_loop(state: XmInstrumentState, header: XmSampleHeaderView, len: nat)
    requires
        header.kind.spec_loop_type() == XmSampleLoopType::ForwardLoop,
        len > 0,
    ensures
        !state.advanced(header, len).1,
        state.advanced(header, len).0.sample_position <= loop_end_of(header),
        header.loop_length > 0 ==> state.advanced(header, len).0.sample_position < loop_end_of(header),
{
}

/// A bidirectional loop on a sample with data keeps a position that lies
/// within the loop within the loop, and it turns round exactly where it
/// reaches an end of the loop: on the way forward at the end, on the way back
/// at the start.
pub proof fn lemma_bidirectional_loop(state: XmInstrumentState, header: XmSampleHeaderView, len: nat)
    requires
        header.kind.spec_loop_type() == XmSampleLoopType::BidirectionalLoop,
        len > 0,
    ensures
        !state.advanced(header, len).1,
        state.in_loop(header) ==> state.advanced(header, len).0.in_loop(header),
        state.ping ==> (!state.advanced(header, len).0.ping <==> state.advanced(header, len).0.sample_position
            == loop_end_of(header)),
        !state.ping ==> (state.advanced(header, len).0.ping <==> state.advanced(header, len).0.sample_position
            == loop_start_of(header)),
{
}

/// The state of one channel.
#[derive(Clone, Copy, Debug, PartialEq, Eq, Structural)]
pub struct XmChannelContext {
    /// The fine tuning of the channel, in Hz.
    pub fine_tune: i32,
    /// What the channel plays; `None` while it is idle.
    pub instrument_state: Option<XmInstrumentState>,
    /// The slot that the channel saw last.
    pub pattern_slot_state: Option<XmPatternSlot>,
    /// The volume: 0 is silence, 65536 full volume.
    pub volume: u32,
    /// The panning position: 0 is left, 65536 right.
    pub panning: u32,
}

/// The sample at place `sample` of the instrument at place `instrument` of
/// `module`, if there is one.
pub open spec fn sample_of(
    module: &XmModule,
    instrument: usize,
    sample: usize,
) -> Option<XmSample> {
    if instrument < module.instruments@.len() && sample < module.instruments@[instrument as int].1@.len() {
        Some(module.instruments@[instrument as int].1@[sample as int])
    } else {
        None
    }
}

/// Looks up a sample of an instrument of `module`.
pub fn find_sample(module: &XmModule, instrument: usize, sample: usize) -> (r: Option<&XmSample>)
    ensures
        match sample_of(module, instrument, sample) {
            Some(found) => r == Some(&found),
            None => r.is_none(),
        },
{
    if instrument < module.instruments.len() {
        let samples = &module.instruments[instrument].1;
        if sample < samples.len() {
            return Some(&samples[sample]);
        }
    }
    None
}

/// The channel at rest: idle, at full volume, in the middle.
pub open spec fn idle_channel() -> XmChannelContext {
    XmChannelContext {
        fine_tune: 0,
        instrument_state: None,
        pattern_slot_state: None,
        volume: 65536,
        panning: 32768,
    }
}

impl Default for XmChannelContext {
    fn default() -> (r: Self)
        ensures
            r == idle_channel(),
    {
        Self { fine_tune: 0, instrument_state: None, pattern_slot_state: None, volume: 65536, panning: 32768 }
    }
}

impl XmChannelContext {
    /// Volume and panning lie within their scales.
    pub open spec fn wf(&self) -> bool {
        self.volume <= 65536 && self.panning <= 65536
    }

    /// What one output frame makes of the channel. A channel that plays
    /// moves on in its sample, and falls idle when the sample has played to
    /// its end or is not there; an idle channel stays as it is.
    pub open spec fn advanced(self, module: &XmModule) -> Self {
        match self.instrument_state {
            None => self,
            Some(state) => match sample_of(module, state.instrument, state.sample) {
                None => XmChannelContext { instrument_state: None, ..self },
                Some(sample) => {
                    let (next, finished) = state.advanced(sample.0@, sample.1@.len());
                    if finished {
                        XmChannelContext { instrument_state: None, ..self }
                    } else {
                        XmChannelContext { instrument_state: Some(next), ..self }
                    }
                },
            },
        }
    }

    /// The amplitude of the channel: that of the sample it plays, and zero
    /// where it is idle or the sample is not there.
    pub open spec fn amplitude(self, module: &XmModule) -> i16 {
        match self.instrument_state {
            None => 0,
            Some(state) => match sample_of(module, state.instrument, state.sample) {
                None => 0,
                Some(sample) => state.amplitude(sample.0@, sample.1@),
            },
        }
    }

    /// Moves the channel on by one output frame.
    pub fn advance(&mut self, module: &XmModule)
        ensures
            *final(self) == old(self).advanced(module),
            old(self).wf() ==> final(self).wf(),
    {
        let mut state = match self.instrument_state {
            Some(state) => state,
            None => {
                return ;
            },
        };
        match find_sample(module, state.instrument, state.sample) {
            None => {
                self.instrument_state = None;
            },
            Some(sample) => {
                if state.advance(sample) {
                    // The sample is over: nothing plays on the channel any more.
                    self.instrument_state = None;
                } else {
                    self.instrument_state = Some(state);
                }
            },
        }
    }

    /// The amplitude of the channel.
    pub fn sample(&self, module: &XmModule) -> (r: i16)
        ensures
            r == self.amplitude(module),
    {
        match self.instrument_state {
            None => 0,
            Some(state) => match find_sample(module, state.instrument, state.sample) {
                None => 0,
                Some(sample) => state.sample(sample),
            },
        }
    }
}

/// The share of the left output at panning position `pan`: the square
/// root of what is left of the way to the right.
pub open spec fn left_gain(pan: u32) -> int {
    root(((65536 - pan) * 65536) as nat) as int
}

/// The share of the right output at panning position `pan`: the square
/// root of the way to the right.
pub open spec fn right_gain(pan: u32) -> int {
    root((pan * 65536) as nat) as int
}

/// The state of the playback of a module.
#[derive(Clone, Debug)]
pub struct XmPlaybackContext {
    pub module: XmModule,
    /// The number of output frames in a second.
    pub sample_rate: u32,
    /// The number of ticks in a row.
    pub tempo: u16,
    /// The beats in a minute, from which the length of a tick follows.
    pub bpm: u16,
    /// The place in the pattern order table.
    pub current_order: u32,
    pub current_row: u32,
    pub current_tick: u32,
    /// What is left of the current tick; the next tick is due once this is
    /// used up.
    pub left_samples_in_tick: i64,
    /// The place in the order table to jump to at the end of the row.
    pub jump_dest: Option<u8>,
    /// The row to start at after the end of the row.
    pub jump_row: Option<u8>,
    /// Ticks by which the current row is drawn out.
    pub extra_ticks: u16,
    /// The channels; `None` is a muted channel.
    pub channels: Vec<Option<XmChannelContext>>,
}

/// The length of a tick at `sample_rate` output frames a second: there are
/// `bpm * 0.4` ticks in a second. At zero beats a minute a tick does not end:
/// its length is the largest there is.
pub open spec fn samples_per_tick(sample_rate: u32, bpm: u16) -> i64 {
    if bpm == 0 {
        i64::MAX
    } else {
        ((sample_rate * 5 * 65536) / (bpm * 2)) as i64
    }
}

/// The number of rows of the pattern that plays at place `order` of the
/// order table; zero where there is none.
pub open spec fn rows_at_order(module: &XmModule, order: u32) -> int {
    if order < module.pattern_order_table@.len() && module.pattern_order_table@[order as int]
        < module.patterns@.len() {
        module.patterns@[module.pattern_order_table@[order as int] as int].0.rows_num as int
    } else {
        0
    }
}

/// What a channel, of volume and panning within their scales, puts out to
/// the left and to the right: its amplitude, scaled by its volume, shared
/// out by its panning position.
pub open spec fn channel_output(
    channel: Option<XmChannelContext>,
    module: &XmModule,
) -> (int, int) {
    match channel {
        None => (0, 0),
        Some(c) => {
            let v = scaled(c.amplitude(module) as int, c.volume as int);
            (scaled(v, left_gain(c.panning)), scaled(v, right_gain(c.panning)))
        },
    }
}

/// The sum of what the first `count` channels put out.
pub open spec fn mixed(
    channels: Seq<Option<XmChannelContext>>,
    module: &XmModule,
    count: nat,
) -> (int, int)
    decreases count,
{
    if count == 0 {
        (0, 0)
    } else {
        let (left, right) = mixed(channels, module, (count - 1) as nat);
        let (l, r) = channel_output(channels[count - 1], module);
        (left + l, right + r)
    }
}

/// Whether none of the channels plays.
pub open spec fn all_idle(channels: Seq<Option<XmChannelContext>>) -> bool {
    forall|i: int| 0 <= i < channels.len() ==> (#[trigger] channels[i] matches Some(c) ==> c.instrument_state.is_none())
}

/// What a channel of volume and panning within their scales puts out is no
/// louder than a sample can be, and nothing where it does not play.
pub proof fn lemma_channel_output(channel: Option<XmChannelContext>, module: &XmModule)
    requires
        channel matches Some(c) ==> c.wf(),
    ensures
        -32768 <= channel_output(channel, module).0 <= 32768,
        -32768 <= channel_output(channel, module).1 <= 32768,
        (channel matches Some(c) ==> c.instrument_state.is_none()) ==> channel_output(channel, module) == (
            0int,
            0int,
        ),
{
    if let Some(c) = channel {
        let a = c.amplitude(module) as int;
        let v = scaled(a, c.volume as int);
        lemma_scaled(a, c.volume as int);
        lemma_root(((65536 - c.panning) * 65536) as nat);
        lemma_root((c.panning * 65536) as nat);
        let lg = left_gain(c.panning);
        let rg = right_gain(c.panning);
        assert(lg <= 65536) by (nonlinear_arith)
            requires
                lg >= 0,
                lg * lg <= 65536 * 65536,
        ;
        assert(rg <= 65536) by (nonlinear_arith)
            requires
                rg >= 0,
                rg * rg <= 65536 * 65536,
        ;
        lemma_scaled(v, lg);
        lemma_scaled(v, rg);
    }
}

/// Channels that do not play add up to silence.
pub proof fn lemma_idle_is_silent(
    channels: Seq<Option<XmChannelContext>>,
    module: &XmModule,
    count: nat,
)
    requires
        count <= channels.len(),
        all_idle(channels),
    ensures
        mixed(channels, module, count) == (0int, 0int),
    decreases count,
{
    if count > 0 {
        lemma_idle_is_silent(channels, module, (count - 1) as nat);
        if let Some(c) = channels[count - 1] {
            assert(c.instrument_state.is_none());
            assert(0 * c.volume == 0);
            assert(0 * left_gain(c.panning) == 0);
            assert(0 * right_gain(c.panning) == 0);
        }
    }
}

impl XmPlaybackContext {
    /// The channels are no more than a module can have, each with volume
    /// and panning within their scales, and the clock lies within what the
    /// counters of a module can reach.
    pub open spec fn wf(&self) -> bool {
        &&& self.channels@.len() <= 65535
        &&& forall|i: int|
            0 <= i < self.channels@.len() ==> (#[trigger] self.channels@[i] matches Some(c) ==> c.wf())
        &&& self.current_tick <= 131070
        &&& self.current_order <= 65535
        &&& self.current_row <= 65535
    }

    /// Whether the next tick is the last of the row.
    pub open spec fn row_ends(&self) -> bool {
        self.current_tick + 1 >= self.tempo + self.extra_ticks
    }

    /// The place in the order table, and the row, that follow the current
    /// row. A pending jump decides first: a jump in the order table goes to
    /// its destination, at the pending row or the first; a pending row alone
    /// starts the next pattern at that row. Otherwise the next row follows,
    /// and the first row of the next pattern after the last. Behind the end of
    /// the order table the song starts again at its restart position.
    pub open spec fn next_position(&self) -> (u32, u32) {
        let (order, row): (int, int) = if let Some(dest) = self.jump_dest {
            (
                dest as int,
                match self.jump_row {
                    Some(row) => row as int,
                    None => 0,
                },
            )
        } else if let Some(row) = self.jump_row {
            (self.current_order + 1, row as int)
        } else if self.current_row + 1 < rows_at_order(&self.module, self.current_order) {
            (self.current_order as int, self.current_row + 1)
        } else {
            (self.current_order + 1, 0)
        };
        if order >= self.module.header.song_length {
            (self.module.header.restart_pos as u32, row as u32)
        } else {
            (order as u32, row as u32)
        }
    }

    /// The context at the start of `module`, for output at `sample_rate`
    /// frames a second: a channel at rest for each channel of the module, the
    /// default tempo, and a first tick of full length ahead.
    pub fn new(module: XmModule, sample_rate: u32) -> (r: Self)
        ensures
            r.wf(),
            r.module == module,
            r.sample_rate == sample_rate,
            r.tempo == module.header.default_tempo,
            r.bpm == module.header.default_bpm,
            r.current_order == 0 && r.current_row == 0 && r.current_tick == 0,
            r.left_samples_in_tick == samples_per_tick(sample_rate, module.header.default_bpm),
            r.jump_dest.is_none() && r.jump_row.is_none() && r.extra_ticks == 0,
            r.channels@.len() == module.header.channels_num,
            forall|i: int| 0 <= i < r.channels@.len() ==> r.channels@[i] == Some(idle_channel()),
            all_idle(r.channels@),
    {
        let count: u16 = module.header.channels_num;
        let mut channels: Vec<Option<XmChannelContext>> = Vec::new();
        let mut i: u16 = 0;
        while i < count
            invariant
                i <= count,
                channels@.len() == i,
                forall|k: int| 0 <= k < channels@.len() ==> channels@[k] == Some(idle_channel()),
            decreases count - i,
        {
            channels.push(Some(XmChannelContext::default()));
            i = i + 1;
        }
        Self {
            sample_rate,
            tempo: module.header.default_tempo,
            bpm: module.header.default_bpm,
            current_order: 0,
            current_row: 0,
            current_tick: 0,
            left_samples_in_tick: Self::samples_in_tick(sample_rate, module.header.default_bpm),
            jump_dest: None,
            jump_row: None,
            extra_ticks: 0,
            channels,
            module,
        }
    }

    /// The length of a tick.
    pub fn samples_in_tick(sample_rate: u32, bpm: u16) -> (r: i64)
        ensures
            r == samples_per_tick(sample_rate, bpm),
            r >= 0,
    {
        if bpm == 0 {
            i64::MAX
        } else {
            // There are bpm * 0.4 ticks in a second.
            (sample_rate as i64 * 5 * 65536) / (bpm as i64 * 2)
        }
    }

    /// `sample` at `volume`.
    pub fn volume(sample: i16, volume: u32) -> (r: i32)
        ensures
            r == scaled(sample as int, volume as int),
    {
        let v = scale(sample as i32, volume);
        assert(-0x8000_0000 <= scaled(sample as int, volume as int) < 0x8000_0000) by {
            assert(-32768 * 0x1_0000_0000 <= sample * volume <= 32768 * 0x1_0000_0000) by (nonlinear_arith)
                requires
                    -32768 <= sample <= 32767,
                    0 <= volume < 0x1_0000_0000,
            ;
            assert(sample * volume <= 32767 * 0xffff_ffff) by (nonlinear_arith)
                requires
                    -32768 <= sample <= 32767,
                    0 <= volume <= 0xffff_ffff,
            ;
        }
        v as i32
    }

    /// `sample` shared out to the left and to the right, with equal power
    /// at every panning position.
    pub fn pan(sample: i32, pan_ratio: u32) -> (r: (i32, i32))
        requires
            pan_ratio <= 65536,
        ensures
            r.0 == scaled(sample as int, left_gain(pan_ratio)),
            r.1 == scaled(sample as int, right_gain(pan_ratio)),
    {
        assert((65536 - pan_ratio) * 65536 <= 65536 * 65536 && pan_ratio * 65536 <= 65536 * 65536)
            by (nonlinear_arith)
            requires
                0 <= pan_ratio <= 65536,
        ;
        let left_vol = isqrt((65536 - pan_ratio as u64) * 65536);
        let right_vol = isqrt(pan_ratio as u64 * 65536);
        proof {
            lemma_scaled(sample as int, left_vol as int);
            lemma_scaled(sample as int, right_vol as int);
        }
        (scale(sample, left_vol as u32) as i32, scale(sample, right_vol as u32) as i32)
    }

    /// Starts the next tick: the time left grows by the length of a tick,
    /// and the clock moves on by a tick, which at the end of a row starts the
    /// row that follows and uses up what was pending.
    pub fn tick(&mut self)
        requires
            old(self).wf(),
        ensures
            final(self).wf(),
            final(self).module == old(self).module,
            final(self).sample_rate == old(self).sample_rate,
            final(self).tempo == old(self).tempo,
            final(self).bpm == old(self).bpm,
            final(self).channels == old(self).channels,
            final(self).left_samples_in_tick == clamp_i64(
                old(self).left_samples_in_tick + samples_per_tick(old(self).sample_rate, old(self).bpm),
            ),
            old(self).row_ends() ==> {
                &&& final(self).current_tick == 0
                &&& (final(self).current_order, final(self).current_row) == old(self).next_position()
                &&& final(self).jump_dest.is_none()
                &&& final(self).jump_row.is_none()
                &&& final(self).extra_ticks == 0
            },
            !old(self).row_ends() ==> {
                &&& final(self).current_tick == old(self).current_tick + 1
                &&& final(self).current_order == old(self).current_order
                &&& final(self).current_row == old(self).current_row
                &&& final(self).jump_dest == old(self).jump_dest
                &&& final(self).jump_row == old(self).jump_row
                &&& final(self).extra_ticks == old(self).extra_ticks
            },
    {
        let length = Self::samples_in_tick(self.sample_rate, self.bpm);
        self.left_samples_in_tick = if self.left_samples_in_tick > i64::MAX - length {
            i64::MAX
        } else {
            self.left_samples_in_tick + length
        };
        if self.current_tick + 1 < self.tempo as u32 + self.extra_ticks as u32 {
            self.current_tick = self.current_tick + 1;
            return ;
        }
        let (order, row): (u32, u32) = match (self.jump_dest, self.jump_row) {
            (Some(dest), Some(row)) => (dest as u32, row as u32),
            (Some(dest), None) => (dest as u32, 0),
            (None, Some(row)) => (self.current_order + 1, row as u32),
            (None, None) => {
                if self.current_row + 1 < self.rows_in_current_pattern() {
                    (self.current_order, self.current_row + 1)
                } else {
                    (self.current_order + 1, 0)
                }
            },
        };
        self.current_order = if order >= self.module.header.song_length as u32 {
            self.module.header.restart_pos as u32
        } else {
            order
        };
        self.current_row = row;
        self.current_tick = 0;
        self.jump_dest = None;
        self.jump_row = None;
        self.extra_ticks = 0;
    }

    /// The number of rows of the pattern that plays now.
    pub fn rows_in_current_pattern(&self) -> (r: u32)
        ensures
            r == rows_at_order(&self.module, self.current_order),
    {
        let order = self.current_order as usize;
        if order < self.module.pattern_order_table.len() {
            let index = self.module.pattern_order_table[order] as usize;
            if index < self.module.patterns.len() {
                return self.module.patterns[index].0.rows_num as u32;
            }
        }
        0
    }

    /// Moves playback on by one output frame: starts the next tick if the
    /// current one is used up, takes the frame off what is left of the tick,
    /// and moves every channel that is not muted on in its sample. Returns
    /// whether a row has started.
    pub fn advance(&mut self) -> (row_started: bool)
        requires
            old(self).wf(),
        ensures
            final(self).wf(),
            row_started == (old(self).left_samples_in_tick <= 0 && old(self).row_ends()),
            final(self).jump_dest == (if row_started {
                None
            } else {
                old(self).jump_dest
            }),
            final(self).jump_row == (if row_started {
                None
            } else {
                old(self).jump_row
            }),
            final(self).extra_ticks == (if row_started {
                0
            } else {
                old(self).extra_ticks
            }),
            final(self).module == old(self).module,
            final(self).sample_rate == old(self).sample_rate,
            final(self).tempo == old(self).tempo,
            final(self).bpm == old(self).bpm,
            final(self).channels@.len() == old(self).channels@.len(),
            forall|i: int|
                0 <= i < old(self).channels@.len() ==> #[trigger] final(self).channels@[i] == (match old(
                    self,
                ).channels@[i] {
                    Some(c) => Some(c.advanced(&old(self).module)),
                    None => None,
                }),
            all_idle(old(self).channels@) ==> all_idle(final(self).channels@),
            old(self).left_samples_in_tick > 0 ==> {
                &&& final(self).left_samples_in_tick == old(self).left_samples_in_tick - 65536
                &&& final(self).current_tick == old(self).current_tick
                &&& final(self).current_order == old(self).current_order
                &&& final(self).current_row == old(self).current_row
            },
            old(self).left_samples_in_tick <= 0 ==> {
                &&& final(self).left_samples_in_tick == clamp_i64(
                    clamp_i64(
                        old(self).left_samples_in_tick + samples_per_tick(old(self).sample_rate, old(self).bpm),
                    ) - 65536,
                )
                &&& old(self).row_ends() ==> final(self).current_tick == 0 && (
                    final(self).current_order,
                    final(self).current_row,
                ) == old(self).next_position()
                &&& !old(self).row_ends() ==> final(self).current_tick == old(self).current_tick + 1
                    && final(self).current_order == old(self).current_order && final(self).current_row
                    == old(self).current_row
            },
    {
        let mut row_started = false;
        if self.left_samples_in_tick <= 0 {
            row_started = self.current_tick + 1 >= self.tempo as u32 + self.extra_ticks as u32;
            self.tick();
        }
        self.left_samples_in_tick = if self.left_samples_in_tick < i64::MIN + 65536 {
            i64::MIN
        } else {
            self.left_samples_in_tick - 65536
        };
        let ghost before = self.channels@;
        let ghost clock = *self;
        let mut i: usize = 0;
        while i < self.channels.len()
            invariant
                i <= self.channels@.len(),
                self.channels@.len() == before.len() <= 65535,
                self.module == old(self).module,
                self.sample_rate == old(self).sample_rate,
                self.tempo == old(self).tempo,
                self.bpm == old(self).bpm,
                self.left_samples_in_tick == clock.left_samples_in_tick,
                self.current_tick == clock.current_tick,
                self.current_order == clock.current_order,
                self.current_row == clock.current_row,
                self.jump_dest == clock.jump_dest,
                self.jump_row == clock.jump_row,
                self.extra_ticks == clock.extra_ticks,
                forall|k: int| 0 <= k < before.len() ==> (#[trigger] before[k] matches Some(c) ==> c.wf()),
                forall|k: int|
                    0 <= k < i ==> #[trigger] self.channels@[k] == (match before[k] {
                        Some(c) => Some(c.advanced(&self.module)),
                        None => None,
                    }),
                forall|k: int| i <= k < before.len() ==> self.channels@[k] == before[k],
            decreases self.channels@.len() - i,
        {
            if let Some(channel) = self.channels[i] {
                let mut channel = channel;
                channel.advance(&self.module);
                self.channels.set(i, Some(channel));
            }
            i = i + 1;
        }
        row_started
    }

    /// The output frame at the current position: for the left and for the
    /// right, the sum of what the channels put out.
    pub fn sample(&self) -> (r: (i32, i32))
        requires
            self.wf(),
        ensures
            (r.0 as int, r.1 as int) == mixed(self.channels@, &self.module, self.channels@.len()),
            all_idle(self.channels@) ==> r == (0i32, 0i32),
    {
        let mut out_left: i32 = 0;
        let mut out_right: i32 = 0;
        let mut i: usize = 0;
        while i < self.channels.len()
            invariant
                self.wf(),
                i <= self.channels@.len(),
                (out_left as int, out_right as int) == mixed(self.channels@, &self.module, i as nat),
                -32768 * i <= out_left <= 32768 * i,
                -32768 * i <= out_right <= 32768 * i,
            decreases self.channels@.len() - i,
        {
            proof {
                lemma_channel_output(self.channels@[i as int], &self.module);
            }
            if let Some(channel) = self.channels[i] {
                let ch_sample = channel.sample(&self.module);
                let (left, right) = Self::pan(Self::volume(ch_sample, channel.volume), channel.panning);
                out_left = out_left + left;
                out_right = out_right + right;
            }
            i = i + 1;
        }
        proof {
            if all_idle(self.channels@) {
                lemma_idle_is_silent(self.channels@, &self.module, self.channels@.len());
            }
        }
        (out_left, out_right)
    }
}

/// What a slot makes a channel play.
#[derive(Clone, Copy, Debug, PartialEq, Eq, Structural)]
pub struct XmTrigger {
    /// The place of the instrument among the instruments of the module.
    pub instrument: usize,
    /// The place of the sample among the samples of the instrument.
    pub sample: usize,
    /// The period of the note in linear tuning.
    pub period: u16,
    /// The slot that asks for it.
    pub slot: XmPatternSlot,
}

/// The slot of `channel` in row `row` of the pattern that plays at place
/// `order` of the order table, if there is one.
pub open spec fn slot_of(
    module: &XmModule,
    order: u32,
    row: u32,
    channel: usize,
) -> Option<XmPatternSlot> {
    let table = module.pattern_order_table@;
    if order < table.len() && table[order as int] < module.patterns@.len() {
        let rows = module.patterns@[table[order as int] as int].1@;
        if row < rows.len() && channel < rows[row as int].len() {
            Some(rows[row as int][channel as int])
        } else {
            None
        }
    } else {
        None
    }
}

/// What `slot` makes a channel play: nothing unless it holds both a note
/// and the number of an instrument. Instruments are numbered from 1. The
/// key map of the instrument assigns the sample to the note. There is nothing
/// to play where the instrument or the sample is not there.
pub open spec fn trigger_of(module: &XmModule, slot: XmPatternSlot) -> Option<XmTrigger> {
    match (slot.note, slot.instrument_index) {
        (XmNote::Note { tone, octave }, Some(number)) => if 1 <= number && number - 1
            < module.instruments@.len() {
            let (header, samples) = module.instruments@[number - 1];
            match header.sample_opts {
                Some(opts) => {
                    let sample = opts.sample_keymap_assignments@[note_index(tone, octave) - 1];
                    if sample < samples@.len() {
                        Some(
                            XmTrigger {
                                instrument: (number - 1) as usize,
                                sample: sample as usize,
                                period: linear_period(tone, octave) as u16,
                                slot,
                            },
                        )
                    } else {
                        None
                    }
                },
                None => None,
            }
        } else {
            None
        },
        _ => None,
    }
}

/// By how much the position in a sample moves with every output frame
/// when a note of `frequency` plays at `sample_rate` output frames a second:
/// the quotient of the two, and the largest step there is where that is
/// beyond it or the rate is zero.
pub open spec fn step_for(frequency: u64, sample_rate: u32) -> u32 {
    if sample_rate == 0 || frequency / (sample_rate as u64) > u32::MAX {
        u32::MAX
    } else {
        (frequency / (sample_rate as u64)) as u32
    }
}

/// The channel `c` once it plays what `trigger` asks for, from the
/// beginning of the sample.
pub open spec fn bound_channel(
    c: XmChannelContext,
    trigger: XmTrigger,
    frequency: u64,
    sample_rate: u32,
) -> XmChannelContext {
    XmChannelContext {
        instrument_state: Some(
            XmInstrumentState {
                instrument: trigger.instrument,
                sample: trigger.sample,
                sample_position: 0,
                period: trigger.period,
                frequency,
                step: step_for(frequency, sample_rate),
                ping: true,
            },
        ),
        pattern_slot_state: Some(trigger.slot),
        ..c
    }
}

/// The channels once `channel` plays what `trigger` asks for; a channel
/// that is muted, or is not there, stays as it is.
pub open spec fn bound_channels(
    channels: Seq<Option<XmChannelContext>>,
    channel: usize,
    trigger: XmTrigger,
    frequency: u64,
    sample_rate: u32,
) -> Seq<Option<XmChannelContext>> {
    if channel < channels.len() {
        match channels[channel as int] {
            Some(c) => channels.update(channel as int, Some(bound_channel(c, trigger, frequency, sample_rate))),
            None => channels,
        }
    } else {
        channels
    }
}

/// The step of a note of `frequency`, in units of 1/65536 Hz, at
/// `sample_rate` output frames a second.
pub fn step_of(frequency: u64, sample_rate: u32) -> (r: u32)
    ensures
        r == step_for(frequency, sample_rate),
{
    if sample_rate == 0 {
        return u32::MAX;
    }
    let step: u64 = frequency / sample_rate as u64;
    if step > u32::MAX as u64 {
        u32::MAX
    } else {
        step as u32
    }
}

/// Finds what `slot` makes a channel play.
pub fn find_trigger(module: &XmModule, slot: XmPatternSlot) -> (r: Option<XmTrigger>)
    ensures
        r == trigger_of(module, slot),
{
    let (tone, octave) = match slot.note {
        XmNote::Note { tone, octave } => (tone, octave),
        _ => {
            return None;
        },
    };
    let number = match slot.instrument_index {
        Some(number) => number as usize,
        None => {
            return None;
        },
    };
    if number < 1 || number - 1 >= module.instruments.len() {
        return None;
    }
    let instrument: usize = number - 1;
    let sample: usize = match &module.instruments[instrument].0.sample_opts {
        Some(opts) => opts.sample_keymap_assignments[tone_to_raw(&tone, octave) as usize - 1] as usize,
        None => {
            return None;
        },
    };
    if sample >= module.instruments[instrument].1.len() {
        return None;
    }
    Some(XmTrigger { instrument, sample, period: Linear::period(&tone, octave), slot })
}

impl XmPlaybackContext {
    /// The slot of `channel` in the row that plays now.
    pub fn current_slot(&self, channel: usize) -> (r: Option<XmPatternSlot>)
        ensures
            r == slot_of(&self.module, self.current_order, self.current_row, channel),
    {
        let order = self.current_order as usize;
        if order >= self.module.pattern_order_table.len() {
            return None;
        }
        let index = self.module.pattern_order_table[order] as usize;
        if index >= self.module.patterns.len() {
            return None;
        }
        let rows = &self.module.patterns[index].1;
        let row = self.current_row as usize;
        if row >= rows.0.len() {
            return None;
        }
        assert(rows@[row as int] == rows.0@[row as int]@);
        if channel >= rows.0[row].0.len() {
            return None;
        }
        Some(rows.0[row].0[channel])
    }

    /// What the row that plays now makes `channel` play.
    pub fn trigger(&self, channel: usize) -> (r: Option<XmTrigger>)
        ensures
            r == (match slot_of(&self.module, self.current_order, self.current_row, channel) {
                Some(slot) => trigger_of(&self.module, slot),
                None => None,
            }),
    {
        match self.current_slot(channel) {
            Some(slot) => find_trigger(&self.module, slot),
            None => None,
        }
    }

    /// Makes `channel` play what `trigger` asks for, from the beginning of
    /// the sample, at `frequency` in units of 1/65536 Hz. A channel that is
    /// muted, or is not there, stays as it is.
    pub fn bind(&mut self, channel: usize, trigger: XmTrigger, frequency: u64)
        ensures
            final(self).module == old(self).module,
            final(self).sample_rate == old(self).sample_rate,
            final(self).tempo == old(self).tempo,
            final(self).bpm == old(self).bpm,
            final(self).current_order == old(self).current_order,
            final(self).current_row == old(self).current_row,
            final(self).current_tick == old(self).current_tick,
            final(self).left_samples_in_tick == old(self).left_samples_in_tick,
            final(self).jump_dest == old(self).jump_dest,
            final(self).jump_row == old(self).jump_row,
            final(self).extra_ticks == old(self).extra_ticks,
            old(self).wf() ==> final(self).wf(),
            final(self).channels@ == bound_channels(
                old(self).channels@,
                channel,
                trigger,
                frequency,
                old(self).sample_rate,
            ),
    {
        if channel >= self.channels.len() {
            return ;
        }
        if let Some(c) = self.channels[channel] {
            let step = step_of(frequency, self.sample_rate);
            let state = XmInstrumentState::new(trigger.instrument, trigger.sample, trigger.period, frequency, step);
            self.channels.set(
                channel,
                Some(XmChannelContext { instrument_state: Some(state), pattern_slot_state: Some(trigger.slot), ..c }),
            );
        }
    }

    /// Whether the context is one that frames can be taken from.
    pub fn check(&self) -> (r: bool)
        ensures
            r == self.wf(),
    {
        if self.channels.len() > 65535 || self.current_tick > 131070 || self.current_order > 65535
            || self.current_row > 65535 {
            return false;
        }
        let mut i: usize = 0;
        while i < self.channels.len()
            invariant
                i <= self.channels@.len(),
                forall|k: int| 0 <= k < i ==> (#[trigger] self.channels@[k] matches Some(c) ==> c.wf()),
            decreases self.channels@.len() - i,
        {
            if let Some(c) = self.channels[i] {
                if c.volume > 65536 || c.panning > 65536 {
                    return false;
                }
            }
            i = i + 1;
        }
        true
    }
}

} // verus!
