//! The error reported when a byte buffer is not a well-formed module.

use vstd::prelude::*;

verus! {

/// What was wrong with the input at the reported offset.
#[derive(Clone, Copy, Debug, PartialEq, Eq, Structural)]
pub enum XmErrorKind {
    /// The input ends before the field that starts at the offset is complete.
    UnexpectedEnd,
    /// A fixed-length text field is not valid UTF-8.
    InvalidText,
    /// The declared header size is smaller than the fixed part it covers.
    HeaderSize,
    /// The song length is outside `1..=256`.
    SongLength,
    /// The channel count is outside `0..128`.
    ChannelCount,
    /// The pattern count is outside `1..=256`.
    PatternCount,
    /// The instrument count is outside `0..=128`.
    InstrumentCount,
    /// The pattern order table declares more entries than it stores.
    OrderTable,
    /// The row count of a pattern is outside `1..=256`.
    RowCount,
    /// A note byte names no note.
    Note,
    /// A volume column byte names no command.
    VolumeColumn,
    /// An effect command, or its sub-effect nibble, is not recognised.
    Effect,
    /// The vibrato waveform byte is outside `0..=3`.
    VibratoType,
    /// An envelope declares more than twelve points.
    EnvelopePoints,
    /// The sample data has no known bit depth.
    SampleDepth,
}

/// A decode error: what failed, and at which byte of the input.
#[derive(Clone, Copy, Debug, PartialEq, Eq, Structural)]
pub struct XmError {
    pub kind: XmErrorKind,
    pub offset: usize,
}

/// An error of `kind` at `pos`.
pub open spec fn error_at(kind: XmErrorKind, pos: int) -> XmError {
    XmError { kind, offset: pos as usize }
}

} // verus!
