//! Little-endian primitives read from a byte buffer at a position.

use vstd::prelude::*;
use crate::error::{XmError, XmErrorKind};

verus! {

/// The number of bytes of `s` from `pos` on.
pub open spec fn avail(s: Seq<u8>, pos: int) -> int {
    s.len() - pos
}

/// The error of a field that starts at `pos` and does not fit in the input.
pub open spec fn end_error(pos: int) -> XmError {
    XmError { kind: XmErrorKind::UnexpectedEnd, offset: pos as usize }
}

/// What decoding a value gives: the value and the position behind it, or
/// the error.
pub type Decoded<T> = Result<(T, usize), XmError>;

/// What decoding a value is to give, with the position as a mathematical
/// integer.
pub type Outcome<T> = Result<(T, int), XmError>;

/// Whether `r` is the outcome of reading the `need`-byte field at `pos`,
/// whose value is `v`: the value and the position behind the field, or the
/// error of an input that ends inside the field.
pub open spec fn reads<T>(r: Decoded<T>, need: int, s: Seq<u8>, pos: int, v: T) -> bool {
    if avail(s, pos) >= need {
        r matches Ok((rv, rp)) && rv == v && rp == pos + need
    } else {
        r == Err::<(T, usize), XmError>(end_error(pos))
    }
}

/// Whether `r` is the outcome `m` of decoding: the same value and the same
/// position, or the same error.
pub open spec fn agrees<T>(r: Decoded<T>, m: Outcome<T>) -> bool {
    match m {
        Ok((v, end)) => r matches Ok((rv, rp)) && rv == v && rp == end,
        Err(e) => r == Err::<(T, usize), XmError>(e),
    }
}

/// Whether `r` is the outcome `m` of decoding: a value with the same view
/// and the same position, or the same error.
pub open spec fn view_agrees<T: View>(r: Decoded<T>, m: Outcome<T::V>) -> bool {
    match m {
        Ok((v, end)) => r matches Ok((rv, rp)) && rv@ == v && rp == end,
        Err(e) => r == Err::<(T, usize), XmError>(e),
    }
}

/// Whether `r` is the outcome `m` of decoding a sequence: the same items
/// and the same position, or the same error.
pub open spec fn seq_agrees<T>(r: Decoded<Vec<T>>, m: Outcome<Seq<T>>) -> bool {
    match m {
        Ok((v, end)) => r matches Ok((rv, rp)) && rv@ == v && rp == end,
        Err(e) => r == Err::<(Vec<T>, usize), XmError>(e),
    }
}

/// Whether `r` holds no position, or one from `pos` up to `len`.
pub open spec fn within<T>(r: Decoded<T>, pos: usize, len: nat) -> bool {
    r matches Ok((_, p)) ==> pos <= p <= len
}

/// The byte `b` read as a two's complement number.
pub open spec fn i8_of(b: u8) -> i8 {
    if b < 128 {
        b as i8
    } else {
        (b - 256) as i8
    }
}

/// The unsigned 16-bit number stored at `pos`, low byte first.
pub open spec fn le_u16_at(s: Seq<u8>, pos: int) -> u16 {
    (s[pos] + 256 * s[pos + 1]) as u16
}

/// The signed 16-bit number stored at `pos`, low byte first.
pub open spec fn le_i16_at(s: Seq<u8>, pos: int) -> i16 {
    let u = le_u16_at(s, pos);
    if u < 32768 {
        u as i16
    } else {
        (u - 65536) as i16
    }
}

/// The unsigned 32-bit number stored at `pos`, low byte first.
pub open spec fn le_u32_at(s: Seq<u8>, pos: int) -> u32 {
    (s[pos] + 256 * s[pos + 1] + 65536 * s[pos + 2] + 16777216 * s[pos + 3]) as u32
}

/// Reads one byte.
pub fn read_u8(data: &[u8], pos: usize) -> (r: Decoded<u8>)
    requires
        pos <= data@.len(),
    ensures
        reads(r, 1, data@, pos as int, data@[pos as int]),
{
    if pos < data.len() {
        Ok((data[pos], pos + 1))
    } else {
        Err(XmError { kind: XmErrorKind::UnexpectedEnd, offset: pos })
    }
}

/// Reads one byte as a signed number.
pub fn read_i8(data: &[u8], pos: usize) -> (r: Decoded<i8>)
    requires
        pos <= data@.len(),
    ensures
        reads(r, 1, data@, pos as int, i8_of(data@[pos as int])),
{
    if pos < data.len() {
        let b: u8 = data[pos];
        let v: i8 = if b < 128 {
            b as i8
        } else {
            (b as i16 - 256) as i8
        };
        Ok((v, pos + 1))
    } else {
        Err(XmError { kind: XmErrorKind::UnexpectedEnd, offset: pos })
    }
}

/// Reads an unsigned 16-bit number.
pub fn read_le_u16(data: &[u8], pos: usize) -> (r: Decoded<u16>)
    requires
        pos <= data@.len(),
    ensures
        reads(r, 2, data@, pos as int, le_u16_at(data@, pos as int)),
{
    if data.len() - pos >= 2 {
        let lo: u16 = data[pos] as u16;
        let hi: u16 = data[pos + 1] as u16;
        Ok((lo + 256 * hi, pos + 2))
    } else {
        Err(XmError { kind: XmErrorKind::UnexpectedEnd, offset: pos })
    }
}

/// Reads a signed 16-bit number.
pub fn read_le_i16(data: &[u8], pos: usize) -> (r: Decoded<i16>)
    requires
        pos <= data@.len(),
    ensures
        reads(r, 2, data@, pos as int, le_i16_at(data@, pos as int)),
{
    if data.len() - pos >= 2 {
        let lo: i32 = data[pos] as i32;
        let hi: i32 = data[pos + 1] as i32;
        let u: i32 = lo + 256 * hi;
        let v: i16 = if u < 32768 {
            u as i16
        } else {
            (u - 65536) as i16
        };
        Ok((v, pos + 2))
    } else {
        Err(XmError { kind: XmErrorKind::UnexpectedEnd, offset: pos })
    }
}

/// Reads an unsigned 32-bit number.
pub fn read_le_u32(data: &[u8], pos: usize) -> (r: Decoded<u32>)
    requires
        pos <= data@.len(),
    ensures
        reads(r, 4, data@, pos as int, le_u32_at(data@, pos as int)),
{
    if data.len() - pos >= 4 {
        let b0: u32 = data[pos] as u32;
        let b1: u32 = data[pos + 1] as u32;
        let b2: u32 = data[pos + 2] as u32;
        let b3: u32 = data[pos + 3] as u32;
        Ok((b0 + 256 * b1 + 65536 * b2 + 16777216 * b3, pos + 4))
    } else {
        Err(XmError { kind: XmErrorKind::UnexpectedEnd, offset: pos })
    }
}

/// Steps over `count` bytes.
pub fn skip(data: &[u8], pos: usize, count: usize) -> (r: Result<usize, XmError>)
    requires
        pos <= data@.len(),
    ensures
        avail(data@, pos as int) >= count ==> r is Ok && r->Ok_0 == pos + count,
        avail(data@, pos as int) < count ==> r == Err::<usize, XmError>(end_error(pos as int)),
{
    if data.len() - pos >= count {
        Ok(pos + count)
    } else {
        Err(XmError { kind: XmErrorKind::UnexpectedEnd, offset: pos })
    }
}

} // verus!
