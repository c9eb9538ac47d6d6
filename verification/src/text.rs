//! Fixed-length text fields: UTF-8, padded with zero bytes at the end.

use vstd::prelude::*;
use vstd::utf8::{
    decode_utf8, decode_utf8_split, is_char_boundary_iff_not_is_continuation_byte, valid_utf8,
    valid_utf8_concat, valid_utf8_split,
};
use crate::bytes::{avail, Decoded, end_error, Outcome};
use crate::error::{XmError, XmErrorKind};

verus! {

/// The length of `field` once the zero bytes at its end are taken off.
pub open spec fn trimmed_len(field: Seq<u8>) -> nat
    decreases field.len(),
{
    if field.len() > 0 && field.last() == 0 {
        trimmed_len(field.drop_last())
    } else {
        field.len()
    }
}

/// The bytes of the `len`-byte field at `pos` that carry text.
pub open spec fn text_bytes(s: Seq<u8>, pos: int, len: int) -> Seq<u8> {
    let field = s.subrange(pos, pos + len);
    field.take(trimmed_len(field) as int)
}

/// The error of a text field at `pos` whose bytes are not UTF-8.
pub open spec fn text_error(pos: int) -> XmError {
    XmError { kind: XmErrorKind::InvalidText, offset: pos as usize }
}

/// What decoding the `len`-byte text field at `pos` gives: the text and the
/// position behind the field, or the error.
pub open spec fn text_at(s: Seq<u8>, pos: int, len: int) -> Outcome<Seq<char>> {
    if avail(s, pos) < len {
        Err(end_error(pos))
    } else if !valid_utf8(text_bytes(s, pos, len)) {
        Err(text_error(pos))
    } else {
        Ok((decode_utf8(text_bytes(s, pos, len)), pos + len))
    }
}

/// Whether `r` is the outcome `m` of decoding a text field: the same text
/// and the same position, or the same error.
pub open spec fn text_agrees(r: Decoded<String>, m: Outcome<Seq<char>>) -> bool {
    match m {
        Ok((text, end)) => r matches Ok((t, p)) && t@ == text && p == end,
        Err(e) => r == Err::<(String, usize), XmError>(e),
    }
}

/// No zero byte ends the text, and only zero bytes follow it in the field.
pub proof fn lemma_trimmed_len(field: Seq<u8>)
    ensures
        trimmed_len(field) <= field.len(),
        trimmed_len(field) > 0 ==> field[trimmed_len(field) - 1] != 0,
        forall|i: int| trimmed_len(field) <= i < field.len() ==> field[i] == 0,
    decreases field.len(),
{
    if field.len() > 0 && field.last() == 0 {
        let front = field.drop_last();
        lemma_trimmed_len(front);
        assert forall|i: int| trimmed_len(field) <= i < field.len() implies field[i] == 0 by {
            if i < front.len() {
                assert(front[i] == 0);
            }
        }
    }
}

/// The characters of code zero that `count` zero bytes stand for.
pub open spec fn nul_chars(count: nat) -> Seq<char> {
    Seq::new(count, |i: int| '\0')
}

/// One zero byte is the text of one character of code zero.
proof fn lemma_zero_byte_is_text()
    ensures
        valid_utf8(seq![0u8]),
        decode_utf8(seq![0u8]) == seq!['\0'],
{
    let one = seq![0u8];
    reveal_with_fuel(valid_utf8, 2);
    reveal_with_fuel(decode_utf8, 2);
    assert(0u8 & 0x7F == 0) by (bit_vector);
    assert(one.subrange(1, 1) =~= Seq::<u8>::empty());
    assert(valid_utf8(one));
    assert(decode_utf8(one) =~= seq!['\0']);
}

/// A field that ends in a zero byte is UTF-8 exactly if it is so without
/// that byte, and its text is then the text without it and one character of
/// code zero.
proof fn lemma_last_zero_byte(field: Seq<u8>)
    requires
        field.len() > 0,
        field.last() == 0,
    ensures
        valid_utf8(field) <==> valid_utf8(field.drop_last()),
        valid_utf8(field) ==> decode_utf8(field) == decode_utf8(field.drop_last()).push('\0'),
{
    let front = field.drop_last();
    let one = seq![0u8];
    let cut = field.len() - 1;
    lemma_zero_byte_is_text();
    assert(field =~= front + one);
    assert(field.subrange(0, cut) =~= front);
    assert(field.subrange(cut, field.len() as int) =~= one);
    if valid_utf8(front) {
        valid_utf8_concat(front, one);
    }
    if valid_utf8(field) {
        is_char_boundary_iff_not_is_continuation_byte(field, cut);
        valid_utf8_split(field, cut);
        decode_utf8_split(field, cut);
        assert(decode_utf8(field) =~= decode_utf8(front).push('\0'));
    }
}

/// Taking the zero bytes off the end of a field changes neither whether
/// the field is UTF-8, nor its text but for the characters of code zero at
/// the end of it: the text of the trimmed bytes is the text of the field
/// without them.
pub proof fn lemma_trimmed_text(field: Seq<u8>)
    ensures
        valid_utf8(field) <==> valid_utf8(field.take(trimmed_len(field) as int)),
        valid_utf8(field) ==> decode_utf8(field) == decode_utf8(field.take(trimmed_len(field) as int))
            + nul_chars((field.len() - trimmed_len(field)) as nat),
    decreases field.len(),
{
    lemma_trimmed_len(field);
    if field.len() > 0 && field.last() == 0 {
        let front = field.drop_last();
        lemma_trimmed_text(front);
        lemma_trimmed_len(front);
        lemma_last_zero_byte(field);
        let n = trimmed_len(field) as int;
        assert(front.take(n) =~= field.take(n));
        if valid_utf8(field) {
            assert(nul_chars((front.len() - n) as nat).push('\0') =~= nul_chars((field.len() - n) as nat));
            assert(decode_utf8(field) =~= decode_utf8(field.take(n)) + nul_chars((field.len() - n) as nat));
        }
    } else {
        assert(field.take(field.len() as int) =~= field);
        assert(decode_utf8(field) + nul_chars(0) =~= decode_utf8(field));
    }
}

/// `std::str::from_utf8`: succeeds exactly on well-formed UTF-8, with the
/// characters that the bytes encode.
#[verifier::external_body]
fn str_from_utf8<'a>(bytes: &'a [u8]) -> (r: Option<&'a str>)
    ensures
        r is Some <==> valid_utf8(bytes@),
        r matches Some(t) ==> t@ == decode_utf8(bytes@),
{
    match std::str::from_utf8(bytes) {
        Ok(t) => Some(t),
        Err(_) => None,
    }
}

/// Decodes the text field of `length` bytes at `pos`.
pub fn fixed_length_string(data: &[u8], pos: usize, length: usize) -> (r: Decoded<String>)
    requires
        pos <= data@.len(),
    ensures
        text_agrees(r, text_at(data@, pos as int, length as int)),
{
    if data.len() - pos < length {
        return Err(XmError { kind: XmErrorKind::UnexpectedEnd, offset: pos });
    }
    let ghost field = data@.subrange(pos as int, pos + length);
    let mut n: usize = length;
    assert(field.take(n as int) =~= field);
    while n > 0 && data[pos + n - 1] == 0
        invariant
            n <= length,
            pos + length <= data@.len() <= usize::MAX,
            field == data@.subrange(pos as int, pos + length),
            trimmed_len(field) == trimmed_len(field.take(n as int)),
        decreases n,
    {
        proof {
            let cur = field.take(n as int);
            assert(cur.last() == data@[pos + n - 1]);
            assert(cur.drop_last() =~= field.take(n - 1));
        }
        n = n - 1;
    }
    proof {
        let cur = field.take(n as int);
        assert(n > 0 ==> cur.last() == data@[pos + n - 1]);
        assert(trimmed_len(cur) == n);
    }
    let bytes = &data[pos..pos + n];
    assert(bytes@ =~= text_bytes(data@, pos as int, length as int));
    match str_from_utf8(bytes) {
        Some(t) => Ok((t.to_owned(), pos + length)),
        None => Err(XmError { kind: XmErrorKind::InvalidText, offset: pos }),
    }
}

} // verus!
