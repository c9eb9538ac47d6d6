//! One item decoded a number of times in a row.

use vstd::prelude::*;
use crate::bytes::{Outcome};
use crate::error::XmError;

verus! {

/// What decoding one item at a position gives: the item and the position
/// behind it, or the error.
pub type ItemAt<T> = spec_fn(Seq<u8>, int) -> Outcome<T>;

/// What decoding `count` items one after the other gives, the first at
/// `pos`: all of them and the position behind the last, or the error of the
/// first item that fails.
pub open spec fn repeat_at<T>(item: ItemAt<T>, s: Seq<u8>, pos: int, count: nat) -> Outcome<Seq<T>>
    decreases count,
{
    if count == 0 {
        Ok((Seq::empty(), pos))
    } else {
        match repeat_at(item, s, pos, (count - 1) as nat) {
            Err(e) => Err(e),
            Ok((front, p)) => match item(s, p) {
                Err(e) => Err(e),
                Ok((v, end)) => Ok((front.push(v), end)),
            },
        }
    }
}

/// Once an item has failed, asking for more items gives the same error.
pub proof fn lemma_repeat_err<T>(item: ItemAt<T>, s: Seq<u8>, pos: int, k: nat, count: nat)
    requires
        k <= count,
        repeat_at(item, s, pos, k) is Err,
    ensures
        repeat_at(item, s, pos, count) == repeat_at(item, s, pos, k),
    decreases count,
{
    if k < count {
        lemma_repeat_err(item, s, pos, k, (count - 1) as nat);
    }
}

/// Decoding `count` items gives exactly `count` of them.
pub proof fn lemma_repeat_len<T>(item: ItemAt<T>, s: Seq<u8>, pos: int, count: nat)
    ensures
        repeat_at(item, s, pos, count) matches Ok((items, _)) ==> items.len() == count,
    decreases count,
{
    if count > 0 {
        lemma_repeat_len(item, s, pos, (count - 1) as nat);
    }
}

} // verus!
