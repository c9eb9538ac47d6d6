//! Single bits of a byte.

use vstd::prelude::*;

verus! {

/// Whether bit `bit` of `byte` is set.
pub open spec fn bit_set(byte: u8, bit: nat) -> bool {
    if bit == 0 {
        byte % 2 == 1
    } else if bit == 1 {
        byte / 2 % 2 == 1
    } else if bit == 2 {
        byte / 4 % 2 == 1
    } else if bit == 3 {
        byte / 8 % 2 == 1
    } else if bit == 4 {
        byte / 16 % 2 == 1
    } else if bit == 5 {
        byte / 32 % 2 == 1
    } else if bit == 6 {
        byte / 64 % 2 == 1
    } else {
        byte / 128 % 2 == 1
    }
}

/// The value of bit `bit`: one, two, four and so on.
pub open spec fn bit_value(bit: nat) -> int {
    if bit == 0 {
        1
    } else if bit == 1 {
        2
    } else if bit == 2 {
        4
    } else if bit == 3 {
        8
    } else if bit == 4 {
        16
    } else if bit == 5 {
        32
    } else if bit == 6 {
        64
    } else {
        128
    }
}

/// `byte` with bit `bit` set if `value`, and cleared if not.
pub open spec fn with_bit(byte: u8, bit: nat, value: bool) -> u8 {
    if bit_set(byte, bit) == value {
        byte
    } else if value {
        (byte + bit_value(bit)) as u8
    } else {
        (byte - bit_value(bit)) as u8
    }
}

} // verus!
