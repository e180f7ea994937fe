//! Unsigned integers as byte sequences of a fixed width, in either byte order.

use crate::elf_header::{Endianness, ExecutionClass};
use vstd::arithmetic::div_mod::lemma_div_denominator;
use vstd::prelude::*;

verus! {

/// 256 to the power `index`: the weight of the byte at `index`.
pub open spec fn byte_weight(index: nat) -> nat
    decreases index,
{
    if index == 0 {
        1
    } else {
        256 * byte_weight((index - 1) as nat)
    }
}

/// The byte of `value` at `index`, where index 0 is the least significant byte.
pub open spec fn byte_at(value: nat, index: nat) -> u8 {
    ((value / byte_weight(index)) % 256) as u8
}

/// The low `width` bytes of `value`, least significant byte first.
pub open spec fn le_bytes(value: nat, width: nat) -> Seq<u8> {
    Seq::new(width, |i: int| byte_at(value, i as nat))
}

/// The low `width` bytes of `value`, most significant byte first.
pub open spec fn be_bytes(value: nat, width: nat) -> Seq<u8> {
    Seq::new(width, |i: int| byte_at(value, (width - 1 - i) as nat))
}

/// The low `width` bytes of `value` in the byte order `order`.
pub open spec fn ordered_bytes(order: Endianness, value: nat, width: nat) -> Seq<u8> {
    match order {
        Endianness::Little => le_bytes(value, width),
        Endianness::Big => be_bytes(value, width),
    }
}

/// What a word-sized field of class `class` holds of `value`: all of it in a
/// 64-bit word, its low 32 bits in a 32-bit word.
pub open spec fn word_value(class: ExecutionClass, value: u64) -> nat {
    match class {
        ExecutionClass::Real => (value % 0x1_0000_0000) as nat,
        ExecutionClass::Long => value as nat,
    }
}

/// The bytes of a word-sized field of class `class` that is given `value`.
pub open spec fn word_bytes(class: ExecutionClass, order: Endianness, value: u64) -> Seq<u8> {
    ordered_bytes(order, word_value(class, value), class.word_width() as nat)
}

/// Byte weights are positive, and each is 256 times the one before.
pub proof fn lemma_byte_weight_step(index: nat)
    ensures
        byte_weight(index) > 0,
        byte_weight(index + 1) == 256 * byte_weight(index),
    decreases index,
{
    if index > 0 {
        lemma_byte_weight_step((index - 1) as nat);
    }
}

/// The weights of the eight bytes of a 64-bit word, and the weight beyond,
/// as numbers. With them in hand the bytes of a given value can be computed
/// from [`byte_at`].
pub proof fn lemma_byte_weights()
    ensures
        byte_weight(0) == 0x1,
        byte_weight(1) == 0x100,
        byte_weight(2) == 0x1_0000,
        byte_weight(3) == 0x100_0000,
        byte_weight(4) == 0x1_0000_0000,
        byte_weight(5) == 0x100_0000_0000,
        byte_weight(6) == 0x1_0000_0000_0000,
        byte_weight(7) == 0x100_0000_0000_0000,
        byte_weight(8) == 0x1_0000_0000_0000_0000,
{
    reveal_with_fuel(byte_weight, 9);
}

/// The two byte orders write the same bytes in opposite directions.
pub proof fn lemma_big_endian_is_reversed(value: nat, width: nat)
    ensures
        be_bytes(value, width) == le_bytes(value, width).reverse(),
        ordered_bytes(Endianness::Big, value, width) == ordered_bytes(
            Endianness::Little,
            value,
            width,
        ).reverse(),
{
    assert(be_bytes(value, width) =~= le_bytes(value, width).reverse());
}

/// Zero is written as zero bytes only, in both byte orders and at any width.
pub proof fn lemma_zero_is_all_zero(order: Endianness, width: nat)
    ensures
        ordered_bytes(order, 0, width) == Seq::new(width, |i: int| 0u8),
{
    assert forall|index: nat| byte_at(0, index) == 0u8 by {
        lemma_byte_weight_step(index);
        assert(0int / (byte_weight(index) as int) == 0) by (nonlinear_arith)
            requires
                byte_weight(index) > 0,
        ;
    }
    assert(ordered_bytes(order, 0, width) =~= Seq::new(width, |i: int| 0u8));
}

/// A 32-bit word keeps the four low bytes of the value it is given and drops
/// the others; a value below 2^32 is kept whole.
pub proof fn lemma_short_word_keeps_low_bytes(order: Endianness, value: u64)
    ensures
        word_bytes(ExecutionClass::Real, order, value) == ordered_bytes(order, value as nat, 4),
        value < 0x1_0000_0000 ==> word_value(ExecutionClass::Real, value) == value,
{
    let low: u64 = value % 0x1_0000_0000;
    lemma_byte_weights();
    assert((low / 0x1) % 256 == (value / 0x1) % 256) by (bit_vector)
        requires
            low == value % 0x1_0000_0000,
    ;
    assert((low / 0x100) % 256 == (value / 0x100) % 256) by (bit_vector)
        requires
            low == value % 0x1_0000_0000,
    ;
    assert((low / 0x1_0000) % 256 == (value / 0x1_0000) % 256) by (bit_vector)
        requires
            low == value % 0x1_0000_0000,
    ;
    assert((low / 0x100_0000) % 256 == (value / 0x100_0000) % 256) by (bit_vector)
        requires
            low == value % 0x1_0000_0000,
    ;
    assert forall|i: nat| i < 4 implies byte_at(low as nat, i) == byte_at(value as nat, i) by {
        assert(i == 0 || i == 1 || i == 2 || i == 3);
    }
    assert(word_bytes(ExecutionClass::Real, order, value) =~= ordered_bytes(
        order,
        value as nat,
        4,
    ));
}

/// The eight bytes of `value`, least significant first.
fn split_bytes(value: u64) -> (digits: [u8; 8])
    ensures
        forall|i: int| 0 <= i < 8 ==> digits[i] == byte_at(value as nat, i as nat),
{
    let mut digits: [u8; 8] = [0u8; 8];
    let mut rest: u64 = value;
    let mut i: usize = 0;
    assert(byte_weight(0) == 1);
    while i < 8
        invariant
            i <= 8,
            rest as nat == value as nat / byte_weight(i as nat),
            forall|j: int| 0 <= j < i ==> digits[j] == byte_at(value as nat, j as nat),
        decreases 8 - i,
    {
        proof {
            lemma_byte_weight_step(i as nat);
            lemma_div_denominator(value as int, byte_weight(i as nat) as int, 256);
        }
        digits[i] = (rest % 256) as u8;
        rest = rest / 256;
        i += 1;
    }
    digits
}

/// Appends the low `width` bytes of `value` to `out` in the byte order `order`.
pub(crate) fn push_uint(out: &mut Vec<u8>, value: u64, width: usize, order: Endianness)
    requires
        width <= 8,
    ensures
        final(out)@ == old(out)@ + ordered_bytes(order, value as nat, width as nat),
{
    let digits = split_bytes(value);
    let mut i: usize = 0;
    while i < width
        invariant
            i <= width <= 8,
            forall|j: int| 0 <= j < 8 ==> digits[j] == byte_at(value as nat, j as nat),
            out@ == old(out)@ + ordered_bytes(order, value as nat, width as nat).take(i as int),
        decreases width - i,
    {
        let digit: u8 = match order {
            Endianness::Little => digits[i],
            Endianness::Big => digits[width - 1 - i],
        };
        out.push(digit);
        i += 1;
    }
}

/// Appends a word-sized field of class `class` that is given `value`: a value
/// too large for a 32-bit word loses its high bits.
pub(crate) fn push_word(out: &mut Vec<u8>, value: u64, class: ExecutionClass, order: Endianness)
    ensures
        final(out)@ == old(out)@ + word_bytes(class, order, value),
{
    match class {
        ExecutionClass::Real => push_uint(out, value % 0x1_0000_0000, 4, order),
        ExecutionClass::Long => push_uint(out, value, 8, order),
    }
}

/// Calls `u16::to_ne_bytes`. Taken on trust, not proved: the result holds the
/// two bytes of `value`, either least significant first or most significant
/// first. Which of the two depends on the machine that runs this code and is
/// not stated.
#[verifier::external_body]
fn native_bytes(value: u16) -> (bytes: [u8; 2])
    ensures
        bytes@ == le_bytes(value as nat, 2) || bytes@ == be_bytes(value as nat, 2),
{
    value.to_ne_bytes()
}

/// The byte order in which `probe` holds the 16-bit number one: little-endian
/// where the low byte comes first, big-endian otherwise.
pub fn order_of_probe(probe: [u8; 2]) -> (order: Endianness)
    ensures
        order == (if probe@[0] == 1 {
            Endianness::Little
        } else {
            Endianness::Big
        }),
        probe@ == le_bytes(1, 2) ==> order == Endianness::Little,
        probe@ == be_bytes(1, 2) ==> order == Endianness::Big,
{
    proof {
        lemma_byte_weights();
    }
    if probe[0] == 1 {
        Endianness::Little
    } else {
        Endianness::Big
    }
}

/// The byte order of the machine that runs this code. Nothing is stated of
/// the result: it differs from machine to machine.
pub fn host_order() -> (order: Endianness) {
    order_of_probe(native_bytes(1))
}

} // verus!
