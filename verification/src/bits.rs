//! The field codec: bit strings, their packing into bytes, and the unsigned
//! fields that the frames store in them.
//!
//! A frame is described as a string of bits in transmission order. The first bit
//! of the string is the most significant bit of the first byte. An unsigned field
//! of `width` bits occupies `width` consecutive positions, most significant bit
//! first, and may cross a byte boundary.
//!
//! The definitions are written out without recursion, so that what they say of
//! given bytes can be computed. The two that pack and unpack, `bytes_of` and
//! `bits_of`, are opaque to keep them out of proofs that do not need them: a
//! proof about given bytes reveals them first.

use vstd::arithmetic::div_mod::lemma_div_denominator;
use vstd::arithmetic::power2::{lemma2_to64, pow2};
use vstd::bits::lemma_u16_shr_is_div;
use vstd::bits::lemma_u8_shr_is_div;
use vstd::prelude::*;

verus! {

/// The value of a binary place, `2^exponent`. Written out for the sixteen places
/// of a 16 bit number; every higher place counts as the seventeenth, in which a
/// 16 bit number has nothing.
pub open spec fn place(exponent: int) -> int {
    if exponent == 0 {
        1
    } else if exponent == 1 {
        2
    } else if exponent == 2 {
        4
    } else if exponent == 3 {
        8
    } else if exponent == 4 {
        16
    } else if exponent == 5 {
        32
    } else if exponent == 6 {
        64
    } else if exponent == 7 {
        128
    } else if exponent == 8 {
        256
    } else if exponent == 9 {
        512
    } else if exponent == 10 {
        1024
    } else if exponent == 11 {
        2048
    } else if exponent == 12 {
        4096
    } else if exponent == 13 {
        8192
    } else if exponent == 14 {
        16384
    } else if exponent == 15 {
        32768
    } else {
        65536
    }
}

/// The bits of `value` as a field of `width` bits, most significant bit first:
/// position `i` holds the digit of the place `width - 1 - i`.
pub open spec fn uint_bits(value: u16, width: nat) -> Seq<bool> {
    Seq::new(width, |i: int| (value as int / place(width - 1 - i)) % 2 == 1)
}

/// A run of `count` cleared bits, as padding is written.
pub open spec fn zeros(count: nat) -> Seq<bool> {
    Seq::new(count, |i: int| false)
}

/// The bit string of a byte sequence: eight bits per byte, bytes in order, each
/// byte most significant bit first.
#[verifier::opaque]
pub open spec fn bits_of(bytes: Seq<u8>) -> Seq<bool> {
    Seq::new(8 * bytes.len(), |i: int| (bytes[i / 8] as int / place(7 - i % 8)) % 2 == 1)
}

/// What the bit at position `index` of a bit string counts in the place
/// `exponent`: the value of the place if the bit is set, and nothing if it is
/// cleared, lies outside the string, or has no place.
pub open spec fn digit(bits: Seq<bool>, index: int, exponent: int) -> int {
    if exponent >= 0 && 0 <= index < bits.len() && bits[index] {
        place(exponent)
    } else {
        0
    }
}

/// The number that the `width` bits from position `start` of a bit string
/// spell, most significant bit first, for a width of at most 16. Bits outside
/// the string count as cleared.
pub open spec fn bits_uint(bits: Seq<bool>, start: int, width: int) -> int {
    digit(bits, start, width - 1) + digit(bits, start + 1, width - 2) + digit(
        bits,
        start + 2,
        width - 3,
    ) + digit(bits, start + 3, width - 4) + digit(bits, start + 4, width - 5) + digit(
        bits,
        start + 5,
        width - 6,
    ) + digit(bits, start + 6, width - 7) + digit(bits, start + 7, width - 8) + digit(
        bits,
        start + 8,
        width - 9,
    ) + digit(bits, start + 9, width - 10) + digit(bits, start + 10, width - 11) + digit(
        bits,
        start + 11,
        width - 12,
    ) + digit(bits, start + 12, width - 13) + digit(bits, start + 13, width - 14) + digit(
        bits,
        start + 14,
        width - 15,
    ) + digit(bits, start + 15, width - 16)
}

/// The bytes that hold a bit string. A string whose length is no multiple of
/// eight is filled up with cleared bits.
#[verifier::opaque]
pub open spec fn bytes_of(bits: Seq<bool>) -> Seq<u8> {
    Seq::new((bits.len() + 7) / 8, |j: int| bits_uint(bits, 8 * j, 8) as u8)
}

/// The unsigned field of `width` bits that starts at bit `offset` of a buffer.
/// There is none where the field is wider than 16 bits or reaches past the end
/// of the buffer.
pub open spec fn field_at(bytes: Seq<u8>, offset: nat, width: nat) -> Option<u16> {
    if width <= 16 && offset + width <= 8 * bytes.len() {
        Some(bits_uint(bits_of(bytes), offset as int, width as int) as u16)
    } else {
        None
    }
}

/// A 16 bit number as two bytes, low byte first.
pub open spec fn le16(value: u16) -> Seq<u8> {
    seq![(value % 256) as u8, (value / 256) as u8]
}

/// The 16 bit number whose low byte is `low` and whose high byte is `high`.
pub open spec fn le16_value(low: u8, high: u8) -> u16 {
    (low + 256 * high) as u16
}

/// The number that a bit string spells, most significant bit first, taken one
/// bit at a time.
spec fn spelled(bits: Seq<bool>) -> nat
    decreases bits.len(),
{
    if bits.len() == 0 {
        0
    } else {
        2 * spelled(bits.drop_last()) + if bits.last() {
            1nat
        } else {
            0nat
        }
    }
}

/// Each of the first seventeen places is the power of two of its exponent, and
/// counts twice the place below it.
pub proof fn lemma_place(exponent: int)
    requires
        0 <= exponent <= 16,
    ensures
        place(exponent) == pow2(exponent as nat),
        exponent > 0 ==> place(exponent) == 2 * place(exponent - 1),
{
    lemma2_to64();
}

proof fn lemma_uint_bits_step(value: u16, width: nat)
    requires
        0 < width <= 16,
    ensures
        uint_bits(value, width).drop_last() == uint_bits(value / 2, (width - 1) as nat),
        uint_bits(value, width).last() == (value % 2 == 1),
{
    let narrow = (width - 1) as nat;
    assert forall|i: int| 0 <= i < narrow implies uint_bits(value, width)[i] == uint_bits(
        value / 2,
        narrow,
    )[i] by {
        let e = narrow - 1 - i;
        lemma_place(e + 1);
        lemma_div_denominator(value as int, 2, place(e));
    }
    assert(uint_bits(value, width).drop_last() =~= uint_bits(value / 2, narrow));
    assert(uint_bits(value, width)[width - 1] == ((value as int / place(0)) % 2 == 1));
}

proof fn lemma_spelled_bound(bits: Seq<bool>)
    requires
        bits.len() <= 16,
    ensures
        spelled(bits) < place(bits.len() as int),
    decreases bits.len(),
{
    if bits.len() > 0 {
        lemma_spelled_bound(bits.drop_last());
        lemma_place(bits.len() as int);
    }
}

proof fn lemma_spelled_of_uint_bits(value: u16, width: nat)
    requires
        width <= 16,
        value < place(width as int),
    ensures
        spelled(uint_bits(value, width)) == value,
    decreases width,
{
    if width > 0 {
        lemma_uint_bits_step(value, width);
        lemma_place(width as int);
        lemma_spelled_of_uint_bits(value / 2, (width - 1) as nat);
    }
}

proof fn lemma_uint_bits_of_spelled(bits: Seq<bool>)
    requires
        bits.len() <= 16,
    ensures
        spelled(bits) < 65536,
        uint_bits(spelled(bits) as u16, bits.len()) == bits,
    decreases bits.len(),
{
    lemma_spelled_bound(bits);
    if bits.len() > 0 {
        let value = spelled(bits) as u16;
        lemma_uint_bits_step(value, bits.len());
        lemma_uint_bits_of_spelled(bits.drop_last());
        assert(value / 2 == spelled(bits.drop_last()));
        assert(uint_bits(value, bits.len()) =~= uint_bits(value, bits.len()).drop_last().push(
            uint_bits(value, bits.len()).last(),
        ));
        assert(bits =~= bits.drop_last().push(bits.last()));
    } else {
        assert(uint_bits(spelled(bits) as u16, bits.len()) =~= bits);
    }
}

/// What one more bit does to one term of the number that is spelled.
proof fn lemma_digit_step(bits: Seq<bool>, index: int, exponent: int)
    requires
        exponent <= 15,
    ensures
        digit(bits, index, exponent) == 2 * digit(bits, index, exponent - 1) + if exponent == 0
            && 0 <= index < bits.len() && bits[index] {
            1int
        } else {
            0int
        },
{
    if exponent > 0 {
        lemma_place(exponent);
    }
}

/// What one more bit does to the number that is spelled.
proof fn lemma_bits_uint_step(bits: Seq<bool>, start: int, width: int)
    requires
        0 <= start,
        0 < width <= 16,
        start + width <= bits.len(),
    ensures
        bits_uint(bits, start, width) == 2 * bits_uint(bits, start, width - 1) + if bits[start
            + width - 1] {
            1int
        } else {
            0int
        },
{
    lemma_digit_step(bits, start, width - 1);
    lemma_digit_step(bits, start + 1, width - 2);
    lemma_digit_step(bits, start + 2, width - 3);
    lemma_digit_step(bits, start + 3, width - 4);
    lemma_digit_step(bits, start + 4, width - 5);
    lemma_digit_step(bits, start + 5, width - 6);
    lemma_digit_step(bits, start + 6, width - 7);
    lemma_digit_step(bits, start + 7, width - 8);
    lemma_digit_step(bits, start + 8, width - 9);
    lemma_digit_step(bits, start + 9, width - 10);
    lemma_digit_step(bits, start + 10, width - 11);
    lemma_digit_step(bits, start + 11, width - 12);
    lemma_digit_step(bits, start + 12, width - 13);
    lemma_digit_step(bits, start + 13, width - 14);
    lemma_digit_step(bits, start + 14, width - 15);
    lemma_digit_step(bits, start + 15, width - 16);
}

proof fn lemma_bits_uint_spelled(bits: Seq<bool>, start: int, width: int)
    requires
        0 <= start,
        0 <= width <= 16,
        start + width <= bits.len(),
    ensures
        bits_uint(bits, start, width) == spelled(bits.subrange(start, start + width)),
    decreases width,
{
    let part = bits.subrange(start, start + width);
    if width > 0 {
        lemma_bits_uint_spelled(bits, start, width - 1);
        lemma_bits_uint_step(bits, start, width);
        assert(part.drop_last() =~= bits.subrange(start, start + width - 1));
        assert(part.last() == bits[start + width - 1]);
    }
}

/// Reading a field where a value that fits was written gives the value.
pub proof fn lemma_uint_read(bits: Seq<bool>, start: int, value: u16, width: nat)
    requires
        0 <= start,
        width <= 16,
        start + width <= bits.len(),
        value < place(width as int),
        bits.subrange(start, start + width) == uint_bits(value, width),
    ensures
        bits_uint(bits, start, width as int) == value,
{
    lemma_bits_uint_spelled(bits, start, width as int);
    lemma_spelled_of_uint_bits(value, width);
}

/// What is read from a field fits into the field, and writing it there gives
/// the bits of the field back.
pub proof fn lemma_uint_write(bits: Seq<bool>, start: int, width: nat)
    requires
        0 <= start,
        width <= 16,
        start + width <= bits.len(),
    ensures
        0 <= bits_uint(bits, start, width as int) < place(width as int),
        uint_bits(bits_uint(bits, start, width as int) as u16, width) == bits.subrange(
            start,
            start + width,
        ),
{
    lemma_bits_uint_spelled(bits, start, width as int);
    lemma_spelled_bound(bits.subrange(start, start + width));
    lemma_uint_bits_of_spelled(bits.subrange(start, start + width));
}

/// The bits of a byte sequence, one at a time: the eight bits of each byte are
/// the byte as a field of eight bits.
pub proof fn lemma_bits_of_index(bytes: Seq<u8>, index: int)
    ensures
        bits_of(bytes).len() == 8 * bytes.len(),
        0 <= index < 8 * bytes.len() ==> bits_of(bytes)[index] == uint_bits(
            bytes[index / 8] as u16,
            8,
        )[index % 8],
{
    reveal(bits_of);
}

/// The bytes of a bit string, one at a time: each is the number that its eight
/// bits spell.
pub proof fn lemma_bytes_of_index(bits: Seq<bool>, index: int)
    ensures
        bytes_of(bits).len() == (bits.len() + 7) / 8,
        0 <= index < (bits.len() + 7) / 8 ==> bytes_of(bits)[index] == bits_uint(
            bits,
            8 * index,
            8,
        ) as u8,
{
    reveal(bytes_of);
}

/// Unpacking the bytes that hold a bit string of whole bytes gives the string.
pub proof fn lemma_bits_of_bytes_of(bits: Seq<bool>)
    requires
        bits.len() % 8 == 0,
    ensures
        bytes_of(bits).len() == bits.len() / 8,
        bits_of(bytes_of(bits)) == bits,
{
    let bytes = bytes_of(bits);
    lemma_bytes_of_index(bits, 0);
    lemma_bits_of_index(bytes, 0);
    assert forall|i: int| 0 <= i < bits.len() implies bits_of(bytes)[i] == bits[i] by {
        let start = 8 * (i / 8);
        lemma_bytes_of_index(bits, i / 8);
        lemma_bits_of_index(bytes, i);
        lemma_uint_write(bits, start, 8);
        let value = bits_uint(bits, start, 8) as u16;
        assert(bytes[i / 8] == value);
        assert(uint_bits(value, 8)[i % 8] == bits.subrange(start, start + 8)[i % 8]);
    }
    assert(bits_of(bytes) =~= bits);
}

/// Packing the bit string of a byte sequence gives the bytes back.
pub proof fn lemma_bytes_of_bits_of(bytes: Seq<u8>)
    ensures
        bits_of(bytes).len() == 8 * bytes.len(),
        bytes_of(bits_of(bytes)) == bytes,
{
    let bits = bits_of(bytes);
    lemma_bits_of_index(bytes, 0);
    lemma_bytes_of_index(bits, 0);
    assert forall|j: int| 0 <= j < bytes.len() implies bytes_of(bits)[j] == bytes[j] by {
        lemma_bytes_of_index(bits, j);
        let part = bits.subrange(8 * j, 8 * j + 8);
        assert forall|k: int| 0 <= k < 8 implies part[k] == uint_bits(bytes[j] as u16, 8)[k] by {
            lemma_bits_of_index(bytes, 8 * j + k);
        }
        assert(part =~= uint_bits(bytes[j] as u16, 8));
        lemma_uint_read(bits, 8 * j, bytes[j] as u16, 8);
    }
    assert(bytes_of(bits) =~= bytes);
}

/// The two bytes of a 16 bit number give the number back.
pub proof fn lemma_le16_value(value: u16)
    ensures
        le16(value).len() == 2,
        le16_value(le16(value)[0], le16(value)[1]) == value,
{
}

/// The number made of two bytes is stored as those two bytes.
pub proof fn lemma_le16_bytes(low: u8, high: u8)
    ensures
        le16(le16_value(low, high)) == seq![low, high],
{
    assert(le16(le16_value(low, high)) =~= seq![low, high]);
}

/// Appends `count` cleared bits to a bit string.
pub fn push_zeros(bits: &mut Vec<bool>, count: usize)
    ensures
        final(bits)@ == old(bits)@ + zeros(count as nat),
{
    let ghost before = bits@;
    let mut i: usize = 0;
    while i < count
        invariant
            i <= count,
            bits@ == before + zeros(i as nat),
        decreases count - i,
    {
        bits.push(false);
        i += 1;
        assert(bits@ =~= before + zeros(i as nat));
    }
    assert(before + zeros(0) =~= before);
}

/// Appends `value` to a bit string as a field of `width` bits, most significant
/// bit first. Where the value does not fit, only its low `width` bits are
/// written; where the field is wider than the value, it starts with cleared bits.
pub fn push_bits(bits: &mut Vec<bool>, value: u16, width: usize)
    ensures
        final(bits)@ == old(bits)@ + uint_bits(value, width as nat),
{
    let ghost before = bits@;
    let ghost field = uint_bits(value, width as nat);
    let mut i: usize = 0;
    while i < width
        invariant
            i <= width,
            field == uint_bits(value, width as nat),
            bits@ == before + field.take(i as int),
        decreases width - i,
    {
        let shift: usize = width - 1 - i;
        let bit: bool = shift < 16 && (value >> (shift as u16)) % 2 == 1;
        proof {
            if shift < 16 {
                lemma_u16_shr_is_div(value, shift as u16);
                lemma_place(shift as int);
            }
            assert(bit == field[i as int]);
        }
        bits.push(bit);
        i += 1;
        assert(bits@ =~= before + field.take(i as int));
    }
    assert(field.take(width as int) =~= field);
}

/// Packs a bit string into bytes, eight bits to a byte and the first bit into
/// the most significant place. A last, incomplete byte is filled up with
/// cleared bits.
pub fn pack_bits(bits: &[bool]) -> (bytes: Vec<u8>)
    ensures
        bytes@ == bytes_of(bits@),
{
    let whole: usize = bits.len() / 8;
    let count: usize = if bits.len() % 8 == 0 {
        whole
    } else {
        whole + 1
    };
    let mut bytes: Vec<u8> = Vec::new();
    let mut j: usize = 0;
    while j < count
        invariant
            j <= count,
            whole == bits@.len() / 8,
            bits@.len() <= usize::MAX,
            count == (bits@.len() + 7) / 8,
            bytes@ == bytes_of(bits@).take(j as int),
        decreases count - j,
    {
        let start: usize = 8 * j;
        let ghost chunk = Seq::new(8, |k: int| start + k < bits@.len() && bits@[start + k]);
        let mut byte: u8 = 0;
        let mut k: usize = 0;
        while k < 8
            invariant
                k <= 8,
                start == 8 * j,
                start <= bits@.len(),
                chunk == Seq::new(8, |k: int| start + k < bits@.len() && bits@[start + k]),
                byte == spelled(chunk.take(k as int)),
            decreases 8 - k,
        {
            let bit: bool = k < bits.len() - start && bits[start + k];
            proof {
                lemma_spelled_bound(chunk.take(k as int));
                lemma_place(k as int);
                assert(place(k as int) <= 128);
                assert(chunk.take(k + 1).drop_last() =~= chunk.take(k as int));
                assert(chunk.take(k + 1).last() == bit);
            }
            byte = 2 * byte + if bit {
                1
            } else {
                0
            };
            k += 1;
        }
        proof {
            assert(chunk.subrange(0, 8) =~= chunk.take(8));
            lemma_bits_uint_spelled(chunk, 0, 8);
            assert(bits_uint(chunk, 0, 8) == bits_uint(bits@, start as int, 8));
        }
        bytes.push(byte);
        j += 1;
        assert(bytes@ =~= bytes_of(bits@).take(j as int)) by {
            reveal(bytes_of);
        }
    }
    assert(bytes_of(bits@).take(count as int) =~= bytes_of(bits@)) by {
        reveal(bytes_of);
    }
    bytes
}

/// Reads bit `index` of a buffer, counted from the most significant bit of its
/// first byte.
pub(crate) fn bit(bytes: &[u8], index: usize) -> (bit: bool)
    requires
        index < 8 * bytes@.len(),
    ensures
        bit == bits_of(bytes@)[index as int],
{
    let byte: u8 = bytes[index / 8];
    let shift: u8 = 7 - (index % 8) as u8;
    proof {
        reveal(bits_of);
        lemma_u8_shr_is_div(byte, shift);
        lemma_place(shift as int);
    }
    (byte >> shift) % 2 == 1
}

/// Reads the unsigned field of `width` bits that starts at bit `offset`.
pub(crate) fn field(bytes: &[u8], offset: usize, width: usize) -> (value: u16)
    requires
        width <= 16,
        offset + width <= 8 * bytes@.len(),
    ensures
        field_at(bytes@, offset as nat, width as nat) == Some(value),
{
    let first: usize = offset / 8;
    let lead: usize = offset % 8;
    let ghost all = bits_of(bytes@);
    let ghost wanted = all.subrange(offset as int, offset + width);
    let mut value: u16 = 0;
    let mut i: usize = 0;
    while i < width
        invariant
            i <= width <= 16,
            offset + width <= 8 * bytes@.len(),
            first == offset / 8,
            lead == offset % 8,
            all == bits_of(bytes@),
            wanted == all.subrange(offset as int, offset + width),
            value == spelled(wanted.take(i as int)),
        decreases width - i,
    {
        let position: usize = lead + i;
        let byte: u8 = bytes[first + position / 8];
        let shift: u8 = 7 - (position % 8) as u8;
        let bit: bool = (byte >> shift) % 2 == 1;
        proof {
            reveal(bits_of);
            lemma_u8_shr_is_div(byte, shift);
            lemma_place(shift as int);
            assert(bit == all[offset + i]);
            lemma_spelled_bound(wanted.take(i as int));
            lemma_place(i as int);
            assert(place(i as int) <= 32768);
            assert(wanted.take(i + 1).drop_last() =~= wanted.take(i as int));
            assert(wanted.take(i + 1).last() == bit);
        }
        value = 2 * value + if bit {
            1
        } else {
            0
        };
        i += 1;
    }
    proof {
        reveal(bits_of);
        assert(wanted.take(width as int) =~= wanted);
        lemma_bits_uint_spelled(all, offset as int, width as int);
    }
    value
}

/// Reads an unsigned field of `width` bits at bit `offset` of a buffer, most
/// significant bit first. Returns `None` where the field is wider than 16 bits
/// or does not lie within the buffer.
pub fn read_bits(bytes: &[u8], offset: usize, width: usize) -> (value: Option<u16>)
    ensures
        value == field_at(bytes@, offset as nat, width as nat),
{
    if width > 16 {
        return None;
    }
    let end: u128 = offset as u128 + width as u128;
    if end > 8 * (bytes.len() as u128) {
        return None;
    }
    Some(field(bytes, offset, width))
}

/// Appends a 16 bit number to a byte buffer, low byte first.
pub(crate) fn push_le16(bytes: &mut Vec<u8>, value: u16)
    ensures
        final(bytes)@ == old(bytes)@ + le16(value),
{
    bytes.push((value % 256) as u8);
    bytes.push((value / 256) as u8);
    assert(bytes@ =~= old(bytes)@ + le16(value));
}

/// Reads the 16 bit number whose low byte is at position `at` of a buffer and
/// whose high byte follows it.
pub(crate) fn le16_at(bytes: &[u8], at: usize) -> (value: u16)
    requires
        at + 1 < bytes@.len(),
    ensures
        value == le16_value(bytes@[at as int], bytes@[at + 1]),
{
    bytes[at] as u16 + 256 * (bytes[at + 1] as u16)
}

} // verus!
