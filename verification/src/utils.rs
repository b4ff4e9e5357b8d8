//! The checksum that protects both halves of every frame.

use vstd::prelude::*;

verus! {

/// One shift of the checksum register: the register moves right by one bit, and
/// the reflected polynomial `0xA001` is folded in when the bit shifted out was set.
pub open spec fn crc16_shift(crc: u16) -> u16 {
    if crc & 1 != 0 {
        (crc >> 1) ^ 0xA001
    } else {
        crc >> 1
    }
}

/// `n` shifts of the checksum register in a row.
pub open spec fn crc16_shifts(crc: u16, n: nat) -> u16
    decreases n,
{
    if n == 0 {
        crc
    } else {
        crc16_shift(crc16_shifts(crc, (n - 1) as nat))
    }
}

/// The register after one more byte: the byte is folded into the low half of the
/// register, which is then shifted eight times.
pub open spec fn crc16_update(crc: u16, byte: u8) -> u16 {
    crc16_shifts(crc ^ (byte as u16), 8)
}

/// The checksum of a byte sequence: the register starts at `0xFFFF` and takes
/// in the bytes from first to last.
pub open spec fn crc16(bytes: Seq<u8>) -> u16
    decreases bytes.len(),
{
    if bytes.len() == 0 {
        0xFFFF
    } else {
        crc16_update(crc16(bytes.drop_last()), bytes.last())
    }
}

/// The checksum of no bytes at all is the initial register value.
pub proof fn lemma_crc16_empty()
    ensures
        crc16(Seq::<u8>::empty()) == 0xFFFF,
{
}

/// Appending one byte to a sequence updates its checksum by that byte.
pub proof fn lemma_crc16_push(bytes: Seq<u8>, byte: u8)
    ensures
        crc16(bytes.push(byte)) == crc16_update(crc16(bytes), byte),
{
    assert(bytes.push(byte).drop_last() =~= bytes);
}

/// Computes the checksum of `data`.
pub fn calc_crc16(data: &[u8]) -> (crc: u16)
    ensures
        crc == crc16(data@),
{
    let mut crc: u16 = 0xFFFF;
    let mut i: usize = 0;
    while i < data.len()
        invariant
            i <= data.len(),
            crc == crc16(data@.take(i as int)),
        decreases data.len() - i,
    {
        crc ^= data[i] as u16;
        let ghost start = crc;
        let mut k: u8 = 0;
        while k < 8
            invariant
                k <= 8,
                crc == crc16_shifts(start, k as nat),
            decreases 8 - k,
        {
            if crc & 1 != 0 {
                crc = (crc >> 1) ^ 0xA001;
            } else {
                crc >>= 1;
            }
            k += 1;
        }
        proof {
            assert(data@.take(i + 1) =~= data@.take(i as int).push(data@[i as int]));
            lemma_crc16_push(data@.take(i as int), data@[i as int]);
        }
        i += 1;
    }
    proof {
        assert(data@.take(i as int) =~= data@);
    }
    crc
}

} // verus!
