//! Blocks of 64 bytes, as retain memory travels in both frames.

use vstd::array::{spec_array_fill_for_copy_type, spec_array_update};
use vstd::prelude::*;

verus! {

/// The block that holds the bytes of a sequence of length 64.
pub open spec fn block(bytes: Seq<u8>) -> [u8; 64] {
    choose|block: [u8; 64]| block@ == bytes
}

/// A block whose first `count` bytes are those of `bytes`.
spec fn filled(bytes: Seq<u8>, count: nat) -> [u8; 64]
    decreases count,
{
    if count == 0 {
        spec_array_fill_for_copy_type::<u8, 64>(0)
    } else {
        spec_array_update(filled(bytes, (count - 1) as nat), count - 1, bytes[count - 1])
    }
}

proof fn lemma_filled(bytes: Seq<u8>, count: nat)
    requires
        count <= 64,
    ensures
        forall|i: int| 0 <= i < count ==> filled(bytes, count)@[i] == bytes[i],
    decreases count,
{
    if count > 0 {
        lemma_filled(bytes, (count - 1) as nat);
    }
}

/// Every sequence of 64 bytes is held by exactly one block.
pub proof fn lemma_block(bytes: Seq<u8>)
    requires
        bytes.len() == 64,
    ensures
        block(bytes)@ == bytes,
        forall|other: [u8; 64]| other@ == bytes ==> other == block(bytes),
{
    lemma_filled(bytes, 64);
    assert(filled(bytes, 64)@ =~= bytes);
    assert forall|other: [u8; 64]| other@ == bytes implies other == block(bytes) by {
        assert(other =~= block(bytes));
    }
}

/// A block of 64 cleared bytes.
pub fn zero_block() -> (block: [u8; 64])
    ensures
        block@ == Seq::new(64, |i: int| 0u8),
{
    let block: [u8; 64] = [0u8;64];
    assert(block@ =~= Seq::new(64, |i: int| 0u8));
    block
}

/// Copies the 64 bytes from position `at` of a buffer into a block.
pub(crate) fn block_at(bytes: &[u8], at: usize) -> (copy: [u8; 64])
    requires
        at + 64 <= bytes@.len(),
    ensures
        copy == block(bytes@.subrange(at as int, at + 64)),
{
    let length: usize = bytes.len();
    let mut copy: [u8; 64] = [0u8;64];
    let mut i: usize = 0;
    while i < 64
        invariant
            i <= 64,
            at + 64 <= length == bytes@.len(),
            forall|j: int| 0 <= j < i ==> copy@[j] == bytes@[at + j],
        decreases 64 - i,
    {
        copy[i] = bytes[at + i];
        i += 1;
    }
    proof {
        assert(copy@ =~= bytes@.subrange(at as int, at + 64));
        lemma_block(bytes@.subrange(at as int, at + 64));
    }
    copy
}

/// Appends the bytes of a block to a buffer.
pub(crate) fn push_block(bytes: &mut Vec<u8>, block: &[u8; 64])
    ensures
        final(bytes)@ == old(bytes)@ + block@,
{
    let ghost before = bytes@;
    let mut i: usize = 0;
    while i < 64
        invariant
            i <= 64,
            bytes@ == before + block@.take(i as int),
        decreases 64 - i,
    {
        bytes.push(block[i]);
        i += 1;
        assert(bytes@ =~= before + block@.take(i as int));
    }
    assert(block@.take(64) =~= block@);
}

} // verus!
