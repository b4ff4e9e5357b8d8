//! The retain memory as it is sent to the board.

use crate::block::{block, block_at, lemma_block, push_block, zero_block};
use crate::error::{decoded, FrameError, PiXtendError};
use vstd::prelude::*;

verus! {

/// The 64 bytes that the board is to keep over a loss of power.
#[derive(Debug, Clone, Copy, PartialEq, Eq)]
pub struct Retain {
    pub storage: [u8; 64],
}

/// A byte sequence of at most 64 bytes, filled up to 64 bytes with zeros.
pub open spec fn padded(data: Seq<u8>) -> Seq<u8> {
    data + Seq::new((64 - data.len()) as nat, |i: int| 0u8)
}

impl Retain {
    /// The bytes that the structure is sent as.
    pub open spec fn wire(self) -> Seq<u8> {
        self.storage@
    }

    /// The structure that a byte sequence is read as.
    pub open spec fn parse(bytes: Seq<u8>) -> Result<Retain, FrameError> {
        if bytes.len() != 64 {
            Err(FrameError::UnexpectedLength { expected: 64, found: bytes.len() as usize })
        } else {
            Ok(Retain { storage: block(bytes) })
        }
    }

    /// Whether a byte sequence is one that a structure is sent as: any 64 bytes
    /// are.
    pub open spec fn canonical(bytes: Seq<u8>) -> bool {
        bytes.len() == 64
    }

    /// Reading what was written gives the structure back.
    pub proof fn lemma_parse_wire(self)
        ensures
            self.wire().len() == 64,
            Retain::canonical(self.wire()),
            Retain::parse(self.wire()) == Ok::<Retain, FrameError>(self),
    {
        lemma_block(self.storage@);
    }

    /// Writing what was read from a canonical byte sequence gives the bytes back.
    pub proof fn lemma_wire_parse(bytes: Seq<u8>)
        requires
            Retain::canonical(bytes),
        ensures
            Retain::parse(bytes) is Ok,
            Retain::parse(bytes).unwrap().wire() == bytes,
    {
        lemma_block(bytes);
    }

    /// Encodes the structure.
    pub fn to_bytes(&self) -> (bytes: Vec<u8>)
        ensures
            bytes@ == self.wire(),
            bytes@.len() == 64,
    {
        let mut bytes: Vec<u8> = Vec::new();
        push_block(&mut bytes, &self.storage);
        assert(bytes@ =~= self.wire());
        bytes
    }

    /// Decodes the structure from exactly 64 bytes.
    pub fn from_bytes(bytes: &[u8]) -> (result: Result<Retain, PiXtendError>)
        ensures
            result == decoded(Retain::parse(bytes@)),
    {
        if bytes.len() != 64 {
            return Err(
                PiXtendError::BinaryFrameReadWriteError(
                    FrameError::UnexpectedLength { expected: 64, found: bytes.len() },
                ),
            );
        }
        assert(bytes@.subrange(0, 64) =~= bytes@);
        Ok(Retain { storage: block_at(bytes, 0) })
    }

    /// Replaces the retain data. Up to 64 bytes are accepted; what is missing to
    /// 64 bytes is filled up with zeros.
    pub fn set_retain_data(&mut self, data: Vec<u8>) -> (result: Result<(), PiXtendError>)
        ensures
            data@.len() <= 64 ==> result is Ok && final(self).wire() == padded(data@),
            data@.len() > 64 ==> result == Err::<(), PiXtendError>(
                PiXtendError::InvalidRetainDataLength(data@.len() as usize),
            ) && *final(self) == *old(self),
    {
        let length: usize = data.len();
        if length > 64 {
            return Err(PiXtendError::InvalidRetainDataLength(length));
        }
        let mut storage: [u8; 64] = zero_block();
        let mut i: usize = 0;
        while i < length
            invariant
                i <= length <= 64,
                length == data@.len(),
                forall|j: int| 0 <= j < i ==> storage@[j] == data@[j],
                forall|j: int| i <= j < 64 ==> storage@[j] == 0,
            decreases length - i,
        {
            storage[i] = data[i];
            i += 1;
        }
        self.storage = storage;
        assert(self.wire() =~= padded(data@));
        Ok(())
    }
}

impl Default for Retain {
    /// 64 zeros.
    fn default() -> (value: Retain)
        ensures
            value.wire() == Seq::new(64, |i: int| 0u8),
    {
        Retain { storage: zero_block() }
    }
}

} // verus!
