//! The state byte of the input header: what the board thinks of the last frame
//! it was sent, and whether it is still running.

use crate::bits::{
    bit, bits_of, bits_uint, bytes_of, field, lemma_bits_of_bytes_of, lemma_bytes_of_bits_of,
    lemma_uint_read, lemma_uint_write, pack_bits, push_bits, push_zeros, uint_bits, zeros,
};
use crate::error::{decoded, FrameError, PiXtendError};
use vstd::prelude::*;

verus! {

/// The fault that the board reports in the four high bits of its state byte.
#[derive(Debug, Clone, Copy, PartialEq, Eq)]
pub enum ErrorCode {
    NoError,
    DataCrcError,
    DataBlockTooShort,
    PiXtendModelMismatch,
    HeaderCrcError,
    SPIFrequencyTooHigh,
}

impl ErrorCode {
    /// The number that stands for the code on the wire.
    pub open spec fn id(self) -> u8 {
        match self {
            ErrorCode::NoError => 0,
            ErrorCode::DataCrcError => 2,
            ErrorCode::DataBlockTooShort => 3,
            ErrorCode::PiXtendModelMismatch => 4,
            ErrorCode::HeaderCrcError => 5,
            ErrorCode::SPIFrequencyTooHigh => 6,
        }
    }

    /// The code that a number stands for, if any.
    pub open spec fn of_id(id: u8) -> Option<ErrorCode> {
        if id == 0 {
            Some(ErrorCode::NoError)
        } else if id == 2 {
            Some(ErrorCode::DataCrcError)
        } else if id == 3 {
            Some(ErrorCode::DataBlockTooShort)
        } else if id == 4 {
            Some(ErrorCode::PiXtendModelMismatch)
        } else if id == 5 {
            Some(ErrorCode::HeaderCrcError)
        } else if id == 6 {
            Some(ErrorCode::SPIFrequencyTooHigh)
        } else {
            None
        }
    }

    /// Every code has a number of its own that fits into four bits, and a number
    /// stands for at most one code.
    pub proof fn lemma_id_injective(self, id: u8)
        ensures
            self.id() < 16,
            ErrorCode::of_id(self.id()) == Some(self),
            ErrorCode::of_id(id) == Some(self) ==> id == self.id(),
    {
    }

    /// The number that stands for the code on the wire.
    pub fn to_id(&self) -> (id: u8)
        ensures
            id == self.id(),
    {
        match self {
            ErrorCode::NoError => 0,
            ErrorCode::DataCrcError => 2,
            ErrorCode::DataBlockTooShort => 3,
            ErrorCode::PiXtendModelMismatch => 4,
            ErrorCode::HeaderCrcError => 5,
            ErrorCode::SPIFrequencyTooHigh => 6,
        }
    }

    /// The code that a number stands for; `None` for the numbers that stand for
    /// none.
    pub fn from_id(id: u8) -> (code: Option<ErrorCode>)
        ensures
            code == ErrorCode::of_id(id),
    {
        match id {
            0 => Some(ErrorCode::NoError),
            2 => Some(ErrorCode::DataCrcError),
            3 => Some(ErrorCode::DataBlockTooShort),
            4 => Some(ErrorCode::PiXtendModelMismatch),
            5 => Some(ErrorCode::HeaderCrcError),
            6 => Some(ErrorCode::SPIFrequencyTooHigh),
            _ => None,
        }
    }
}

/// One byte: the error code in four bits, three unused bits, and the run bit.
#[derive(Debug, Clone, Copy, PartialEq, Eq)]
pub struct State {
    pub error_code: ErrorCode,
    pub run: bool,
}

impl State {
    /// The bits of the structure in transmission order.
    pub open spec fn bits(self) -> Seq<bool> {
        uint_bits(self.error_code.id() as u16, 4) + zeros(3) + seq![self.run]
    }

    /// The bytes that the structure is sent as.
    pub open spec fn wire(self) -> Seq<u8> {
        bytes_of(self.bits())
    }

    /// The number in the four error bits of a state byte.
    pub open spec fn error_bits(bytes: Seq<u8>) -> u8 {
        bits_uint(bits_of(bytes), 0, 4) as u8
    }

    /// The structure that a byte sequence is read as. The unused bits are not
    /// looked at; error bits that spell no known code are refused.
    pub open spec fn parse(bytes: Seq<u8>) -> Result<State, FrameError> {
        if bytes.len() != 1 {
            Err(FrameError::UnexpectedLength { expected: 1, found: bytes.len() as usize })
        } else {
            match ErrorCode::of_id(State::error_bits(bytes)) {
                Some(error_code) => Ok(State { error_code, run: bits_of(bytes)[7] }),
                None => Err(FrameError::UnknownErrorCode(State::error_bits(bytes))),
            }
        }
    }

    /// Whether a byte sequence is one that a structure is sent as: it has the
    /// right length, a known error code, and its unused bits are cleared.
    pub open spec fn canonical(bytes: Seq<u8>) -> bool {
        let bits = bits_of(bytes);
        &&& bytes.len() == 1
        &&& ErrorCode::of_id(State::error_bits(bytes)) is Some
        &&& !bits[4] && !bits[5] && !bits[6]
    }

    /// Reading what was written gives the structure back.
    pub proof fn lemma_parse_wire(self)
        ensures
            self.wire().len() == 1,
            State::canonical(self.wire()),
            State::parse(self.wire()) == Ok::<State, FrameError>(self),
    {
        lemma_bits_of_bytes_of(self.bits());
        assert(self.bits().subrange(0, 4) =~= uint_bits(self.error_code.id() as u16, 4));
        lemma_uint_read(self.bits(), 0, self.error_code.id() as u16, 4);
    }

    /// Writing what was read from a canonical byte sequence gives the bytes back.
    pub proof fn lemma_wire_parse(bytes: Seq<u8>)
        requires
            State::canonical(bytes),
        ensures
            State::parse(bytes) is Ok,
            State::parse(bytes).unwrap().wire() == bytes,
    {
        lemma_bytes_of_bits_of(bytes);
        lemma_uint_write(bits_of(bytes), 0, 4);
        assert(State::parse(bytes).unwrap().bits() =~= bits_of(bytes));
    }

    /// Encodes the structure.
    pub fn to_bytes(&self) -> (bytes: Vec<u8>)
        ensures
            bytes@ == self.wire(),
            bytes@.len() == 1,
    {
        proof {
            self.lemma_parse_wire();
        }
        let mut bits: Vec<bool> = Vec::new();
        push_bits(&mut bits, self.error_code.to_id() as u16, 4);
        push_zeros(&mut bits, 3);
        bits.push(self.run);
        assert(bits@ =~= self.bits());
        pack_bits(bits.as_slice())
    }

    /// Decodes the structure from exactly one byte.
    pub fn from_bytes(bytes: &[u8]) -> (result: Result<State, PiXtendError>)
        ensures
            result == decoded(State::parse(bytes@)),
    {
        if bytes.len() != 1 {
            return Err(
                PiXtendError::BinaryFrameReadWriteError(
                    FrameError::UnexpectedLength { expected: 1, found: bytes.len() },
                ),
            );
        }
        let id: u16 = field(bytes, 0, 4);
        proof {
            lemma_bytes_of_bits_of(bytes@);
            lemma_uint_write(bits_of(bytes@), 0, 4);
        }
        match ErrorCode::from_id(id as u8) {
            Some(error_code) => Ok(State { error_code, run: bit(bytes, 7) }),
            None => Err(
                PiXtendError::BinaryFrameReadWriteError(FrameError::UnknownErrorCode(id as u8)),
            ),
        }
    }
}

} // verus!
