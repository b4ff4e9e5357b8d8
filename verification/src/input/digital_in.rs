//! The sixteen digital inputs.

use crate::bits::{
    bit, bits_of, bytes_of, lemma_bits_of_bytes_of, lemma_bytes_of_bits_of, lemma_bytes_of_index,
    pack_bits,
};
use crate::error::{decoded, FrameError, PiXtendError};
use vstd::prelude::*;

verus! {

/// Two bytes: inputs 7 down to 0 in the first, inputs 15 down to 8 in the
/// second.
#[derive(Debug, Clone, Copy, PartialEq, Eq)]
pub struct DigitalIn {
    pub in7: bool,
    pub in6: bool,
    pub in5: bool,
    pub in4: bool,
    pub in3: bool,
    pub in2: bool,
    pub in1: bool,
    pub in0: bool,
    pub in15: bool,
    pub in14: bool,
    pub in13: bool,
    pub in12: bool,
    pub in11: bool,
    pub in10: bool,
    pub in9: bool,
    pub in8: bool,
}

impl DigitalIn {
    /// The bits of the structure in transmission order.
    pub open spec fn bits(self) -> Seq<bool> {
        seq![self.in7, self.in6, self.in5, self.in4, self.in3, self.in2, self.in1, self.in0]
            + seq![
            self.in15,
            self.in14,
            self.in13,
            self.in12,
            self.in11,
            self.in10,
            self.in9,
            self.in8,
        ]
    }

    /// The bytes that the structure is sent as.
    pub open spec fn wire(self) -> Seq<u8> {
        bytes_of(self.bits())
    }

    /// The structure that a byte sequence is read as.
    pub open spec fn parse(bytes: Seq<u8>) -> Result<DigitalIn, FrameError> {
        if bytes.len() != 2 {
            Err(FrameError::UnexpectedLength { expected: 2, found: bytes.len() as usize })
        } else {
            let bits = bits_of(bytes);
            Ok(
                DigitalIn {
                    in7: bits[0],
                    in6: bits[1],
                    in5: bits[2],
                    in4: bits[3],
                    in3: bits[4],
                    in2: bits[5],
                    in1: bits[6],
                    in0: bits[7],
                    in15: bits[8],
                    in14: bits[9],
                    in13: bits[10],
                    in12: bits[11],
                    in11: bits[12],
                    in10: bits[13],
                    in9: bits[14],
                    in8: bits[15],
                },
            )
        }
    }

    /// Whether a byte sequence is one that a structure is sent as: any two bytes
    /// are.
    pub open spec fn canonical(bytes: Seq<u8>) -> bool {
        bytes.len() == 2
    }

    /// The input with the given index, 0 to 15: input `index` travels in byte
    /// `index / 8`, at the bit that counts `2^(index % 8)`.
    pub open spec fn input(self, index: int) -> bool {
        self.bits()[8 * (index / 8) + 7 - index % 8]
    }

    /// Reading what was written gives the structure back.
    pub proof fn lemma_parse_wire(self)
        ensures
            self.wire().len() == 2,
            DigitalIn::canonical(self.wire()),
            DigitalIn::parse(self.wire()) == Ok::<DigitalIn, FrameError>(self),
    {
        let bits = self.bits();
        assert(bits.len() == 16);
        lemma_bits_of_bytes_of(bits);
        assert(bits[0] == self.in7 && bits[1] == self.in6 && bits[2] == self.in5 && bits[3]
            == self.in4);
        assert(bits[4] == self.in3 && bits[5] == self.in2 && bits[6] == self.in1 && bits[7]
            == self.in0);
        assert(bits[8] == self.in15 && bits[9] == self.in14 && bits[10] == self.in13 && bits[11]
            == self.in12);
        assert(bits[12] == self.in11 && bits[13] == self.in10 && bits[14] == self.in9 && bits[15]
            == self.in8);
    }

    /// Writing what was read from a canonical byte sequence gives the bytes back.
    pub proof fn lemma_wire_parse(bytes: Seq<u8>)
        requires
            DigitalIn::canonical(bytes),
        ensures
            DigitalIn::parse(bytes) is Ok,
            DigitalIn::parse(bytes).unwrap().wire() == bytes,
    {
        lemma_bytes_of_bits_of(bytes);
        let wire = bits_of(bytes);
        let bits = DigitalIn::parse(bytes).unwrap().bits();
        assert(bits.len() == 16);
        assert(bits[0] == wire[0] && bits[1] == wire[1] && bits[2] == wire[2] && bits[3]
            == wire[3]);
        assert(bits[4] == wire[4] && bits[5] == wire[5] && bits[6] == wire[6] && bits[7]
            == wire[7]);
        assert(bits[8] == wire[8] && bits[9] == wire[9] && bits[10] == wire[10] && bits[11]
            == wire[11]);
        assert(bits[12] == wire[12] && bits[13] == wire[13] && bits[14] == wire[14] && bits[15]
            == wire[15]);
        assert forall|i: int| 0 <= i < 16 implies bits[i] == wire[i] by {
            assert(i == 0 || i == 1 || i == 2 || i == 3 || i == 4 || i == 5 || i == 6 || i == 7
                || i == 8 || i == 9 || i == 10 || i == 11 || i == 12 || i == 13 || i == 14 || i
                == 15);
        }
        assert(bits =~= wire);
    }

    /// Encodes the structure.
    pub fn to_bytes(&self) -> (bytes: Vec<u8>)
        ensures
            bytes@ == self.wire(),
            bytes@.len() == 2,
    {
        let bits: [bool; 16] = [
            self.in7,
            self.in6,
            self.in5,
            self.in4,
            self.in3,
            self.in2,
            self.in1,
            self.in0,
            self.in15,
            self.in14,
            self.in13,
            self.in12,
            self.in11,
            self.in10,
            self.in9,
            self.in8,
        ];
        proof {
            assert(bits@ =~= self.bits());
            lemma_bytes_of_index(bits@, 0);
        }
        pack_bits(bits.as_slice())
    }

    /// Decodes the structure from exactly two bytes.
    pub fn from_bytes(bytes: &[u8]) -> (result: Result<DigitalIn, PiXtendError>)
        ensures
            result == decoded(DigitalIn::parse(bytes@)),
    {
        if bytes.len() != 2 {
            return Err(
                PiXtendError::BinaryFrameReadWriteError(
                    FrameError::UnexpectedLength { expected: 2, found: bytes.len() },
                ),
            );
        }
        Ok(
            DigitalIn {
                in7: bit(bytes, 0),
                in6: bit(bytes, 1),
                in5: bit(bytes, 2),
                in4: bit(bytes, 3),
                in3: bit(bytes, 4),
                in2: bit(bytes, 5),
                in1: bit(bytes, 6),
                in0: bit(bytes, 7),
                in15: bit(bytes, 8),
                in14: bit(bytes, 9),
                in13: bit(bytes, 10),
                in12: bit(bytes, 11),
                in11: bit(bytes, 12),
                in10: bit(bytes, 13),
                in9: bit(bytes, 14),
                in8: bit(bytes, 15),
            },
        )
    }

    /// Reads the digital input with the given index, which has to be 0 to 15.
    pub fn get_digital_input(&self, index: u8) -> (result: Result<bool, PiXtendError>)
        ensures
            index <= 15 ==> result == Ok::<bool, PiXtendError>(self.input(index as int)),
            index > 15 ==> result == Err::<bool, PiXtendError>(
                PiXtendError::InvalidDigitalInputIndex(index),
            ),
    {
        match index {
            0 => Ok(self.in0),
            1 => Ok(self.in1),
            2 => Ok(self.in2),
            3 => Ok(self.in3),
            4 => Ok(self.in4),
            5 => Ok(self.in5),
            6 => Ok(self.in6),
            7 => Ok(self.in7),
            8 => Ok(self.in8),
            9 => Ok(self.in9),
            10 => Ok(self.in10),
            11 => Ok(self.in11),
            12 => Ok(self.in12),
            13 => Ok(self.in13),
            14 => Ok(self.in14),
            15 => Ok(self.in15),
            _ => Err(PiXtendError::InvalidDigitalInputIndex(index)),
        }
    }
}

} // verus!
