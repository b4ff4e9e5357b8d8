//! The twelve digital outputs.

use crate::bits::{
    bit, bits_of, bytes_of, lemma_bits_of_bytes_of, lemma_bytes_of_bits_of, lemma_bytes_of_index,
    pack_bits,
};
use crate::error::{decoded, FrameError, PiXtendError};
use vstd::prelude::*;

verus! {

/// Two bytes: outputs 7 down to 0 in the first; four unused bits and outputs 11
/// down to 8 in the second.
#[derive(Debug, Clone, Copy, PartialEq, Eq)]
pub struct DigitalOut {
    pub out7: bool,
    pub out6: bool,
    pub out5: bool,
    pub out4: bool,
    pub out3: bool,
    pub out2: bool,
    pub out1: bool,
    pub out0: bool,
    pub out11: bool,
    pub out10: bool,
    pub out9: bool,
    pub out8: bool,
}

impl DigitalOut {
    /// The structure with nothing set.
    pub open spec fn zero() -> DigitalOut {
        DigitalOut {
            out7: false,
            out6: false,
            out5: false,
            out4: false,
            out3: false,
            out2: false,
            out1: false,
            out0: false,
            out11: false,
            out10: false,
            out9: false,
            out8: false,
        }
    }

    /// The bits of the structure in transmission order.
    pub open spec fn bits(self) -> Seq<bool> {
        seq![
            self.out7,
            self.out6,
            self.out5,
            self.out4,
            self.out3,
            self.out2,
            self.out1,
            self.out0,
        ] + seq![false, false, false, false, self.out11, self.out10, self.out9, self.out8]
    }

    /// The bytes that the structure is sent as.
    pub open spec fn wire(self) -> Seq<u8> {
        bytes_of(self.bits())
    }

    /// The structure that a byte sequence is read as. The unused bits are not
    /// looked at.
    pub open spec fn parse(bytes: Seq<u8>) -> Result<DigitalOut, FrameError> {
        if bytes.len() != 2 {
            Err(FrameError::UnexpectedLength { expected: 2, found: bytes.len() as usize })
        } else {
            let bits = bits_of(bytes);
            Ok(
                DigitalOut {
                    out7: bits[0],
                    out6: bits[1],
                    out5: bits[2],
                    out4: bits[3],
                    out3: bits[4],
                    out2: bits[5],
                    out1: bits[6],
                    out0: bits[7],
                    out11: bits[12],
                    out10: bits[13],
                    out9: bits[14],
                    out8: bits[15],
                },
            )
        }
    }

    /// Whether a byte sequence is one that a structure is sent as: it has the
    /// right length and its unused bits are cleared.
    pub open spec fn canonical(bytes: Seq<u8>) -> bool {
        let bits = bits_of(bytes);
        bytes.len() == 2 && !bits[8] && !bits[9] && !bits[10] && !bits[11]
    }

    /// The output with the given index, 0 to 11.
    pub open spec fn output(self, index: int) -> bool {
        if index == 0 {
            self.out0
        } else if index == 1 {
            self.out1
        } else if index == 2 {
            self.out2
        } else if index == 3 {
            self.out3
        } else if index == 4 {
            self.out4
        } else if index == 5 {
            self.out5
        } else if index == 6 {
            self.out6
        } else if index == 7 {
            self.out7
        } else if index == 8 {
            self.out8
        } else if index == 9 {
            self.out9
        } else if index == 10 {
            self.out10
        } else {
            self.out11
        }
    }

    /// The structure with the output of the given index, 0 to 11, switched.
    pub open spec fn with_output(self, index: int, value: bool) -> DigitalOut {
        if index == 0 {
            DigitalOut { out0: value, ..self }
        } else if index == 1 {
            DigitalOut { out1: value, ..self }
        } else if index == 2 {
            DigitalOut { out2: value, ..self }
        } else if index == 3 {
            DigitalOut { out3: value, ..self }
        } else if index == 4 {
            DigitalOut { out4: value, ..self }
        } else if index == 5 {
            DigitalOut { out5: value, ..self }
        } else if index == 6 {
            DigitalOut { out6: value, ..self }
        } else if index == 7 {
            DigitalOut { out7: value, ..self }
        } else if index == 8 {
            DigitalOut { out8: value, ..self }
        } else if index == 9 {
            DigitalOut { out9: value, ..self }
        } else if index == 10 {
            DigitalOut { out10: value, ..self }
        } else {
            DigitalOut { out11: value, ..self }
        }
    }

    /// Switching one output leaves the others as they are.
    pub proof fn lemma_with_output(self, index: int, value: bool, other: int)
        requires
            0 <= index <= 11,
            0 <= other <= 11,
        ensures
            self.with_output(index, value).output(other) == if other == index {
                value
            } else {
                self.output(other)
            },
    {
    }

    /// Output `index` travels in byte `index / 8`, at the bit that counts
    /// `2^(index % 8)`.
    pub proof fn lemma_output_position(self, index: int)
        requires
            0 <= index <= 11,
        ensures
            self.output(index) == self.bits()[8 * (index / 8) + 7 - index % 8],
    {
        let bits = self.bits();
        assert(bits[7] == self.out0 && bits[6] == self.out1 && bits[5] == self.out2 && bits[4]
            == self.out3);
        assert(bits[3] == self.out4 && bits[2] == self.out5 && bits[1] == self.out6 && bits[0]
            == self.out7);
        assert(bits[15] == self.out8 && bits[14] == self.out9 && bits[13] == self.out10
            && bits[12] == self.out11);
    }

    /// Reading what was written gives the structure back.
    pub proof fn lemma_parse_wire(self)
        ensures
            self.wire().len() == 2,
            DigitalOut::canonical(self.wire()),
            DigitalOut::parse(self.wire()) == Ok::<DigitalOut, FrameError>(self),
    {
        let bits = self.bits();
        assert(bits.len() == 16);
        lemma_bits_of_bytes_of(bits);
        assert(bits[0] == self.out7 && bits[1] == self.out6 && bits[2] == self.out5 && bits[3]
            == self.out4);
        assert(bits[4] == self.out3 && bits[5] == self.out2 && bits[6] == self.out1 && bits[7]
            == self.out0);
        assert(!bits[8] && !bits[9] && !bits[10] && !bits[11]);
        assert(bits[12] == self.out11 && bits[13] == self.out10 && bits[14] == self.out9
            && bits[15] == self.out8);
    }

    /// Writing what was read from a canonical byte sequence gives the bytes back.
    pub proof fn lemma_wire_parse(bytes: Seq<u8>)
        requires
            DigitalOut::canonical(bytes),
        ensures
            DigitalOut::parse(bytes) is Ok,
            DigitalOut::parse(bytes).unwrap().wire() == bytes,
    {
        lemma_bytes_of_bits_of(bytes);
        let wire = bits_of(bytes);
        let bits = DigitalOut::parse(bytes).unwrap().bits();
        assert(bits.len() == 16);
        assert(bits[0] == wire[0] && bits[1] == wire[1] && bits[2] == wire[2] && bits[3]
            == wire[3]);
        assert(bits[4] == wire[4] && bits[5] == wire[5] && bits[6] == wire[6] && bits[7]
            == wire[7]);
        assert(bits[8] == wire[8] && bits[9] == wire[9] && bits[10] == wire[10] && bits[11]
            == wire[11]);
        assert(bits[12] == wire[12] && bits[13] == wire[13] && bits[14] == wire[14] && bits[15]
            == wire[15]);
        assert forall|i: int| 0 <= i < 16 implies bits[i] == wire[i] by {
            assert(i == 0 || i == 1 || i == 2 || i == 3 || i == 4 || i == 5 || i == 6 || i == 7
                || i == 8 || i == 9 || i == 10 || i == 11 || i == 12 || i == 13 || i == 14 || i
                == 15);
        }
        assert(bits =~= wire);
    }

    /// Encodes the structure.
    pub fn to_bytes(&self) -> (bytes: Vec<u8>)
        ensures
            bytes@ == self.wire(),
            bytes@.len() == 2,
    {
        let bits: [bool; 16] = [
            self.out7,
            self.out6,
            self.out5,
            self.out4,
            self.out3,
            self.out2,
            self.out1,
            self.out0,
            false,
            false,
            false,
            false,
            self.out11,
            self.out10,
            self.out9,
            self.out8,
        ];
        proof {
            assert(bits@ =~= self.bits());
            lemma_bytes_of_index(bits@, 0);
        }
        pack_bits(bits.as_slice())
    }

    /// Decodes the structure from exactly two bytes.
    pub fn from_bytes(bytes: &[u8]) -> (result: Result<DigitalOut, PiXtendError>)
        ensures
            result == decoded(DigitalOut::parse(bytes@)),
    {
        if bytes.len() != 2 {
            return Err(
                PiXtendError::BinaryFrameReadWriteError(
                    FrameError::UnexpectedLength { expected: 2, found: bytes.len() },
                ),
            );
        }
        Ok(
            DigitalOut {
                out7: bit(bytes, 0),
                out6: bit(bytes, 1),
                out5: bit(bytes, 2),
                out4: bit(bytes, 3),
                out3: bit(bytes, 4),
                out2: bit(bytes, 5),
                out1: bit(bytes, 6),
                out0: bit(bytes, 7),
                out11: bit(bytes, 12),
                out10: bit(bytes, 13),
                out9: bit(bytes, 14),
                out8: bit(bytes, 15),
            },
        )
    }

    /// The structure with the output of the given index replaced.
    fn replaced(self, index: u8, value: bool) -> (next: DigitalOut)
        requires
            index <= 11,
        ensures
            next == self.with_output(index as int, value),
    {
        match index {
            0 => DigitalOut { out0: value, ..self },
            1 => DigitalOut { out1: value, ..self },
            2 => DigitalOut { out2: value, ..self },
            3 => DigitalOut { out3: value, ..self },
            4 => DigitalOut { out4: value, ..self },
            5 => DigitalOut { out5: value, ..self },
            6 => DigitalOut { out6: value, ..self },
            7 => DigitalOut { out7: value, ..self },
            8 => DigitalOut { out8: value, ..self },
            9 => DigitalOut { out9: value, ..self },
            10 => DigitalOut { out10: value, ..self },
            _ => DigitalOut { out11: value, ..self },
        }
    }

    /// Switches the digital output with the given index, which has to be 0 to
    /// 11.
    pub fn set_digital_output(&mut self, index: u8, value: bool) -> (result: Result<
        (),
        PiXtendError,
    >)
        ensures
            index <= 11 ==> result is Ok && *final(self) == old(self).with_output(
                index as int,
                value,
            ),
            index > 11 ==> result == Err::<(), PiXtendError>(
                PiXtendError::InvalidDigitalOutputIndex(index),
            ) && *final(self) == *old(self),
    {
        if index > 11 {
            return Err(PiXtendError::InvalidDigitalOutputIndex(index));
        }
        *self = self.replaced(index, value);
        Ok(())
    }
}

impl Default for DigitalOut {
    /// All outputs are off.
    fn default() -> (value: DigitalOut)
        ensures
            value == DigitalOut::zero(),
    {
        let value = DigitalOut {
            out7: false,
            out6: false,
            out5: false,
            out4: false,
            out3: false,
            out2: false,
            out1: false,
            out0: false,
            out11: false,
            out10: false,
            out9: false,
            out8: false,
        };
        value
    }
}

} // verus!
