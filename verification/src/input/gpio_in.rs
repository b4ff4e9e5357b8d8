//! The states of the four GPIOs, as the board reads them.

use crate::bits::{bit, bits_of, bytes_of, lemma_bits_of_bytes_of, lemma_bytes_of_bits_of, pack_bits};
use crate::error::{decoded, FrameError, PiXtendError};
use vstd::prelude::*;

verus! {

/// One byte: four unused bits, then GPIO 3 down to GPIO 0.
#[derive(Debug, Clone, Copy, PartialEq, Eq)]
pub struct GpioIn {
    pub in3: bool,
    pub in2: bool,
    pub in1: bool,
    pub in0: bool,
}

impl GpioIn {
    /// The number of bytes that the structure takes in a frame.
    pub const SIZE: usize = 1;

    /// The bits of the structure in transmission order.
    pub open spec fn bits(self) -> Seq<bool> {
        seq![false, false, false, false, self.in3, self.in2, self.in1, self.in0]
    }

    /// The bytes that the structure is sent as.
    pub open spec fn wire(self) -> Seq<u8> {
        bytes_of(self.bits())
    }

    /// The structure that a byte sequence is read as. The unused bits are not
    /// looked at.
    pub open spec fn parse(bytes: Seq<u8>) -> Result<GpioIn, FrameError> {
        if bytes.len() != 1 {
            Err(FrameError::UnexpectedLength { expected: 1, found: bytes.len() as usize })
        } else {
            let bits = bits_of(bytes);
            Ok(GpioIn { in3: bits[4], in2: bits[5], in1: bits[6], in0: bits[7] })
        }
    }

    /// Whether a byte sequence is one that a structure is sent as: it has the
    /// right length and its unused bits are cleared.
    pub open spec fn canonical(bytes: Seq<u8>) -> bool {
        let bits = bits_of(bytes);
        bytes.len() == 1 && !bits[0] && !bits[1] && !bits[2] && !bits[3]
    }

    /// The input with the given index, 0 to 3.
    pub open spec fn input(self, index: int) -> bool {
        seq![self.in0, self.in1, self.in2, self.in3][index]
    }

    /// Reading what was written gives the structure back.
    pub proof fn lemma_parse_wire(self)
        ensures
            self.wire().len() == 1,
            GpioIn::canonical(self.wire()),
            GpioIn::parse(self.wire()) == Ok::<GpioIn, FrameError>(self),
    {
        lemma_bits_of_bytes_of(self.bits());
    }

    /// Writing what was read from a canonical byte sequence gives the bytes back.
    pub proof fn lemma_wire_parse(bytes: Seq<u8>)
        requires
            GpioIn::canonical(bytes),
        ensures
            GpioIn::parse(bytes) is Ok,
            GpioIn::parse(bytes).unwrap().wire() == bytes,
    {
        lemma_bytes_of_bits_of(bytes);
        assert(GpioIn::parse(bytes).unwrap().bits() =~= bits_of(bytes));
    }

    /// Encodes the structure.
    pub fn to_bytes(&self) -> (bytes: Vec<u8>)
        ensures
            bytes@ == self.wire(),
            bytes@.len() == 1,
    {
        proof {
            self.lemma_parse_wire();
        }
        let bits: [bool; 8] = [false, false, false, false, self.in3, self.in2, self.in1, self.in0];
        assert(bits@ =~= self.bits());
        pack_bits(bits.as_slice())
    }

    /// Decodes the structure from exactly one byte.
    pub fn from_bytes(bytes: &[u8]) -> (result: Result<GpioIn, PiXtendError>)
        ensures
            result == decoded(GpioIn::parse(bytes@)),
    {
        if bytes.len() != 1 {
            return Err(
                PiXtendError::BinaryFrameReadWriteError(
                    FrameError::UnexpectedLength { expected: 1, found: bytes.len() },
                ),
            );
        }
        Ok(GpioIn { in3: bit(bytes, 4), in2: bit(bytes, 5), in1: bit(bytes, 6), in0: bit(bytes, 7) })
    }

    /// Reads the GPIO with the given index, which has to be 0 to 3.
    pub fn get_gpio_input(&self, index: u8) -> (result: Result<bool, PiXtendError>)
        ensures
            index <= 3 ==> result == Ok::<bool, PiXtendError>(self.input(index as int)),
            index > 3 ==> result == Err::<bool, PiXtendError>(
                PiXtendError::InvalidGpioInputIndex(index),
            ),
    {
        match index {
            0 => Ok(self.in0),
            1 => Ok(self.in1),
            2 => Ok(self.in2),
            3 => Ok(self.in3),
            _ => Err(PiXtendError::InvalidGpioInputIndex(index)),
        }
    }
}

} // verus!
