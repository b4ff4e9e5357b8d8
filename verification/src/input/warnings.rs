//! The warnings of the input header.

use crate::bits::{bit, bits_of, bytes_of, lemma_bits_of_bytes_of, lemma_bytes_of_bits_of, pack_bits};
use crate::error::{decoded, FrameError, PiXtendError};
use vstd::prelude::*;

verus! {

/// One byte: four unused bits, the three warnings, and one more unused bit.
///
/// The board only reports these; nothing in a communication cycle depends on
/// them.
#[derive(Debug, Clone, Copy, PartialEq, Eq)]
pub struct Warnings {
    /// The board could not talk to a device on its I2C bus.
    pub i2c_error: bool,
    /// The supply voltage is too low for retain memory to work.
    pub voltage_error: bool,
    /// The checksum of the retain memory is wrong.
    pub retain_crc_error: bool,
}

impl Warnings {
    /// The bits of the structure in transmission order.
    pub open spec fn bits(self) -> Seq<bool> {
        seq![
            false,
            false,
            false,
            false,
            self.i2c_error,
            self.voltage_error,
            self.retain_crc_error,
            false,
        ]
    }

    /// The bytes that the structure is sent as.
    pub open spec fn wire(self) -> Seq<u8> {
        bytes_of(self.bits())
    }

    /// The structure that a byte sequence is read as. The unused bits are not
    /// looked at.
    pub open spec fn parse(bytes: Seq<u8>) -> Result<Warnings, FrameError> {
        if bytes.len() != 1 {
            Err(FrameError::UnexpectedLength { expected: 1, found: bytes.len() as usize })
        } else {
            let bits = bits_of(bytes);
            Ok(Warnings { i2c_error: bits[4], voltage_error: bits[5], retain_crc_error: bits[6] })
        }
    }

    /// Whether a byte sequence is one that a structure is sent as: it has the
    /// right length and its unused bits are cleared.
    pub open spec fn canonical(bytes: Seq<u8>) -> bool {
        let bits = bits_of(bytes);
        bytes.len() == 1 && !bits[0] && !bits[1] && !bits[2] && !bits[3] && !bits[7]
    }

    /// Reading what was written gives the structure back.
    pub proof fn lemma_parse_wire(self)
        ensures
            self.wire().len() == 1,
            Warnings::canonical(self.wire()),
            Warnings::parse(self.wire()) == Ok::<Warnings, FrameError>(self),
    {
        lemma_bits_of_bytes_of(self.bits());
    }

    /// Writing what was read from a canonical byte sequence gives the bytes back.
    pub proof fn lemma_wire_parse(bytes: Seq<u8>)
        requires
            Warnings::canonical(bytes),
        ensures
            Warnings::parse(bytes) is Ok,
            Warnings::parse(bytes).unwrap().wire() == bytes,
    {
        lemma_bytes_of_bits_of(bytes);
        assert(Warnings::parse(bytes).unwrap().bits() =~= bits_of(bytes));
    }

    /// Encodes the structure.
    pub fn to_bytes(&self) -> (bytes: Vec<u8>)
        ensures
            bytes@ == self.wire(),
            bytes@.len() == 1,
    {
        proof {
            self.lemma_parse_wire();
        }
        let bits: [bool; 8] = [
            false,
            false,
            false,
            false,
            self.i2c_error,
            self.voltage_error,
            self.retain_crc_error,
            false,
        ];
        assert(bits@ =~= self.bits());
        pack_bits(bits.as_slice())
    }

    /// Decodes the structure from exactly one byte.
    pub fn from_bytes(bytes: &[u8]) -> (result: Result<Warnings, PiXtendError>)
        ensures
            result == decoded(Warnings::parse(bytes@)),
    {
        if bytes.len() != 1 {
            return Err(
                PiXtendError::BinaryFrameReadWriteError(
                    FrameError::UnexpectedLength { expected: 1, found: bytes.len() },
                ),
            );
        }
        Ok(
            Warnings {
                i2c_error: bit(bytes, 4),
                voltage_error: bit(bytes, 5),
                retain_crc_error: bit(bytes, 6),
            },
        )
    }
}

} // verus!
