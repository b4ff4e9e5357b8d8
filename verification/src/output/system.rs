//! The system flags of the output header.

use crate::bits::{bit, bits_of, bytes_of, lemma_bits_of_bytes_of, lemma_bytes_of_bits_of, pack_bits};
use crate::error::{decoded, FrameError, PiXtendError};
use vstd::prelude::*;

verus! {

/// One byte: three unused bits, then the five flags.
#[derive(Debug, Clone, Copy, PartialEq, Eq)]
pub struct System {
    /// Allows pull-ups on GPIOs that are inputs and ask for one.
    pub gpio_pullup_enable: bool,
    /// Switches the status LED off.
    pub led_disable: bool,
    /// Switches retain memory on.
    pub retain_enable: bool,
    /// Makes the board answer with the retain data it was last sent, in place of
    /// the data it has stored.
    pub retain_copy: bool,
    /// Puts the board into the safe state, which only a restart ends.
    pub safe: bool,
}

impl System {
    /// The structure with nothing set.
    pub open spec fn zero() -> System {
        System {
            gpio_pullup_enable: false,
            led_disable: false,
            retain_enable: false,
            retain_copy: false,
            safe: false,
        }
    }

    /// The bits of the structure in transmission order.
    pub open spec fn bits(self) -> Seq<bool> {
        seq![
            false,
            false,
            false,
            self.gpio_pullup_enable,
            self.led_disable,
            self.retain_enable,
            self.retain_copy,
            self.safe,
        ]
    }

    /// The bytes that the structure is sent as.
    pub open spec fn wire(self) -> Seq<u8> {
        bytes_of(self.bits())
    }

    /// The structure that a byte sequence is read as. The unused bits are not
    /// looked at.
    pub open spec fn parse(bytes: Seq<u8>) -> Result<System, FrameError> {
        if bytes.len() != 1 {
            Err(FrameError::UnexpectedLength { expected: 1, found: bytes.len() as usize })
        } else {
            let bits = bits_of(bytes);
            Ok(
                System {
                    gpio_pullup_enable: bits[3],
                    led_disable: bits[4],
                    retain_enable: bits[5],
                    retain_copy: bits[6],
                    safe: bits[7],
                },
            )
        }
    }

    /// Whether a byte sequence is one that a structure is sent as: it has
    /// the right length and its unused bits are cleared.
    pub open spec fn canonical(bytes: Seq<u8>) -> bool {
        let bits = bits_of(bytes);
        bytes.len() == 1 && !bits[0] && !bits[1] && !bits[2]
    }

    /// Reading what was written gives the structure back.
    pub proof fn lemma_parse_wire(self)
        ensures
            self.wire().len() == 1,
            System::canonical(self.wire()),
            System::parse(self.wire()) == Ok::<System, FrameError>(self),
    {
        lemma_bits_of_bytes_of(self.bits());
    }

    /// Writing what was read from a canonical byte sequence gives the bytes back.
    pub proof fn lemma_wire_parse(bytes: Seq<u8>)
        requires
            System::canonical(bytes),
        ensures
            System::parse(bytes) is Ok,
            System::parse(bytes).unwrap().wire() == bytes,
    {
        lemma_bytes_of_bits_of(bytes);
        assert(System::parse(bytes).unwrap().bits() =~= bits_of(bytes));
    }

    /// Encodes the structure.
    pub fn to_bytes(&self) -> (bytes: Vec<u8>)
        ensures
            bytes@ == self.wire(),
            bytes@.len() == 1,
    {
        proof {
            self.lemma_parse_wire();
        }
        let bits: [bool; 8] = [
            false,
            false,
            false,
            self.gpio_pullup_enable,
            self.led_disable,
            self.retain_enable,
            self.retain_copy,
            self.safe,
        ];
        assert(bits@ =~= self.bits());
        pack_bits(bits.as_slice())
    }

    /// Decodes the structure from exactly one byte.
    pub fn from_bytes(bytes: &[u8]) -> (result: Result<System, PiXtendError>)
        ensures
            result == decoded(System::parse(bytes@)),
    {
        if bytes.len() != 1 {
            return Err(
                PiXtendError::BinaryFrameReadWriteError(
                    FrameError::UnexpectedLength { expected: 1, found: bytes.len() },
                ),
            );
        }
        Ok(
            System {
                gpio_pullup_enable: bit(bytes, 3),
                led_disable: bit(bytes, 4),
                retain_enable: bit(bytes, 5),
                retain_copy: bit(bytes, 6),
                safe: bit(bytes, 7),
            },
        )
    }
}

impl Default for System {
    /// All flags are cleared.
    fn default() -> (value: System)
        ensures
            value == System::zero(),
    {
        System {
            gpio_pullup_enable: false,
            led_disable: false,
            retain_enable: false,
            retain_copy: false,
            safe: false,
        }
    }
}

} // verus!
