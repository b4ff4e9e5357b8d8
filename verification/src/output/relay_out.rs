//! The four relays.

use crate::bits::{bit, bits_of, bytes_of, lemma_bits_of_bytes_of, lemma_bytes_of_bits_of, pack_bits};
use crate::error::{decoded, FrameError, PiXtendError};
use vstd::prelude::*;

verus! {

/// One byte: four unused bits, then relay 3 down to relay 0.
#[derive(Debug, Clone, Copy, PartialEq, Eq)]
pub struct RelayOut {
    pub relay3: bool,
    pub relay2: bool,
    pub relay1: bool,
    pub relay0: bool,
}

impl RelayOut {
    /// The structure with nothing set.
    pub open spec fn zero() -> RelayOut {
        RelayOut {
            relay3: false,
            relay2: false,
            relay1: false,
            relay0: false,
        }
    }

    /// The bits of the structure in transmission order.
    pub open spec fn bits(self) -> Seq<bool> {
        seq![
            false,
            false,
            false,
            false,
            self.relay3,
            self.relay2,
            self.relay1,
            self.relay0,
        ]
    }

    /// The bytes that the structure is sent as.
    pub open spec fn wire(self) -> Seq<u8> {
        bytes_of(self.bits())
    }

    /// The structure that a byte sequence is read as. The unused bits are not
    /// looked at.
    pub open spec fn parse(bytes: Seq<u8>) -> Result<RelayOut, FrameError> {
        if bytes.len() != 1 {
            Err(FrameError::UnexpectedLength { expected: 1, found: bytes.len() as usize })
        } else {
            let bits = bits_of(bytes);
            Ok(
                RelayOut {
                    relay3: bits[4],
                    relay2: bits[5],
                    relay1: bits[6],
                    relay0: bits[7],
                },
            )
        }
    }

    /// Whether a byte sequence is one that a structure is sent as: it has
    /// the right length and its unused bits are cleared.
    pub open spec fn canonical(bytes: Seq<u8>) -> bool {
        let bits = bits_of(bytes);
        bytes.len() == 1 && !bits[0] && !bits[1] && !bits[2] && !bits[3]
    }

    /// The relay with the given index, 0 to 3: relay `index` travels at the bit
    /// that counts `2^index`.
    pub open spec fn relay(self, index: int) -> bool {
        self.bits()[7 - index]
    }

    /// The structure with the relay of the given index, 0 to 3, switched.
    pub open spec fn with_relay(self, index: int, value: bool) -> RelayOut {
        if index == 0 {
            RelayOut { relay0: value, ..self }
        } else if index == 1 {
            RelayOut { relay1: value, ..self }
        } else if index == 2 {
            RelayOut { relay2: value, ..self }
        } else {
            RelayOut { relay3: value, ..self }
        }
    }

    /// Switching one relay leaves the others as they are.
    pub proof fn lemma_with_relay(self, index: int, value: bool)
        requires
            0 <= index <= 3,
        ensures
            forall|i: int|
                0 <= i <= 3 ==> self.with_relay(index, value).relay(i) == if i == index {
                    value
                } else {
                    self.relay(i)
                },
    {
    }

    /// Reading what was written gives the structure back.
    pub proof fn lemma_parse_wire(self)
        ensures
            self.wire().len() == 1,
            RelayOut::canonical(self.wire()),
            RelayOut::parse(self.wire()) == Ok::<RelayOut, FrameError>(self),
    {
        lemma_bits_of_bytes_of(self.bits());
    }

    /// Writing what was read from a canonical byte sequence gives the bytes back.
    pub proof fn lemma_wire_parse(bytes: Seq<u8>)
        requires
            RelayOut::canonical(bytes),
        ensures
            RelayOut::parse(bytes) is Ok,
            RelayOut::parse(bytes).unwrap().wire() == bytes,
    {
        lemma_bytes_of_bits_of(bytes);
        assert(RelayOut::parse(bytes).unwrap().bits() =~= bits_of(bytes));
    }

    /// Encodes the structure.
    pub fn to_bytes(&self) -> (bytes: Vec<u8>)
        ensures
            bytes@ == self.wire(),
            bytes@.len() == 1,
    {
        proof {
            self.lemma_parse_wire();
        }
        let bits: [bool; 8] = [
            false,
            false,
            false,
            false,
            self.relay3,
            self.relay2,
            self.relay1,
            self.relay0,
        ];
        assert(bits@ =~= self.bits());
        pack_bits(bits.as_slice())
    }

    /// Decodes the structure from exactly one byte.
    pub fn from_bytes(bytes: &[u8]) -> (result: Result<RelayOut, PiXtendError>)
        ensures
            result == decoded(RelayOut::parse(bytes@)),
    {
        if bytes.len() != 1 {
            return Err(
                PiXtendError::BinaryFrameReadWriteError(
                    FrameError::UnexpectedLength { expected: 1, found: bytes.len() },
                ),
            );
        }
        Ok(
            RelayOut {
                relay3: bit(bytes, 4),
                relay2: bit(bytes, 5),
                relay1: bit(bytes, 6),
                relay0: bit(bytes, 7),
            },
        )
    }

    /// Switches the relay with the given index, which has to be 0 to 3.
    pub fn set_relay_output(&mut self, index: u8, value: bool) -> (result: Result<
        (),
        PiXtendError,
    >)
        ensures
            index <= 3 ==> result is Ok && *final(self) == old(self).with_relay(
                index as int,
                value,
            ),
            index > 3 ==> result == Err::<(), PiXtendError>(
                PiXtendError::InvalidRelayOutputIndex(index),
            ) && *final(self) == *old(self),
    {
        match index {
            0 => self.relay0 = value,
            1 => self.relay1 = value,
            2 => self.relay2 = value,
            3 => self.relay3 = value,
            _ => { return Err(PiXtendError::InvalidRelayOutputIndex(index)); },
        }
        Ok(())
    }
}

impl Default for RelayOut {
    /// All relays are off.
    fn default() -> (value: RelayOut)
        ensures
            value == RelayOut::zero(),
    {
        RelayOut {
            relay3: false,
            relay2: false,
            relay1: false,
            relay0: false,
        }
    }
}

} // verus!
