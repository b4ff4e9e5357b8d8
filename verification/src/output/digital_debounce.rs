//! The debounce times of the digital inputs.

use crate::error::{decoded, FrameError, PiXtendError};
use vstd::prelude::*;

verus! {

/// Eight bytes: one debounce time for each pair of digital inputs, counted in
/// communication cycles. Group 0 is for inputs 0 and 1, group 7 for inputs 14
/// and 15.
#[derive(Debug, Clone, Copy, PartialEq, Eq)]
pub struct DigitalDebounce {
    pub debounce01: u8,
    pub debounce23: u8,
    pub debounce45: u8,
    pub debounce67: u8,
    pub debounce89: u8,
    pub debounce1011: u8,
    pub debounce1213: u8,
    pub debounce1415: u8,
}

impl DigitalDebounce {
    /// The structure with no debounce time set.
    pub open spec fn zero() -> DigitalDebounce {
        DigitalDebounce {
            debounce01: 0,
            debounce23: 0,
            debounce45: 0,
            debounce67: 0,
            debounce89: 0,
            debounce1011: 0,
            debounce1213: 0,
            debounce1415: 0,
        }
    }

    /// The bytes that the structure is sent as: the debounce time of group `i`
    /// is byte `i`.
    pub open spec fn wire(self) -> Seq<u8> {
        seq![
            self.debounce01,
            self.debounce23,
            self.debounce45,
            self.debounce67,
            self.debounce89,
            self.debounce1011,
            self.debounce1213,
            self.debounce1415,
        ]
    }

    /// The structure that a byte sequence is read as.
    pub open spec fn parse(bytes: Seq<u8>) -> Result<DigitalDebounce, FrameError> {
        if bytes.len() != 8 {
            Err(FrameError::UnexpectedLength { expected: 8, found: bytes.len() as usize })
        } else {
            Ok(
                DigitalDebounce {
                    debounce01: bytes[0],
                    debounce23: bytes[1],
                    debounce45: bytes[2],
                    debounce67: bytes[3],
                    debounce89: bytes[4],
                    debounce1011: bytes[5],
                    debounce1213: bytes[6],
                    debounce1415: bytes[7],
                },
            )
        }
    }

    /// Whether a byte sequence is one that a structure is sent as: any eight
    /// bytes are.
    pub open spec fn canonical(bytes: Seq<u8>) -> bool {
        bytes.len() == 8
    }

    /// The structure with the debounce time of the group with the given index, 0
    /// to 7, replaced.
    pub open spec fn with_debounce(self, index: int, value: u8) -> DigitalDebounce {
        if index == 0 {
            DigitalDebounce { debounce01: value, ..self }
        } else if index == 1 {
            DigitalDebounce { debounce23: value, ..self }
        } else if index == 2 {
            DigitalDebounce { debounce45: value, ..self }
        } else if index == 3 {
            DigitalDebounce { debounce67: value, ..self }
        } else if index == 4 {
            DigitalDebounce { debounce89: value, ..self }
        } else if index == 5 {
            DigitalDebounce { debounce1011: value, ..self }
        } else if index == 6 {
            DigitalDebounce { debounce1213: value, ..self }
        } else {
            DigitalDebounce { debounce1415: value, ..self }
        }
    }

    /// Replacing one debounce time replaces one byte.
    pub proof fn lemma_with_debounce(self, index: int, value: u8)
        requires
            0 <= index <= 7,
        ensures
            self.with_debounce(index, value).wire() == self.wire().update(index, value),
    {
        assert(self.with_debounce(index, value).wire() =~= self.wire().update(index, value));
    }

    /// Reading what was written gives the structure back.
    pub proof fn lemma_parse_wire(self)
        ensures
            self.wire().len() == 8,
            DigitalDebounce::canonical(self.wire()),
            DigitalDebounce::parse(self.wire()) == Ok::<DigitalDebounce, FrameError>(self),
    {
    }

    /// Writing what was read from a canonical byte sequence gives the bytes back.
    pub proof fn lemma_wire_parse(bytes: Seq<u8>)
        requires
            DigitalDebounce::canonical(bytes),
        ensures
            DigitalDebounce::parse(bytes) is Ok,
            DigitalDebounce::parse(bytes).unwrap().wire() == bytes,
    {
        assert(DigitalDebounce::parse(bytes).unwrap().wire() =~= bytes);
    }

    /// Encodes the structure.
    pub fn to_bytes(&self) -> (bytes: Vec<u8>)
        ensures
            bytes@ == self.wire(),
            bytes@.len() == 8,
    {
        let mut bytes: Vec<u8> = Vec::new();
        bytes.push(self.debounce01);
        bytes.push(self.debounce23);
        bytes.push(self.debounce45);
        bytes.push(self.debounce67);
        bytes.push(self.debounce89);
        bytes.push(self.debounce1011);
        bytes.push(self.debounce1213);
        bytes.push(self.debounce1415);
        assert(bytes@ =~= self.wire());
        bytes
    }

    /// Decodes the structure from exactly eight bytes.
    pub fn from_bytes(bytes: &[u8]) -> (result: Result<DigitalDebounce, PiXtendError>)
        ensures
            result == decoded(DigitalDebounce::parse(bytes@)),
    {
        if bytes.len() != 8 {
            return Err(
                PiXtendError::BinaryFrameReadWriteError(
                    FrameError::UnexpectedLength { expected: 8, found: bytes.len() },
                ),
            );
        }
        Ok(
            DigitalDebounce {
                debounce01: bytes[0],
                debounce23: bytes[1],
                debounce45: bytes[2],
                debounce67: bytes[3],
                debounce89: bytes[4],
                debounce1011: bytes[5],
                debounce1213: bytes[6],
                debounce1415: bytes[7],
            },
        )
    }

    /// Sets the debounce time of the group with the given index, which has to be
    /// 0 to 7.
    pub fn set_digital_debounce(&mut self, index: u8, value: u8) -> (result: Result<
        (),
        PiXtendError,
    >)
        ensures
            index <= 7 ==> result is Ok && *final(self) == old(self).with_debounce(
                index as int,
                value,
            ),
            index > 7 ==> result == Err::<(), PiXtendError>(
                PiXtendError::InvalidDigitalDebounceGroup(index),
            ) && *final(self) == *old(self),
    {
        match index {
            0 => self.debounce01 = value,
            1 => self.debounce23 = value,
            2 => self.debounce45 = value,
            3 => self.debounce67 = value,
            4 => self.debounce89 = value,
            5 => self.debounce1011 = value,
            6 => self.debounce1213 = value,
            7 => self.debounce1415 = value,
            _ => { return Err(PiXtendError::InvalidDigitalDebounceGroup(index)); },
        }
        Ok(())
    }
}

impl Default for DigitalDebounce {
    /// No debouncing.
    fn default() -> (value: DigitalDebounce)
        ensures
            value == DigitalDebounce::zero(),
    {
        let value = DigitalDebounce {
            debounce01: 0,
            debounce23: 0,
            debounce45: 0,
            debounce67: 0,
            debounce89: 0,
            debounce1011: 0,
            debounce1213: 0,
            debounce1415: 0,
        };
        value
    }
}

} // verus!
