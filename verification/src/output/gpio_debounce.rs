//! The debounce times of the GPIO inputs.

use crate::error::{decoded, FrameError, PiXtendError};
use vstd::prelude::*;

verus! {

/// Two bytes: one debounce time for each pair of GPIOs, counted in
/// communication cycles. Group 0 is for GPIO 0 and 1, group 1 for GPIO 2 and 3.
#[derive(Debug, Clone, Copy, PartialEq, Eq)]
pub struct GpioDebounce {
    pub debounce01: u8,
    pub debounce23: u8,
}

impl GpioDebounce {
    /// The structure with no debounce time set.
    pub open spec fn zero() -> GpioDebounce {
        GpioDebounce { debounce01: 0, debounce23: 0 }
    }

    /// The bytes that the structure is sent as: the debounce time of group `i`
    /// is byte `i`.
    pub open spec fn wire(self) -> Seq<u8> {
        seq![self.debounce01, self.debounce23]
    }

    /// The structure that a byte sequence is read as.
    pub open spec fn parse(bytes: Seq<u8>) -> Result<GpioDebounce, FrameError> {
        if bytes.len() != 2 {
            Err(FrameError::UnexpectedLength { expected: 2, found: bytes.len() as usize })
        } else {
            Ok(GpioDebounce { debounce01: bytes[0], debounce23: bytes[1] })
        }
    }

    /// Whether a byte sequence is one that a structure is sent as: any two bytes
    /// are.
    pub open spec fn canonical(bytes: Seq<u8>) -> bool {
        bytes.len() == 2
    }

    /// The structure with the debounce time of the group with the given index, 0
    /// or 1, replaced.
    pub open spec fn with_debounce(self, index: int, value: u8) -> GpioDebounce {
        if index == 0 {
            GpioDebounce { debounce01: value, ..self }
        } else {
            GpioDebounce { debounce23: value, ..self }
        }
    }

    /// Replacing one debounce time replaces one byte.
    pub proof fn lemma_with_debounce(self, index: int, value: u8)
        requires
            0 <= index <= 1,
        ensures
            self.with_debounce(index, value).wire() == self.wire().update(index, value),
    {
        assert(self.with_debounce(index, value).wire() =~= self.wire().update(index, value));
    }

    /// Reading what was written gives the structure back.
    pub proof fn lemma_parse_wire(self)
        ensures
            self.wire().len() == 2,
            GpioDebounce::canonical(self.wire()),
            GpioDebounce::parse(self.wire()) == Ok::<GpioDebounce, FrameError>(self),
    {
    }

    /// Writing what was read from a canonical byte sequence gives the bytes back.
    pub proof fn lemma_wire_parse(bytes: Seq<u8>)
        requires
            GpioDebounce::canonical(bytes),
        ensures
            GpioDebounce::parse(bytes) is Ok,
            GpioDebounce::parse(bytes).unwrap().wire() == bytes,
    {
        assert(GpioDebounce::parse(bytes).unwrap().wire() =~= bytes);
    }

    /// Encodes the structure.
    pub fn to_bytes(&self) -> (bytes: Vec<u8>)
        ensures
            bytes@ == self.wire(),
            bytes@.len() == 2,
    {
        let mut bytes: Vec<u8> = Vec::new();
        bytes.push(self.debounce01);
        bytes.push(self.debounce23);
        assert(bytes@ =~= self.wire());
        bytes
    }

    /// Decodes the structure from exactly two bytes.
    pub fn from_bytes(bytes: &[u8]) -> (result: Result<GpioDebounce, PiXtendError>)
        ensures
            result == decoded(GpioDebounce::parse(bytes@)),
    {
        if bytes.len() != 2 {
            return Err(
                PiXtendError::BinaryFrameReadWriteError(
                    FrameError::UnexpectedLength { expected: 2, found: bytes.len() },
                ),
            );
        }
        Ok(GpioDebounce { debounce01: bytes[0], debounce23: bytes[1] })
    }

    /// Sets the debounce time of the group with the given index, which has to be
    /// 0 or 1.
    pub fn set_gpio_debounce(&mut self, index: u8, value: u8) -> (result: Result<
        (),
        PiXtendError,
    >)
        ensures
            index <= 1 ==> result is Ok && *final(self) == old(self).with_debounce(
                index as int,
                value,
            ),
            index > 1 ==> result == Err::<(), PiXtendError>(
                PiXtendError::InvalidGpioDebounceGroup(index),
            ) && *final(self) == *old(self),
    {
        match index {
            0 => self.debounce01 = value,
            1 => self.debounce23 = value,
            _ => { return Err(PiXtendError::InvalidGpioDebounceGroup(index)); },
        }
        Ok(())
    }
}

impl Default for GpioDebounce {
    /// No debouncing.
    fn default() -> (value: GpioDebounce)
        ensures
            value == GpioDebounce::zero(),
    {
        GpioDebounce { debounce01: 0, debounce23: 0 }
    }
}

} // verus!
