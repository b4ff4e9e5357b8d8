//! The output bits of the four GPIOs.

use crate::bits::{bit, bits_of, bytes_of, lemma_bits_of_bytes_of, lemma_bytes_of_bits_of, pack_bits};
use crate::error::{decoded, FrameError, PiXtendError};
use crate::gpio_config::GpioConfig;
use vstd::prelude::*;

verus! {

/// One byte: four unused bits, then GPIO 3 down to GPIO 0.
#[derive(Debug, Clone, Copy, PartialEq, Eq)]
pub struct GpioOut {
    pub gpio3: bool,
    pub gpio2: bool,
    pub gpio1: bool,
    pub gpio0: bool,
}

impl GpioOut {
    /// The structure with nothing set.
    pub open spec fn zero() -> GpioOut {
        GpioOut {
            gpio3: false,
            gpio2: false,
            gpio1: false,
            gpio0: false,
        }
    }

    /// The bits of the structure in transmission order.
    pub open spec fn bits(self) -> Seq<bool> {
        seq![
            false,
            false,
            false,
            false,
            self.gpio3,
            self.gpio2,
            self.gpio1,
            self.gpio0,
        ]
    }

    /// The bytes that the structure is sent as.
    pub open spec fn wire(self) -> Seq<u8> {
        bytes_of(self.bits())
    }

    /// The structure that a byte sequence is read as. The unused bits are not
    /// looked at.
    pub open spec fn parse(bytes: Seq<u8>) -> Result<GpioOut, FrameError> {
        if bytes.len() != 1 {
            Err(FrameError::UnexpectedLength { expected: 1, found: bytes.len() as usize })
        } else {
            let bits = bits_of(bytes);
            Ok(
                GpioOut {
                    gpio3: bits[4],
                    gpio2: bits[5],
                    gpio1: bits[6],
                    gpio0: bits[7],
                },
            )
        }
    }

    /// Whether a byte sequence is one that a structure is sent as: it has
    /// the right length and its unused bits are cleared.
    pub open spec fn canonical(bytes: Seq<u8>) -> bool {
        let bits = bits_of(bytes);
        bytes.len() == 1 && !bits[0] && !bits[1] && !bits[2] && !bits[3]
    }

    /// The output bit of the GPIO with the given index, 0 to 3: GPIO `index`
    /// travels at the bit that counts `2^index`.
    pub open spec fn output(self, index: int) -> bool {
        self.bits()[7 - index]
    }

    /// The structure with the output bit of the GPIO with the given index, 0 to
    /// 3, replaced.
    pub open spec fn with_output(self, index: int, value: bool) -> GpioOut {
        if index == 0 {
            GpioOut { gpio0: value, ..self }
        } else if index == 1 {
            GpioOut { gpio1: value, ..self }
        } else if index == 2 {
            GpioOut { gpio2: value, ..self }
        } else {
            GpioOut { gpio3: value, ..self }
        }
    }

    /// The structure prepared for a new configuration of the GPIO with the
    /// given index, 0 to 3: the output bit is set where the configuration asks
    /// for a pull-up.
    pub open spec fn with_config(self, index: int, config: GpioConfig) -> GpioOut {
        if config == GpioConfig::Input(true) {
            self.with_output(index, true)
        } else {
            self
        }
    }

    /// Replacing one output bit leaves the others as they are.
    pub proof fn lemma_with_output(self, index: int, value: bool)
        requires
            0 <= index <= 3,
        ensures
            forall|i: int|
                0 <= i <= 3 ==> self.with_output(index, value).output(i) == if i == index {
                    value
                } else {
                    self.output(i)
                },
    {
    }

    /// Reading what was written gives the structure back.
    pub proof fn lemma_parse_wire(self)
        ensures
            self.wire().len() == 1,
            GpioOut::canonical(self.wire()),
            GpioOut::parse(self.wire()) == Ok::<GpioOut, FrameError>(self),
    {
        lemma_bits_of_bytes_of(self.bits());
    }

    /// Writing what was read from a canonical byte sequence gives the bytes back.
    pub proof fn lemma_wire_parse(bytes: Seq<u8>)
        requires
            GpioOut::canonical(bytes),
        ensures
            GpioOut::parse(bytes) is Ok,
            GpioOut::parse(bytes).unwrap().wire() == bytes,
    {
        lemma_bytes_of_bits_of(bytes);
        assert(GpioOut::parse(bytes).unwrap().bits() =~= bits_of(bytes));
    }

    /// Encodes the structure.
    pub fn to_bytes(&self) -> (bytes: Vec<u8>)
        ensures
            bytes@ == self.wire(),
            bytes@.len() == 1,
    {
        proof {
            self.lemma_parse_wire();
        }
        let bits: [bool; 8] = [
            false,
            false,
            false,
            false,
            self.gpio3,
            self.gpio2,
            self.gpio1,
            self.gpio0,
        ];
        assert(bits@ =~= self.bits());
        pack_bits(bits.as_slice())
    }

    /// Decodes the structure from exactly one byte.
    pub fn from_bytes(bytes: &[u8]) -> (result: Result<GpioOut, PiXtendError>)
        ensures
            result == decoded(GpioOut::parse(bytes@)),
    {
        if bytes.len() != 1 {
            return Err(
                PiXtendError::BinaryFrameReadWriteError(
                    FrameError::UnexpectedLength { expected: 1, found: bytes.len() },
                ),
            );
        }
        Ok(
            GpioOut {
                gpio3: bit(bytes, 4),
                gpio2: bit(bytes, 5),
                gpio1: bit(bytes, 6),
                gpio0: bit(bytes, 7),
            },
        )
    }

    /// Prepares the output bit of the GPIO with the given index, which has to be
    /// 0 to 3, for a new configuration. For an input, the output bit is what
    /// switches the pull-up on: it is set where the configuration asks for a
    /// pull-up, and left as it is for every other configuration.
    pub fn set_gpio_config(&mut self, index: u8, config: GpioConfig) -> (result: Result<
        (),
        PiXtendError,
    >)
        ensures
            index <= 3 ==> result is Ok && *final(self) == old(self).with_config(
                index as int,
                config,
            ),
            index > 3 ==> result == Err::<(), PiXtendError>(
                PiXtendError::InvalidGpioOutputIndex(index),
            ) && *final(self) == *old(self),
    {
        if index > 3 {
            return Err(PiXtendError::InvalidGpioOutputIndex(index));
        }
        match config {
            GpioConfig::Input(true) => self.set_gpio_output(index, true),
            _ => Ok(()),
        }
    }

    /// Sets the output bit of the GPIO with the given index, which has to be 0
    /// to 3.
    pub fn set_gpio_output(&mut self, index: u8, value: bool) -> (result: Result<
        (),
        PiXtendError,
    >)
        ensures
            index <= 3 ==> result is Ok && *final(self) == old(self).with_output(
                index as int,
                value,
            ),
            index > 3 ==> result == Err::<(), PiXtendError>(
                PiXtendError::InvalidGpioOutputIndex(index),
            ) && *final(self) == *old(self),
    {
        match index {
            0 => self.gpio0 = value,
            1 => self.gpio1 = value,
            2 => self.gpio2 = value,
            3 => self.gpio3 = value,
            _ => { return Err(PiXtendError::InvalidGpioOutputIndex(index)); },
        }
        Ok(())
    }
}

impl Default for GpioOut {
    /// All output bits are cleared.
    fn default() -> (value: GpioOut)
        ensures
            value == GpioOut::zero(),
    {
        GpioOut {
            gpio3: false,
            gpio2: false,
            gpio1: false,
            gpio0: false,
        }
    }
}

} // verus!
