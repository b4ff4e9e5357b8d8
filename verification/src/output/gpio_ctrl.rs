//! The direction and kind of the four GPIOs.

use crate::bits::{bit, bits_of, bytes_of, lemma_bits_of_bytes_of, lemma_bytes_of_bits_of, pack_bits};
use crate::error::{decoded, FrameError, PiXtendError};
use crate::gpio_config::GpioConfig;
use vstd::prelude::*;

verus! {

/// One byte: the sensor bits of GPIO 3 down to GPIO 0, then their output bits.
#[derive(Debug, Clone, Copy, PartialEq, Eq)]
pub struct GpioCtrl {
    pub sens3: bool,
    pub sens2: bool,
    pub sens1: bool,
    pub sens0: bool,
    pub io3: bool,
    pub io2: bool,
    pub io1: bool,
    pub io0: bool,
}

impl GpioCtrl {
    /// The structure with nothing set.
    pub open spec fn zero() -> GpioCtrl {
        GpioCtrl {
            sens3: false,
            sens2: false,
            sens1: false,
            sens0: false,
            io3: false,
            io2: false,
            io1: false,
            io0: false,
        }
    }

    /// The bits of the structure in transmission order.
    pub open spec fn bits(self) -> Seq<bool> {
        seq![
            self.sens3,
            self.sens2,
            self.sens1,
            self.sens0,
            self.io3,
            self.io2,
            self.io1,
            self.io0,
        ]
    }

    /// The bytes that the structure is sent as.
    pub open spec fn wire(self) -> Seq<u8> {
        bytes_of(self.bits())
    }

    /// The structure that a byte sequence is read as.
    pub open spec fn parse(bytes: Seq<u8>) -> Result<GpioCtrl, FrameError> {
        if bytes.len() != 1 {
            Err(FrameError::UnexpectedLength { expected: 1, found: bytes.len() as usize })
        } else {
            let bits = bits_of(bytes);
            Ok(
                GpioCtrl {
                    sens3: bits[0],
                    sens2: bits[1],
                    sens1: bits[2],
                    sens0: bits[3],
                    io3: bits[4],
                    io2: bits[5],
                    io1: bits[6],
                    io0: bits[7],
                },
            )
        }
    }

    /// Whether a byte sequence is one that a structure is sent as: any one
    /// byte is.
    pub open spec fn canonical(bytes: Seq<u8>) -> bool {
        let bits = bits_of(bytes);
        bytes.len() == 1
    }

    /// Whether the GPIO with the given index, 0 to 3, is an output: GPIO `index`
    /// travels at the bit that counts `2^index`.
    pub open spec fn io(self, index: int) -> bool {
        self.bits()[7 - index]
    }

    /// Whether the GPIO with the given index, 0 to 3, is a sensor input: GPIO
    /// `index` travels at the bit that counts `2^(4 + index)`.
    pub open spec fn sensor(self, index: int) -> bool {
        self.bits()[3 - index]
    }

    /// The structure with the configuration of the GPIO with the given index, 0
    /// to 3, written into it.
    pub open spec fn with_config(self, index: int, config: GpioConfig) -> GpioCtrl {
        let io = config == GpioConfig::Output;
        let sensor = config == GpioConfig::Sensor;
        if index == 0 {
            GpioCtrl { io0: io, sens0: sensor, ..self }
        } else if index == 1 {
            GpioCtrl { io1: io, sens1: sensor, ..self }
        } else if index == 2 {
            GpioCtrl { io2: io, sens2: sensor, ..self }
        } else {
            GpioCtrl { io3: io, sens3: sensor, ..self }
        }
    }

    /// Writing the configuration of one GPIO makes it an output, a sensor input
    /// or neither, as the configuration says, and leaves the others as they
    /// are.
    pub proof fn lemma_with_config(self, index: int, config: GpioConfig)
        requires
            0 <= index <= 3,
        ensures
            forall|i: int|
                0 <= i <= 3 ==> self.with_config(index, config).io(i) == (if i == index {
                    config == GpioConfig::Output
                } else {
                    self.io(i)
                }) && self.with_config(index, config).sensor(i) == (if i == index {
                    config == GpioConfig::Sensor
                } else {
                    self.sensor(i)
                }),
    {
    }

    /// Reading what was written gives the structure back.
    pub proof fn lemma_parse_wire(self)
        ensures
            self.wire().len() == 1,
            GpioCtrl::canonical(self.wire()),
            GpioCtrl::parse(self.wire()) == Ok::<GpioCtrl, FrameError>(self),
    {
        lemma_bits_of_bytes_of(self.bits());
    }

    /// Writing what was read from a canonical byte sequence gives the bytes back.
    pub proof fn lemma_wire_parse(bytes: Seq<u8>)
        requires
            GpioCtrl::canonical(bytes),
        ensures
            GpioCtrl::parse(bytes) is Ok,
            GpioCtrl::parse(bytes).unwrap().wire() == bytes,
    {
        lemma_bytes_of_bits_of(bytes);
        assert(GpioCtrl::parse(bytes).unwrap().bits() =~= bits_of(bytes));
    }

    /// Encodes the structure.
    pub fn to_bytes(&self) -> (bytes: Vec<u8>)
        ensures
            bytes@ == self.wire(),
            bytes@.len() == 1,
    {
        proof {
            self.lemma_parse_wire();
        }
        let bits: [bool; 8] = [
            self.sens3,
            self.sens2,
            self.sens1,
            self.sens0,
            self.io3,
            self.io2,
            self.io1,
            self.io0,
        ];
        assert(bits@ =~= self.bits());
        pack_bits(bits.as_slice())
    }

    /// Decodes the structure from exactly one byte.
    pub fn from_bytes(bytes: &[u8]) -> (result: Result<GpioCtrl, PiXtendError>)
        ensures
            result == decoded(GpioCtrl::parse(bytes@)),
    {
        if bytes.len() != 1 {
            return Err(
                PiXtendError::BinaryFrameReadWriteError(
                    FrameError::UnexpectedLength { expected: 1, found: bytes.len() },
                ),
            );
        }
        Ok(
            GpioCtrl {
                sens3: bit(bytes, 0),
                sens2: bit(bytes, 1),
                sens1: bit(bytes, 2),
                sens0: bit(bytes, 3),
                io3: bit(bytes, 4),
                io2: bit(bytes, 5),
                io1: bit(bytes, 6),
                io0: bit(bytes, 7),
            },
        )
    }

    /// Writes the configuration of the GPIO with the given index, which has to
    /// be 0 to 3: it is an output, a sensor input, or neither (a plain input).
    pub fn set_gpio_config(&mut self, index: u8, config: GpioConfig) -> (result: Result<
        (),
        PiXtendError,
    >)
        ensures
            index <= 3 ==> result is Ok && *final(self) == old(self).with_config(
                index as int,
                config,
            ),
            index > 3 ==> result == Err::<(), PiXtendError>(
                PiXtendError::InvalidGpioOutputIndex(index),
            ) && *final(self) == *old(self),
    {
        let io: bool = matches!(config, GpioConfig::Output);
        let sensor: bool = matches!(config, GpioConfig::Sensor);
        match index {
            0 => {
                self.io0 = io;
                self.sens0 = sensor;
            },
            1 => {
                self.io1 = io;
                self.sens1 = sensor;
            },
            2 => {
                self.io2 = io;
                self.sens2 = sensor;
            },
            3 => {
                self.io3 = io;
                self.sens3 = sensor;
            },
            _ => { return Err(PiXtendError::InvalidGpioOutputIndex(index)); },
        }
        Ok(())
    }
}

impl Default for GpioCtrl {
    /// All GPIOs are plain inputs.
    fn default() -> (value: GpioCtrl)
        ensures
            value == GpioCtrl::zero(),
    {
        GpioCtrl {
            sens3: false,
            sens2: false,
            sens1: false,
            sens0: false,
            io3: false,
            io2: false,
            io1: false,
            io0: false,
        }
    }
}

} // verus!
