//! The readings of the one-wire temperature and humidity sensors that can be
//! connected to the four GPIOs.

use crate::bits::{le16, le16_at, le16_value, lemma_le16_bytes, push_le16};
use crate::error::{decoded, FrameError, PiXtendError};
use crate::ratio::Ratio;
use vstd::prelude::*;

verus! {

/// The kind of sensor on a GPIO. The board hands on what the sensor sent; the
/// two kinds encode their readings differently.
#[derive(Debug, Clone, Copy, PartialEq, Eq)]
pub enum SensorKind {
    DHT11,
    DHT22,
}

/// The temperature in degrees Celsius that a raw reading stands for.
///
/// The low fifteen bits hold the magnitude, in 256ths of a degree for a DHT11
/// and in tenths for a DHT22. The sixteenth bit is the sign of a DHT22; a DHT11
/// has no negative readings and the bit is ignored.
pub open spec fn temperature(raw: u16, sensor: SensorKind) -> Ratio {
    let magnitude = raw % 0x8000;
    match sensor {
        SensorKind::DHT11 => Ratio { numerator: magnitude as i64, denominator: 256 },
        SensorKind::DHT22 => Ratio {
            numerator: if raw >= 0x8000 {
                (-magnitude) as i64
            } else {
                magnitude as i64
            },
            denominator: 10,
        },
    }
}

/// The relative humidity, from 0 to 1, that a raw reading stands for: a DHT11
/// counts 256ths of a percent, a DHT22 tenths of a percent.
pub open spec fn humidity(raw: u16, sensor: SensorKind) -> Ratio {
    match sensor {
        SensorKind::DHT11 => Ratio { numerator: raw as i64, denominator: 25600 },
        SensorKind::DHT22 => Ratio { numerator: raw as i64, denominator: 1000 },
    }
}

/// Four bytes: the raw temperature and the raw humidity of one sensor, each a
/// 16 bit number with its low byte first.
#[derive(Debug, Clone, Copy, PartialEq, Eq)]
pub struct Sensor {
    pub temperature: u16,
    pub humidity: u16,
}

impl Sensor {
    /// The bytes that the structure is sent as.
    pub open spec fn wire(self) -> Seq<u8> {
        le16(self.temperature) + le16(self.humidity)
    }

    /// The structure that a byte sequence is read as.
    pub open spec fn parse(bytes: Seq<u8>) -> Result<Sensor, FrameError> {
        if bytes.len() != 4 {
            Err(FrameError::UnexpectedLength { expected: 4, found: bytes.len() as usize })
        } else {
            Ok(
                Sensor {
                    temperature: le16_value(bytes[0], bytes[1]),
                    humidity: le16_value(bytes[2], bytes[3]),
                },
            )
        }
    }

    /// Whether a byte sequence is one that a structure is sent as: any four
    /// bytes are.
    pub open spec fn canonical(bytes: Seq<u8>) -> bool {
        bytes.len() == 4
    }

    /// Reading what was written gives the structure back.
    pub proof fn lemma_parse_wire(self)
        ensures
            self.wire().len() == 4,
            Sensor::canonical(self.wire()),
            Sensor::parse(self.wire()) == Ok::<Sensor, FrameError>(self),
    {
    }

    /// Writing what was read from a canonical byte sequence gives the bytes back.
    pub proof fn lemma_wire_parse(bytes: Seq<u8>)
        requires
            Sensor::canonical(bytes),
        ensures
            Sensor::parse(bytes) is Ok,
            Sensor::parse(bytes).unwrap().wire() == bytes,
    {
        lemma_le16_bytes(bytes[0], bytes[1]);
        lemma_le16_bytes(bytes[2], bytes[3]);
        assert(Sensor::parse(bytes).unwrap().wire() =~= bytes);
    }

    /// Encodes the structure.
    pub fn to_bytes(&self) -> (bytes: Vec<u8>)
        ensures
            bytes@ == self.wire(),
            bytes@.len() == 4,
    {
        let mut bytes: Vec<u8> = Vec::new();
        push_le16(&mut bytes, self.temperature);
        push_le16(&mut bytes, self.humidity);
        assert(bytes@ =~= self.wire());
        bytes
    }

    /// Decodes the structure from exactly four bytes.
    pub fn from_bytes(bytes: &[u8]) -> (result: Result<Sensor, PiXtendError>)
        ensures
            result == decoded(Sensor::parse(bytes@)),
    {
        if bytes.len() != 4 {
            return Err(
                PiXtendError::BinaryFrameReadWriteError(
                    FrameError::UnexpectedLength { expected: 4, found: bytes.len() },
                ),
            );
        }
        Ok(Sensor { temperature: le16_at(bytes, 0), humidity: le16_at(bytes, 2) })
    }
}

/// Sixteen bytes: the sensors of GPIO 0 to 3.
#[derive(Debug, Clone, Copy, PartialEq, Eq)]
pub struct SensorIn {
    pub sens0: Sensor,
    pub sens1: Sensor,
    pub sens2: Sensor,
    pub sens3: Sensor,
}

impl SensorIn {
    /// The bytes that the structure is sent as.
    pub open spec fn wire(self) -> Seq<u8> {
        self.sens0.wire() + self.sens1.wire() + self.sens2.wire() + self.sens3.wire()
    }

    /// The structure that a byte sequence is read as.
    pub open spec fn parse(bytes: Seq<u8>) -> Result<SensorIn, FrameError> {
        if bytes.len() != 16 {
            Err(FrameError::UnexpectedLength { expected: 16, found: bytes.len() as usize })
        } else {
            Ok(
                SensorIn {
                    sens0: Sensor::parse(bytes.subrange(0, 4)).unwrap(),
                    sens1: Sensor::parse(bytes.subrange(4, 8)).unwrap(),
                    sens2: Sensor::parse(bytes.subrange(8, 12)).unwrap(),
                    sens3: Sensor::parse(bytes.subrange(12, 16)).unwrap(),
                },
            )
        }
    }

    /// Whether a byte sequence is one that a structure is sent as: any sixteen
    /// bytes are.
    pub open spec fn canonical(bytes: Seq<u8>) -> bool {
        bytes.len() == 16
    }

    /// The sensor of the GPIO with the given index, 0 to 3.
    pub open spec fn sensor(self, index: int) -> Sensor {
        seq![self.sens0, self.sens1, self.sens2, self.sens3][index]
    }

    /// Reading what was written gives the structure back.
    pub proof fn lemma_parse_wire(self)
        ensures
            self.wire().len() == 16,
            SensorIn::canonical(self.wire()),
            SensorIn::parse(self.wire()) == Ok::<SensorIn, FrameError>(self),
    {
        let wire = self.wire();
        self.sens0.lemma_parse_wire();
        self.sens1.lemma_parse_wire();
        self.sens2.lemma_parse_wire();
        self.sens3.lemma_parse_wire();
        assert(wire.subrange(0, 4) =~= self.sens0.wire());
        assert(wire.subrange(4, 8) =~= self.sens1.wire());
        assert(wire.subrange(8, 12) =~= self.sens2.wire());
        assert(wire.subrange(12, 16) =~= self.sens3.wire());
    }

    /// Writing what was read from a canonical byte sequence gives the bytes back.
    pub proof fn lemma_wire_parse(bytes: Seq<u8>)
        requires
            SensorIn::canonical(bytes),
        ensures
            SensorIn::parse(bytes) is Ok,
            SensorIn::parse(bytes).unwrap().wire() == bytes,
    {
        Sensor::lemma_wire_parse(bytes.subrange(0, 4));
        Sensor::lemma_wire_parse(bytes.subrange(4, 8));
        Sensor::lemma_wire_parse(bytes.subrange(8, 12));
        Sensor::lemma_wire_parse(bytes.subrange(12, 16));
        assert(SensorIn::parse(bytes).unwrap().wire() =~= bytes);
    }

    /// Encodes the structure.
    pub fn to_bytes(&self) -> (bytes: Vec<u8>)
        ensures
            bytes@ == self.wire(),
            bytes@.len() == 16,
    {
        let mut bytes: Vec<u8> = self.sens0.to_bytes();
        let mut next: Vec<u8> = self.sens1.to_bytes();
        bytes.append(&mut next);
        let mut next: Vec<u8> = self.sens2.to_bytes();
        bytes.append(&mut next);
        let mut next: Vec<u8> = self.sens3.to_bytes();
        bytes.append(&mut next);
        bytes
    }

    /// Decodes the structure from exactly sixteen bytes.
    pub fn from_bytes(bytes: &[u8]) -> (result: Result<SensorIn, PiXtendError>)
        ensures
            result == decoded(SensorIn::parse(bytes@)),
    {
        if bytes.len() != 16 {
            return Err(
                PiXtendError::BinaryFrameReadWriteError(
                    FrameError::UnexpectedLength { expected: 16, found: bytes.len() },
                ),
            );
        }
        Ok(
            SensorIn {
                sens0: Sensor { temperature: le16_at(bytes, 0), humidity: le16_at(bytes, 2) },
                sens1: Sensor { temperature: le16_at(bytes, 4), humidity: le16_at(bytes, 6) },
                sens2: Sensor { temperature: le16_at(bytes, 8), humidity: le16_at(bytes, 10) },
                sens3: Sensor { temperature: le16_at(bytes, 12), humidity: le16_at(bytes, 14) },
            },
        )
    }

    /// Reads the temperature in degrees Celsius from the sensor on the GPIO with
    /// the given index, which has to be 0 to 3.
    pub fn get_temperature_input(&self, index: u8, sensor: SensorKind) -> (result: Result<
        Ratio,
        PiXtendError,
    >)
        ensures
            index <= 3 ==> result == Ok::<Ratio, PiXtendError>(
                temperature(self.sensor(index as int).temperature, sensor),
            ),
            index > 3 ==> result == Err::<Ratio, PiXtendError>(
                PiXtendError::InvalidGpioInputIndex(index),
            ),
    {
        let raw: u16 = match index {
            0 => self.sens0.temperature,
            1 => self.sens1.temperature,
            2 => self.sens2.temperature,
            3 => self.sens3.temperature,
            _ => { return Err(PiXtendError::InvalidGpioInputIndex(index)); },
        };
        let magnitude: i64 = (raw % 0x8000) as i64;
        match sensor {
            SensorKind::DHT11 => Ok(Ratio { numerator: magnitude, denominator: 256 }),
            SensorKind::DHT22 => {
                let negative: bool = raw >= 0x8000;
                Ok(
                    Ratio {
                        numerator: if negative {
                            -magnitude
                        } else {
                            magnitude
                        },
                        denominator: 10,
                    },
                )
            },
        }
    }

    /// Reads the relative humidity, from 0 to 1, from the sensor on the GPIO with
    /// the given index, which has to be 0 to 3.
    pub fn get_humidity_input(&self, index: u8, sensor: SensorKind) -> (result: Result<
        Ratio,
        PiXtendError,
    >)
        ensures
            index <= 3 ==> result == Ok::<Ratio, PiXtendError>(
                humidity(self.sensor(index as int).humidity, sensor),
            ),
            index > 3 ==> result == Err::<Ratio, PiXtendError>(
                PiXtendError::InvalidGpioInputIndex(index),
            ),
    {
        let raw: u16 = match index {
            0 => self.sens0.humidity,
            1 => self.sens1.humidity,
            2 => self.sens2.humidity,
            3 => self.sens3.humidity,
            _ => { return Err(PiXtendError::InvalidGpioInputIndex(index)); },
        };
        match sensor {
            SensorKind::DHT11 => Ok(Ratio { numerator: raw as i64, denominator: 25600 }),
            SensorKind::DHT22 => Ok(Ratio { numerator: raw as i64, denominator: 1000 }),
        }
    }
}

} // verus!
