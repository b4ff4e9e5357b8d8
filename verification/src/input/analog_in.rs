//! The six analog inputs: four that measure a voltage, two that measure a
//! current.

use crate::bits::{le16, le16_at, le16_value, lemma_le16_bytes, push_le16};
use crate::error::{decoded, FrameError, PiXtendError};
use crate::ratio::Ratio;
use vstd::prelude::*;

verus! {

/// The range of the analog voltage inputs, which a jumper on the board selects.
#[derive(Debug, Clone, Copy, PartialEq, Eq)]
pub enum ReferenceVoltage {
    /// 0 V to 5 V
    V5,
    /// 0 V to 10 V
    V10,
}

impl ReferenceVoltage {
    /// The upper end of the range in volts.
    pub open spec fn volts(self) -> int {
        match self {
            ReferenceVoltage::V5 => 5,
            ReferenceVoltage::V10 => 10,
        }
    }
}

/// The voltage in volts that a raw reading stands for: the converter has 1024
/// steps over the selected range.
pub open spec fn voltage(raw: u16, reference: ReferenceVoltage) -> Ratio {
    Ratio { numerator: (raw * reference.volts()) as i64, denominator: 1024 }
}

/// The current in amperes that a raw reading stands for: each step of the
/// converter is 0.020158400229358 A.
pub open spec fn current(raw: u16) -> Ratio {
    Ratio { numerator: (raw * 20_158_400_229_358) as i64, denominator: 1_000_000_000_000_000 }
}

/// Twelve bytes: the raw readings of inputs 0 to 5, each a 16 bit number with
/// its low byte first.
#[derive(Debug, Clone, Copy, PartialEq, Eq)]
pub struct AnalogIn {
    pub in0: u16,
    pub in1: u16,
    pub in2: u16,
    pub in3: u16,
    pub in4: u16,
    pub in5: u16,
}

impl AnalogIn {
    /// The bytes that the structure is sent as.
    pub open spec fn wire(self) -> Seq<u8> {
        le16(self.in0) + le16(self.in1) + le16(self.in2) + le16(self.in3) + le16(self.in4) + le16(
            self.in5,
        )
    }

    /// The structure that a byte sequence is read as.
    pub open spec fn parse(bytes: Seq<u8>) -> Result<AnalogIn, FrameError> {
        if bytes.len() != 12 {
            Err(FrameError::UnexpectedLength { expected: 12, found: bytes.len() as usize })
        } else {
            Ok(
                AnalogIn {
                    in0: le16_value(bytes[0], bytes[1]),
                    in1: le16_value(bytes[2], bytes[3]),
                    in2: le16_value(bytes[4], bytes[5]),
                    in3: le16_value(bytes[6], bytes[7]),
                    in4: le16_value(bytes[8], bytes[9]),
                    in5: le16_value(bytes[10], bytes[11]),
                },
            )
        }
    }

    /// Whether a byte sequence is one that a structure is sent as: any twelve
    /// bytes are.
    pub open spec fn canonical(bytes: Seq<u8>) -> bool {
        bytes.len() == 12
    }

    /// The raw reading of the input with the given index, 0 to 5.
    pub open spec fn raw(self, index: int) -> u16 {
        seq![self.in0, self.in1, self.in2, self.in3, self.in4, self.in5][index]
    }

    /// Reading what was written gives the structure back.
    pub proof fn lemma_parse_wire(self)
        ensures
            self.wire().len() == 12,
            AnalogIn::canonical(self.wire()),
            AnalogIn::parse(self.wire()) == Ok::<AnalogIn, FrameError>(self),
    {
    }

    /// Writing what was read from a canonical byte sequence gives the bytes back.
    pub proof fn lemma_wire_parse(bytes: Seq<u8>)
        requires
            AnalogIn::canonical(bytes),
        ensures
            AnalogIn::parse(bytes) is Ok,
            AnalogIn::parse(bytes).unwrap().wire() == bytes,
    {
        lemma_le16_bytes(bytes[0], bytes[1]);
        lemma_le16_bytes(bytes[2], bytes[3]);
        lemma_le16_bytes(bytes[4], bytes[5]);
        lemma_le16_bytes(bytes[6], bytes[7]);
        lemma_le16_bytes(bytes[8], bytes[9]);
        lemma_le16_bytes(bytes[10], bytes[11]);
        assert(AnalogIn::parse(bytes).unwrap().wire() =~= bytes);
    }

    /// Encodes the structure.
    pub fn to_bytes(&self) -> (bytes: Vec<u8>)
        ensures
            bytes@ == self.wire(),
            bytes@.len() == 12,
    {
        let mut bytes: Vec<u8> = Vec::new();
        push_le16(&mut bytes, self.in0);
        push_le16(&mut bytes, self.in1);
        push_le16(&mut bytes, self.in2);
        push_le16(&mut bytes, self.in3);
        push_le16(&mut bytes, self.in4);
        push_le16(&mut bytes, self.in5);
        assert(bytes@ =~= self.wire());
        bytes
    }

    /// Decodes the structure from exactly twelve bytes.
    pub fn from_bytes(bytes: &[u8]) -> (result: Result<AnalogIn, PiXtendError>)
        ensures
            result == decoded(AnalogIn::parse(bytes@)),
    {
        if bytes.len() != 12 {
            return Err(
                PiXtendError::BinaryFrameReadWriteError(
                    FrameError::UnexpectedLength { expected: 12, found: bytes.len() },
                ),
            );
        }
        Ok(
            AnalogIn {
                in0: le16_at(bytes, 0),
                in1: le16_at(bytes, 2),
                in2: le16_at(bytes, 4),
                in3: le16_at(bytes, 6),
                in4: le16_at(bytes, 8),
                in5: le16_at(bytes, 10),
            },
        )
    }

    /// Reads the voltage in volts at the voltage input with the given index,
    /// which has to be 0 to 3.
    pub fn get_analog_voltage_input(&self, index: u8, reference_voltage: ReferenceVoltage) -> (result:
        Result<Ratio, PiXtendError>)
        ensures
            index <= 3 ==> result == Ok::<Ratio, PiXtendError>(
                voltage(self.raw(index as int), reference_voltage),
            ),
            index > 3 ==> result == Err::<Ratio, PiXtendError>(
                PiXtendError::InvalidAnalogVoltageInputIndex(index),
            ),
    {
        let raw: u16 = match index {
            0 => self.in0,
            1 => self.in1,
            2 => self.in2,
            3 => self.in3,
            _ => { return Err(PiXtendError::InvalidAnalogVoltageInputIndex(index)); },
        };
        let volts: i64 = match reference_voltage {
            ReferenceVoltage::V5 => 5,
            ReferenceVoltage::V10 => 10,
        };
        Ok(Ratio { numerator: raw as i64 * volts, denominator: 1024 })
    }

    /// Reads the current in amperes at the current input with the given index,
    /// which has to be 4 or 5.
    pub fn get_analog_current_input(&self, index: u8) -> (result: Result<Ratio, PiXtendError>)
        ensures
            index == 4 || index == 5 ==> result == Ok::<Ratio, PiXtendError>(
                current(self.raw(index as int)),
            ),
            index != 4 && index != 5 ==> result == Err::<Ratio, PiXtendError>(
                PiXtendError::InvalidAnalogCurrentInputIndex(index),
            ),
    {
        let raw: u16 = match index {
            4 => self.in4,
            5 => self.in5,
            _ => { return Err(PiXtendError::InvalidAnalogCurrentInputIndex(index)); },
        };
        Ok(
            Ratio {
                numerator: raw as i64 * 20_158_400_229_358,
                denominator: 1_000_000_000_000_000,
            },
        )
    }
}

} // verus!
