//! The frame that the board answers with, and its parts.

pub mod analog_in;
pub mod digital_in;
pub mod gpio_in;
pub mod sensor_in;
pub mod state;
pub mod warnings;

pub use analog_in::{AnalogIn, ReferenceVoltage};
pub use digital_in::DigitalIn;
pub use gpio_in::GpioIn;
pub use sensor_in::{Sensor, SensorIn, SensorKind};
pub use state::{ErrorCode, State};
pub use warnings::Warnings;

use crate::bits::{le16, le16_at, le16_value, lemma_le16_bytes, push_le16};
use crate::block::{block, block_at, lemma_block, push_block};
use crate::error::{decoded, FrameError, PiXtendError};
use crate::utils::{calc_crc16, crc16};
use vstd::prelude::*;
use vstd::slice::slice_subrange;

verus! {

/// The header of the input frame, seven bytes: firmware version, hardware
/// version, model, state, warnings, and two unused bytes.
#[derive(Debug, Clone, Copy, PartialEq, Eq)]
pub struct Header {
    pub firmware: u8,
    pub hardware: u8,
    pub model: u8,
    pub state: State,
    pub warnings: Warnings,
}

impl Header {
    /// The bytes that the header is sent as.
    #[verifier::opaque]
    pub open spec fn wire(self) -> Seq<u8> {
        seq![self.firmware, self.hardware, self.model] + self.state.wire() + self.warnings.wire()
            + seq![0u8, 0u8]
    }

    /// The header that a byte sequence is read as. The unused bytes are not
    /// looked at.
    #[verifier::opaque]
    pub open spec fn parse(bytes: Seq<u8>) -> Result<Header, FrameError> {
        if bytes.len() != 7 {
            Err(FrameError::UnexpectedLength { expected: 7, found: bytes.len() as usize })
        } else {
            match State::parse(bytes.subrange(3, 4)) {
                Err(error) => Err(error),
                Ok(state) => Ok(
                    Header {
                        firmware: bytes[0],
                        hardware: bytes[1],
                        model: bytes[2],
                        state,
                        warnings: Warnings::parse(bytes.subrange(4, 5)).unwrap(),
                    },
                ),
            }
        }
    }

    /// Whether a byte sequence is one that a header is sent as.
    #[verifier::opaque]
    pub open spec fn canonical(bytes: Seq<u8>) -> bool {
        &&& bytes.len() == 7
        &&& State::canonical(bytes.subrange(3, 4))
        &&& Warnings::canonical(bytes.subrange(4, 5))
        &&& bytes[5] == 0
        &&& bytes[6] == 0
    }

    /// Reading what was written gives the header back.
    pub proof fn lemma_parse_wire(self)
        ensures
            self.wire().len() == 7,
            Header::canonical(self.wire()),
            Header::parse(self.wire()) == Ok::<Header, FrameError>(self),
    {
        reveal(Header::wire);
        reveal(Header::parse);
        reveal(Header::canonical);
        let wire = self.wire();
        self.state.lemma_parse_wire();
        self.warnings.lemma_parse_wire();
        assert(wire.subrange(3, 4) =~= self.state.wire());
        assert(wire.subrange(4, 5) =~= self.warnings.wire());
    }

    /// Writing what was read from a canonical byte sequence gives the bytes back.
    pub proof fn lemma_wire_parse(bytes: Seq<u8>)
        requires
            Header::canonical(bytes),
        ensures
            Header::parse(bytes) is Ok,
            Header::parse(bytes).unwrap().wire() == bytes,
    {
        reveal(Header::wire);
        reveal(Header::parse);
        reveal(Header::canonical);
        State::lemma_wire_parse(bytes.subrange(3, 4));
        Warnings::lemma_wire_parse(bytes.subrange(4, 5));
        assert(Header::parse(bytes).unwrap().wire() =~= bytes);
    }

    /// Encodes the header.
    pub fn to_bytes(&self) -> (bytes: Vec<u8>)
        ensures
            bytes@ == self.wire(),
            bytes@.len() == 7,
    {
        proof {
            reveal(Header::wire);
        }
        let mut bytes: Vec<u8> = Vec::new();
        bytes.push(self.firmware);
        bytes.push(self.hardware);
        bytes.push(self.model);
        let mut part: Vec<u8> = self.state.to_bytes();
        bytes.append(&mut part);
        let mut part: Vec<u8> = self.warnings.to_bytes();
        bytes.append(&mut part);
        bytes.push(0);
        bytes.push(0);
        assert(bytes@ =~= self.wire());
        bytes
    }

    /// Decodes the header from exactly seven bytes.
    pub fn from_bytes(bytes: &[u8]) -> (result: Result<Header, PiXtendError>)
        ensures
            result == decoded(Header::parse(bytes@)),
    {
        proof {
            reveal(Header::wire);
            reveal(Header::parse);
        }
        if bytes.len() != 7 {
            return Err(
                PiXtendError::BinaryFrameReadWriteError(
                    FrameError::UnexpectedLength { expected: 7, found: bytes.len() },
                ),
            );
        }
        let state: State = match State::from_bytes(slice_subrange(bytes, 3, 4)) {
            Ok(state) => state,
            Err(error) => { return Err(error); },
        };
        let warnings: Warnings = match Warnings::from_bytes(slice_subrange(bytes, 4, 5)) {
            Ok(warnings) => warnings,
            Err(error) => { return Err(error); },
        };
        Ok(Header { firmware: bytes[0], hardware: bytes[1], model: bytes[2], state, warnings })
    }
}

/// The data of the input frame, 100 bytes: digital inputs, analog inputs, GPIO
/// inputs, sensor readings, five unused bytes, and the retain memory.
#[derive(Debug, Clone, Copy, PartialEq, Eq)]
pub struct Data {
    pub digital_in: DigitalIn,
    pub analog_in: AnalogIn,
    pub gpio_in: GpioIn,
    pub sensor_in: SensorIn,
    pub retain: [u8; 64],
}

impl Data {
    /// The bytes that the data is sent as.
    #[verifier::opaque]
    pub open spec fn wire(self) -> Seq<u8> {
        self.digital_in.wire() + self.analog_in.wire() + self.gpio_in.wire()
            + self.sensor_in.wire() + Seq::new(5, |i: int| 0u8) + self.retain@
    }

    /// The data that a byte sequence is read as. The unused bytes are not looked
    /// at.
    #[verifier::opaque]
    pub open spec fn parse(bytes: Seq<u8>) -> Result<Data, FrameError> {
        if bytes.len() != 100 {
            Err(FrameError::UnexpectedLength { expected: 100, found: bytes.len() as usize })
        } else {
            Ok(
                Data {
                    digital_in: DigitalIn::parse(bytes.subrange(0, 2)).unwrap(),
                    analog_in: AnalogIn::parse(bytes.subrange(2, 14)).unwrap(),
                    gpio_in: GpioIn::parse(bytes.subrange(14, 15)).unwrap(),
                    sensor_in: SensorIn::parse(bytes.subrange(15, 31)).unwrap(),
                    retain: block(bytes.subrange(36, 100)),
                },
            )
        }
    }

    /// Whether a byte sequence is one that data is sent as.
    #[verifier::opaque]
    pub open spec fn canonical(bytes: Seq<u8>) -> bool {
        &&& bytes.len() == 100
        &&& GpioIn::canonical(bytes.subrange(14, 15))
        &&& forall|i: int| 31 <= i < 36 ==> bytes[i] == 0
    }

    /// Reading what was written gives the data back.
    pub proof fn lemma_parse_wire(self)
        ensures
            self.wire().len() == 100,
            Data::canonical(self.wire()),
            Data::parse(self.wire()) == Ok::<Data, FrameError>(self),
    {
        reveal(Data::wire);
        reveal(Data::parse);
        reveal(Data::canonical);
        let wire = self.wire();
        self.digital_in.lemma_parse_wire();
        self.analog_in.lemma_parse_wire();
        self.gpio_in.lemma_parse_wire();
        self.sensor_in.lemma_parse_wire();
        assert(wire.subrange(0, 2) =~= self.digital_in.wire());
        assert(wire.subrange(2, 14) =~= self.analog_in.wire());
        assert(wire.subrange(14, 15) =~= self.gpio_in.wire());
        assert(wire.subrange(15, 31) =~= self.sensor_in.wire());
        assert(wire.subrange(36, 100) =~= self.retain@);
        lemma_block(self.retain@);
    }

    /// Writing what was read from a canonical byte sequence gives the bytes back.
    pub proof fn lemma_wire_parse(bytes: Seq<u8>)
        requires
            Data::canonical(bytes),
        ensures
            Data::parse(bytes) is Ok,
            Data::parse(bytes).unwrap().wire() == bytes,
    {
        reveal(Data::wire);
        reveal(Data::parse);
        reveal(Data::canonical);
        DigitalIn::lemma_wire_parse(bytes.subrange(0, 2));
        AnalogIn::lemma_wire_parse(bytes.subrange(2, 14));
        GpioIn::lemma_wire_parse(bytes.subrange(14, 15));
        SensorIn::lemma_wire_parse(bytes.subrange(15, 31));
        lemma_block(bytes.subrange(36, 100));
        assert(Data::parse(bytes).unwrap().wire() =~= bytes);
    }

    /// Encodes the data.
    pub fn to_bytes(&self) -> (bytes: Vec<u8>)
        ensures
            bytes@ == self.wire(),
            bytes@.len() == 100,
    {
        proof {
            reveal(Data::wire);
        }
        let mut bytes: Vec<u8> = self.digital_in.to_bytes();
        let mut part: Vec<u8> = self.analog_in.to_bytes();
        bytes.append(&mut part);
        let mut part: Vec<u8> = self.gpio_in.to_bytes();
        bytes.append(&mut part);
        let mut part: Vec<u8> = self.sensor_in.to_bytes();
        bytes.append(&mut part);
        let ghost head = bytes@;
        let mut i: usize = 0;
        while i < 5
            invariant
                i <= 5,
                bytes@ == head + Seq::new(i as nat, |i: int| 0u8),
            decreases 5 - i,
        {
            bytes.push(0);
            i += 1;
            assert(bytes@ =~= head + Seq::new(i as nat, |i: int| 0u8));
        }
        push_block(&mut bytes, &self.retain);
        bytes
    }

    /// Decodes the data from exactly 100 bytes.
    pub fn from_bytes(bytes: &[u8]) -> (result: Result<Data, PiXtendError>)
        ensures
            result == decoded(Data::parse(bytes@)),
    {
        proof {
            reveal(Data::wire);
            reveal(Data::parse);
        }
        if bytes.len() != 100 {
            return Err(
                PiXtendError::BinaryFrameReadWriteError(
                    FrameError::UnexpectedLength { expected: 100, found: bytes.len() },
                ),
            );
        }
        let digital_in: DigitalIn = match DigitalIn::from_bytes(slice_subrange(bytes, 0, 2)) {
            Ok(part) => part,
            Err(error) => { return Err(error); },
        };
        let analog_in: AnalogIn = match AnalogIn::from_bytes(slice_subrange(bytes, 2, 14)) {
            Ok(part) => part,
            Err(error) => { return Err(error); },
        };
        let gpio_in: GpioIn = match GpioIn::from_bytes(slice_subrange(bytes, 14, 15)) {
            Ok(part) => part,
            Err(error) => { return Err(error); },
        };
        let sensor_in: SensorIn = match SensorIn::from_bytes(slice_subrange(bytes, 15, 31)) {
            Ok(part) => part,
            Err(error) => { return Err(error); },
        };
        Ok(Data { digital_in, analog_in, gpio_in, sensor_in, retain: block_at(bytes, 36) })
    }
}

/// The frame that the board answers with, 111 bytes: the header, the checksum
/// of the header, the data, and the checksum of the data. Both checksums are
/// 16 bit numbers with the low byte first.
#[derive(Debug, Clone, Copy, PartialEq, Eq)]
pub struct Input {
    pub header: Header,
    /// The checksum of the header as it was received.
    pub header_crc: u16,
    pub data: Data,
    /// The checksum of the data as it was received.
    pub data_crc: u16,
}

impl Input {
    /// The bytes that the frame is sent as.
    pub open spec fn wire(self) -> Seq<u8> {
        self.header.wire() + le16(self.header_crc) + self.data.wire() + le16(self.data_crc)
    }

    /// The frame that a byte sequence is read as. The checksums are read, not
    /// tested.
    pub open spec fn parse(bytes: Seq<u8>) -> Result<Input, FrameError> {
        if bytes.len() != 111 {
            Err(FrameError::UnexpectedLength { expected: 111, found: bytes.len() as usize })
        } else {
            match Header::parse(bytes.subrange(0, 7)) {
                Err(error) => Err(error),
                Ok(header) => match Data::parse(bytes.subrange(9, 109)) {
                    Err(error) => Err(error),
                    Ok(data) => Ok(
                        Input {
                            header,
                            header_crc: le16_value(bytes[7], bytes[8]),
                            data,
                            data_crc: le16_value(bytes[109], bytes[110]),
                        },
                    ),
                },
            }
        }
    }

    /// Whether a byte sequence is one that a frame is sent as.
    pub open spec fn canonical(bytes: Seq<u8>) -> bool {
        &&& bytes.len() == 111
        &&& Header::canonical(bytes.subrange(0, 7))
        &&& Data::canonical(bytes.subrange(9, 109))
    }

    /// Whether both checksums of the frame are those of its header and of its
    /// data, each computed over the bytes that the part is sent as.
    pub open spec fn crc_valid(self) -> bool {
        self.header_crc == crc16(self.header.wire()) && self.data_crc == crc16(self.data.wire())
    }

    /// Reading what was written gives the frame back.
    pub proof fn lemma_parse_wire(self)
        ensures
            self.wire().len() == 111,
            Input::canonical(self.wire()),
            Input::parse(self.wire()) == Ok::<Input, FrameError>(self),
    {
        let wire = self.wire();
        self.header.lemma_parse_wire();
        self.data.lemma_parse_wire();
        assert(wire.subrange(0, 7) =~= self.header.wire());
        assert(wire.subrange(9, 109) =~= self.data.wire());
    }

    /// Writing what was read from a canonical byte sequence gives the bytes back.
    pub proof fn lemma_wire_parse(bytes: Seq<u8>)
        requires
            Input::canonical(bytes),
        ensures
            Input::parse(bytes) is Ok,
            Input::parse(bytes).unwrap().wire() == bytes,
    {
        Header::lemma_wire_parse(bytes.subrange(0, 7));
        Data::lemma_wire_parse(bytes.subrange(9, 109));
        lemma_le16_bytes(bytes[7], bytes[8]);
        lemma_le16_bytes(bytes[109], bytes[110]);
        assert(Input::parse(bytes).unwrap().wire() =~= bytes);
    }

    /// The checksums of a frame that was read from a canonical byte sequence are
    /// tested against the bytes as they were received: those of the header, and
    /// those of the data.
    pub proof fn lemma_crc_of_received(bytes: Seq<u8>)
        requires
            Input::canonical(bytes),
        ensures
            Input::parse(bytes) is Ok,
            Input::parse(bytes).unwrap().crc_valid() <==> le16_value(bytes[7], bytes[8]) == crc16(
                bytes.subrange(0, 7),
            ) && le16_value(bytes[109], bytes[110]) == crc16(bytes.subrange(9, 109)),
    {
        Header::lemma_wire_parse(bytes.subrange(0, 7));
        Data::lemma_wire_parse(bytes.subrange(9, 109));
    }

    /// Encodes the frame.
    pub fn to_bytes(&self) -> (bytes: Vec<u8>)
        ensures
            bytes@ == self.wire(),
            bytes@.len() == 111,
    {
        let mut bytes: Vec<u8> = self.header.to_bytes();
        push_le16(&mut bytes, self.header_crc);
        let mut part: Vec<u8> = self.data.to_bytes();
        bytes.append(&mut part);
        push_le16(&mut bytes, self.data_crc);
        bytes
    }

    /// Decodes the frame from exactly 111 bytes.
    pub fn from_bytes(bytes: &[u8]) -> (result: Result<Input, PiXtendError>)
        ensures
            result == decoded(Input::parse(bytes@)),
    {
        if bytes.len() != 111 {
            return Err(
                PiXtendError::BinaryFrameReadWriteError(
                    FrameError::UnexpectedLength { expected: 111, found: bytes.len() },
                ),
            );
        }
        let header: Header = match Header::from_bytes(slice_subrange(bytes, 0, 7)) {
            Ok(header) => header,
            Err(error) => { return Err(error); },
        };
        let data: Data = match Data::from_bytes(slice_subrange(bytes, 9, 109)) {
            Ok(data) => data,
            Err(error) => { return Err(error); },
        };
        Ok(Input { header, header_crc: le16_at(bytes, 7), data, data_crc: le16_at(bytes, 109) })
    }

    /// Tests the two checksums of the frame against its header and its data.
    pub fn check_crc_valid(&self) -> (valid: bool)
        ensures
            valid == self.crc_valid(),
    {
        let header: Vec<u8> = self.header.to_bytes();
        let data: Vec<u8> = self.data.to_bytes();
        let header_crc: u16 = calc_crc16(header.as_slice());
        let data_crc: u16 = calc_crc16(data.as_slice());
        header_crc == self.header_crc && data_crc == self.data_crc
    }
}

} // verus!
