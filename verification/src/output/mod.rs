//! The frame that is sent to the board, and its parts.

pub mod dac;
pub mod digital_debounce;
pub mod digital_out;
pub mod gpio_ctrl;
pub mod gpio_debounce;
pub mod gpio_out;
pub mod pwm;
pub mod relay_out;
pub mod retain;
pub mod system;
pub mod watchdog;

pub use dac::Dac;
pub use digital_debounce::DigitalDebounce;
pub use digital_out::DigitalOut;
pub use gpio_ctrl::GpioCtrl;
pub use gpio_debounce::GpioDebounce;
pub use gpio_out::GpioOut;
pub use pwm::{Pwm, PwmCtrl, PwmGroup, PwmMode, PwmPrescaler};
pub use relay_out::RelayOut;
pub use retain::Retain;
pub use system::System;
pub use watchdog::Watchdog;

use crate::bits::{le16, push_le16};
use crate::error::{decoded, FrameError, PiXtendError};
use crate::utils::{calc_crc16, crc16};
use vstd::prelude::*;
use vstd::slice::slice_subrange;

verus! {

/// The byte that every output header starts with: the letter `L`, for the
/// model of the board.
pub const MAGIC: u8 = 0x4C;

/// The header of the output frame, seven bytes: the magic byte, an unused byte,
/// the watchdog setting, the system flags, and three unused bytes.
#[derive(Debug, Clone, Copy, PartialEq, Eq)]
pub struct Header {
    pub watchdog: Watchdog,
    pub system: System,
}

impl Header {
    /// The bytes that the header is sent as.
    #[verifier::opaque]
    pub open spec fn wire(self) -> Seq<u8> {
        seq![MAGIC, 0u8] + self.watchdog.wire() + self.system.wire() + seq![0u8, 0u8, 0u8]
    }

    /// The header that a byte sequence is read as. The unused bytes are not
    /// looked at; a first byte other than the magic byte is refused.
    #[verifier::opaque]
    pub open spec fn parse(bytes: Seq<u8>) -> Result<Header, FrameError> {
        if bytes.len() != 7 {
            Err(FrameError::UnexpectedLength { expected: 7, found: bytes.len() as usize })
        } else if bytes[0] != MAGIC {
            Err(FrameError::MissingMagic(bytes[0]))
        } else {
            match Watchdog::parse(bytes.subrange(2, 3)) {
                Err(error) => Err(error),
                Ok(watchdog) => match System::parse(bytes.subrange(3, 4)) {
                    Err(error) => Err(error),
                    Ok(system) => Ok(Header { watchdog, system }),
                },
            }
        }
    }

    /// Whether a byte sequence is one that a header is sent as.
    #[verifier::opaque]
    pub open spec fn canonical(bytes: Seq<u8>) -> bool {
        &&& bytes.len() == 7
        &&& bytes[0] == MAGIC
        &&& bytes[1] == 0
        &&& Watchdog::canonical(bytes.subrange(2, 3))
        &&& System::canonical(bytes.subrange(3, 4))
        &&& bytes[4] == 0
        &&& bytes[5] == 0
        &&& bytes[6] == 0
    }

    /// Reading what was written gives the header back.
    pub proof fn lemma_parse_wire(self)
        ensures
            self.wire().len() == 7,
            Header::canonical(self.wire()),
            Header::parse(self.wire()) == Ok::<Header, FrameError>(self),
    {
        reveal(Header::wire);
        reveal(Header::parse);
        reveal(Header::canonical);
        let wire = self.wire();
        self.watchdog.lemma_parse_wire();
        self.system.lemma_parse_wire();
        assert(wire.subrange(2, 3) =~= self.watchdog.wire());
        assert(wire.subrange(3, 4) =~= self.system.wire());
    }

    /// Writing what was read from a canonical byte sequence gives the bytes back.
    pub proof fn lemma_wire_parse(bytes: Seq<u8>)
        requires
            Header::canonical(bytes),
        ensures
            Header::parse(bytes) is Ok,
            Header::parse(bytes).unwrap().wire() == bytes,
    {
        reveal(Header::wire);
        reveal(Header::parse);
        reveal(Header::canonical);
        Watchdog::lemma_wire_parse(bytes.subrange(2, 3));
        System::lemma_wire_parse(bytes.subrange(3, 4));
        assert(Header::parse(bytes).unwrap().wire() =~= bytes);
    }

    /// Encodes the header.
    pub fn to_bytes(&self) -> (bytes: Vec<u8>)
        ensures
            bytes@ == self.wire(),
            bytes@.len() == 7,
    {
        proof {
            reveal(Header::wire);
        }
        let mut bytes: Vec<u8> = Vec::new();
        bytes.push(MAGIC);
        bytes.push(0);
        let mut part: Vec<u8> = self.watchdog.to_bytes();
        bytes.append(&mut part);
        let mut part: Vec<u8> = self.system.to_bytes();
        bytes.append(&mut part);
        bytes.push(0);
        bytes.push(0);
        bytes.push(0);
        assert(bytes@ =~= self.wire());
        bytes
    }

    /// Decodes the header from exactly seven bytes.
    pub fn from_bytes(bytes: &[u8]) -> (result: Result<Header, PiXtendError>)
        ensures
            result == decoded(Header::parse(bytes@)),
    {
        proof {
            reveal(Header::parse);
        }
        if bytes.len() != 7 {
            return Err(
                PiXtendError::BinaryFrameReadWriteError(
                    FrameError::UnexpectedLength { expected: 7, found: bytes.len() },
                ),
            );
        }
        if bytes[0] != MAGIC {
            return Err(
                PiXtendError::BinaryFrameReadWriteError(FrameError::MissingMagic(bytes[0])),
            );
        }
        let watchdog: Watchdog = match Watchdog::from_bytes(slice_subrange(bytes, 2, 3)) {
            Ok(watchdog) => watchdog,
            Err(error) => { return Err(error); },
        };
        let system: System = match System::from_bytes(slice_subrange(bytes, 3, 4)) {
            Ok(system) => system,
            Err(error) => { return Err(error); },
        };
        Ok(Header { watchdog, system })
    }
}

impl Default for Header {
    /// The watchdog is off and all flags are cleared.
    fn default() -> (header: Header)
        ensures
            header == (Header { watchdog: Watchdog::Deactivated, system: System::zero() }),
    {
        Header { watchdog: Watchdog::default(), system: System::default() }
    }
}

/// The data of the output frame, 100 bytes: the debounce times of the digital
/// inputs, the digital outputs, the relays, the GPIO configuration, the GPIO
/// outputs, the debounce times of the GPIOs, the PWM groups, and the retain
/// memory.
#[derive(Debug, Clone, Copy, PartialEq, Eq)]
pub struct Data {
    pub digital_debounce: DigitalDebounce,
    pub digital_out: DigitalOut,
    pub relay_out: RelayOut,
    pub gpio_ctrl: GpioCtrl,
    pub gpio_out: GpioOut,
    pub gpio_debounce: GpioDebounce,
    pub pwm: Pwm,
    pub retain: Retain,
}

impl Data {
    /// The bytes that the data is sent as.
    #[verifier::opaque]
    pub open spec fn wire(self) -> Seq<u8> {
        self.digital_debounce.wire() + self.digital_out.wire() + self.relay_out.wire()
            + self.gpio_ctrl.wire() + self.gpio_out.wire() + self.gpio_debounce.wire()
            + self.pwm.wire() + self.retain.wire()
    }

    /// The data that a byte sequence is read as.
    #[verifier::opaque]
    pub open spec fn parse(bytes: Seq<u8>) -> Result<Data, FrameError> {
        if bytes.len() != 100 {
            Err(FrameError::UnexpectedLength { expected: 100, found: bytes.len() as usize })
        } else {
            match Pwm::parse(bytes.subrange(15, 36)) {
                Err(error) => Err(error),
                Ok(pwm) => Ok(
                    Data {
                        digital_debounce: DigitalDebounce::parse(bytes.subrange(0, 8)).unwrap(),
                        digital_out: DigitalOut::parse(bytes.subrange(8, 10)).unwrap(),
                        relay_out: RelayOut::parse(bytes.subrange(10, 11)).unwrap(),
                        gpio_ctrl: GpioCtrl::parse(bytes.subrange(11, 12)).unwrap(),
                        gpio_out: GpioOut::parse(bytes.subrange(12, 13)).unwrap(),
                        gpio_debounce: GpioDebounce::parse(bytes.subrange(13, 15)).unwrap(),
                        pwm,
                        retain: Retain::parse(bytes.subrange(36, 100)).unwrap(),
                    },
                ),
            }
        }
    }

    /// Whether a byte sequence is one that data is sent as.
    #[verifier::opaque]
    pub open spec fn canonical(bytes: Seq<u8>) -> bool {
        &&& bytes.len() == 100
        &&& DigitalOut::canonical(bytes.subrange(8, 10))
        &&& RelayOut::canonical(bytes.subrange(10, 11))
        &&& GpioOut::canonical(bytes.subrange(12, 13))
        &&& Pwm::canonical(bytes.subrange(15, 36))
    }

    /// Whether everything is off: no debouncing, no output set, all GPIOs plain
    /// inputs, all PWM groups deactivated, the retain memory zeroed.
    pub open spec fn idle(self) -> bool {
        &&& self.digital_debounce == DigitalDebounce::zero()
        &&& self.digital_out == DigitalOut::zero()
        &&& self.relay_out == RelayOut::zero()
        &&& self.gpio_ctrl == GpioCtrl::zero()
        &&& self.gpio_out == GpioOut::zero()
        &&& self.gpio_debounce == GpioDebounce::zero()
        &&& self.pwm == Pwm::zero()
        &&& self.retain.wire() == Seq::new(64, |i: int| 0u8)
    }

    /// Reading what was written gives the data back.
    pub proof fn lemma_parse_wire(self)
        ensures
            self.wire().len() == 100,
            Data::canonical(self.wire()),
            Data::parse(self.wire()) == Ok::<Data, FrameError>(self),
    {
        reveal(Data::wire);
        reveal(Data::parse);
        reveal(Data::canonical);
        let wire = self.wire();
        self.digital_debounce.lemma_parse_wire();
        self.digital_out.lemma_parse_wire();
        self.relay_out.lemma_parse_wire();
        self.gpio_ctrl.lemma_parse_wire();
        self.gpio_out.lemma_parse_wire();
        self.gpio_debounce.lemma_parse_wire();
        self.pwm.lemma_parse_wire();
        self.retain.lemma_parse_wire();
        assert(wire.subrange(0, 8) =~= self.digital_debounce.wire());
        assert(wire.subrange(8, 10) =~= self.digital_out.wire());
        assert(wire.subrange(10, 11) =~= self.relay_out.wire());
        assert(wire.subrange(11, 12) =~= self.gpio_ctrl.wire());
        assert(wire.subrange(12, 13) =~= self.gpio_out.wire());
        assert(wire.subrange(13, 15) =~= self.gpio_debounce.wire());
        assert(wire.subrange(15, 36) =~= self.pwm.wire());
        assert(wire.subrange(36, 100) =~= self.retain.wire());
    }

    /// Writing what was read from a canonical byte sequence gives the bytes back.
    pub proof fn lemma_wire_parse(bytes: Seq<u8>)
        requires
            Data::canonical(bytes),
        ensures
            Data::parse(bytes) is Ok,
            Data::parse(bytes).unwrap().wire() == bytes,
    {
        reveal(Data::wire);
        reveal(Data::parse);
        reveal(Data::canonical);
        DigitalDebounce::lemma_wire_parse(bytes.subrange(0, 8));
        DigitalOut::lemma_wire_parse(bytes.subrange(8, 10));
        RelayOut::lemma_wire_parse(bytes.subrange(10, 11));
        GpioCtrl::lemma_wire_parse(bytes.subrange(11, 12));
        GpioOut::lemma_wire_parse(bytes.subrange(12, 13));
        GpioDebounce::lemma_wire_parse(bytes.subrange(13, 15));
        Pwm::lemma_wire_parse(bytes.subrange(15, 36));
        Retain::lemma_wire_parse(bytes.subrange(36, 100));
        assert(Data::parse(bytes).unwrap().wire() =~= bytes);
    }

    /// Encodes the data.
    pub fn to_bytes(&self) -> (bytes: Vec<u8>)
        ensures
            bytes@ == self.wire(),
            bytes@.len() == 100,
    {
        proof {
            reveal(Data::wire);
        }
        let mut bytes: Vec<u8> = self.digital_debounce.to_bytes();
        let mut part: Vec<u8> = self.digital_out.to_bytes();
        bytes.append(&mut part);
        let mut part: Vec<u8> = self.relay_out.to_bytes();
        bytes.append(&mut part);
        let mut part: Vec<u8> = self.gpio_ctrl.to_bytes();
        bytes.append(&mut part);
        let mut part: Vec<u8> = self.gpio_out.to_bytes();
        bytes.append(&mut part);
        let mut part: Vec<u8> = self.gpio_debounce.to_bytes();
        bytes.append(&mut part);
        let mut part: Vec<u8> = self.pwm.to_bytes();
        bytes.append(&mut part);
        let mut part: Vec<u8> = self.retain.to_bytes();
        bytes.append(&mut part);
        bytes
    }

    /// Decodes the data from exactly 100 bytes.
    pub fn from_bytes(bytes: &[u8]) -> (result: Result<Data, PiXtendError>)
        ensures
            result == decoded(Data::parse(bytes@)),
    {
        proof {
            reveal(Data::parse);
        }
        if bytes.len() != 100 {
            return Err(
                PiXtendError::BinaryFrameReadWriteError(
                    FrameError::UnexpectedLength { expected: 100, found: bytes.len() },
                ),
            );
        }
        let pwm: Pwm = match Pwm::from_bytes(slice_subrange(bytes, 15, 36)) {
            Ok(part) => part,
            Err(error) => { return Err(error); },
        };
        let digital_debounce: DigitalDebounce = match DigitalDebounce::from_bytes(
            slice_subrange(bytes, 0, 8),
        ) {
            Ok(part) => part,
            Err(error) => { return Err(error); },
        };
        let digital_out: DigitalOut = match DigitalOut::from_bytes(slice_subrange(bytes, 8, 10)) {
            Ok(part) => part,
            Err(error) => { return Err(error); },
        };
        let relay_out: RelayOut = match RelayOut::from_bytes(slice_subrange(bytes, 10, 11)) {
            Ok(part) => part,
            Err(error) => { return Err(error); },
        };
        let gpio_ctrl: GpioCtrl = match GpioCtrl::from_bytes(slice_subrange(bytes, 11, 12)) {
            Ok(part) => part,
            Err(error) => { return Err(error); },
        };
        let gpio_out: GpioOut = match GpioOut::from_bytes(slice_subrange(bytes, 12, 13)) {
            Ok(part) => part,
            Err(error) => { return Err(error); },
        };
        let gpio_debounce: GpioDebounce = match GpioDebounce::from_bytes(
            slice_subrange(bytes, 13, 15),
        ) {
            Ok(part) => part,
            Err(error) => { return Err(error); },
        };
        let retain: Retain = match Retain::from_bytes(slice_subrange(bytes, 36, 100)) {
            Ok(part) => part,
            Err(error) => { return Err(error); },
        };
        Ok(
            Data {
                digital_debounce,
                digital_out,
                relay_out,
                gpio_ctrl,
                gpio_out,
                gpio_debounce,
                pwm,
                retain,
            },
        )
    }
}

impl Default for Data {
    /// Everything is off.
    fn default() -> (data: Data)
        ensures
            data.idle(),
    {
        Data {
            digital_debounce: DigitalDebounce::default(),
            digital_out: DigitalOut::default(),
            relay_out: RelayOut::default(),
            gpio_ctrl: GpioCtrl::default(),
            gpio_out: GpioOut::default(),
            gpio_debounce: GpioDebounce::default(),
            pwm: Pwm::default(),
            retain: Retain::default(),
        }
    }
}

/// The frame that is sent to the board, 111 bytes: the header, the checksum of
/// the header, the data, and the checksum of the data. Both checksums are 16
/// bit numbers with the low byte first.
///
/// The checksums are no part of the structure. They are computed from the
/// header and the data whenever the frame is written, so that a frame cannot
/// leave with a checksum of something else.
#[derive(Debug, Clone, Copy, PartialEq, Eq)]
pub struct Output {
    pub header: Header,
    pub data: Data,
}

impl Output {
    /// The bytes that the frame is sent as.
    pub open spec fn wire(self) -> Seq<u8> {
        self.header.wire() + le16(crc16(self.header.wire())) + self.data.wire() + le16(
            crc16(self.data.wire()),
        )
    }

    /// The frame that a byte sequence is read as. The checksums are not looked
    /// at.
    pub open spec fn parse(bytes: Seq<u8>) -> Result<Output, FrameError> {
        if bytes.len() != 111 {
            Err(FrameError::UnexpectedLength { expected: 111, found: bytes.len() as usize })
        } else {
            match Header::parse(bytes.subrange(0, 7)) {
                Err(error) => Err(error),
                Ok(header) => match Data::parse(bytes.subrange(9, 109)) {
                    Err(error) => Err(error),
                    Ok(data) => Ok(Output { header, data }),
                },
            }
        }
    }

    /// Whether a byte sequence is one that a frame is sent as: header and data
    /// are canonical, and each is followed by its checksum.
    pub open spec fn canonical(bytes: Seq<u8>) -> bool {
        &&& bytes.len() == 111
        &&& Header::canonical(bytes.subrange(0, 7))
        &&& bytes.subrange(7, 9) == le16(crc16(bytes.subrange(0, 7)))
        &&& Data::canonical(bytes.subrange(9, 109))
        &&& bytes.subrange(109, 111) == le16(crc16(bytes.subrange(9, 109)))
    }

    /// Whether the frame asks the board for nothing: the watchdog is off, all
    /// flags are cleared, and the data is idle.
    pub open spec fn idle(self) -> bool {
        &&& self.header == (Header { watchdog: Watchdog::Deactivated, system: System::zero() })
        &&& self.data.idle()
    }

    /// Reading what was written gives the frame back.
    pub proof fn lemma_parse_wire(self)
        ensures
            self.wire().len() == 111,
            Output::canonical(self.wire()),
            Output::parse(self.wire()) == Ok::<Output, FrameError>(self),
    {
        let wire = self.wire();
        self.header.lemma_parse_wire();
        self.data.lemma_parse_wire();
        assert(wire.subrange(0, 7) =~= self.header.wire());
        assert(wire.subrange(7, 9) =~= le16(crc16(self.header.wire())));
        assert(wire.subrange(9, 109) =~= self.data.wire());
        assert(wire.subrange(109, 111) =~= le16(crc16(self.data.wire())));
    }

    /// Writing what was read from a canonical byte sequence gives the bytes back.
    pub proof fn lemma_wire_parse(bytes: Seq<u8>)
        requires
            Output::canonical(bytes),
        ensures
            Output::parse(bytes) is Ok,
            Output::parse(bytes).unwrap().wire() == bytes,
    {
        Header::lemma_wire_parse(bytes.subrange(0, 7));
        Data::lemma_wire_parse(bytes.subrange(9, 109));
        assert(Output::parse(bytes).unwrap().wire() =~= bytes.subrange(0, 7) + bytes.subrange(7, 9)
            + bytes.subrange(9, 109) + bytes.subrange(109, 111));
        assert(bytes =~= bytes.subrange(0, 7) + bytes.subrange(7, 9) + bytes.subrange(9, 109)
            + bytes.subrange(109, 111));
    }

    /// Encodes the frame, with the checksums of its header and of its data.
    pub fn to_bytes(&self) -> (bytes: Vec<u8>)
        ensures
            bytes@ == self.wire(),
            bytes@.len() == 111,
    {
        let mut bytes: Vec<u8> = self.header.to_bytes();
        let header_crc: u16 = calc_crc16(bytes.as_slice());
        push_le16(&mut bytes, header_crc);
        let mut data: Vec<u8> = self.data.to_bytes();
        let data_crc: u16 = calc_crc16(data.as_slice());
        bytes.append(&mut data);
        push_le16(&mut bytes, data_crc);
        bytes
    }

    /// Decodes the frame from exactly 111 bytes.
    pub fn from_bytes(bytes: &[u8]) -> (result: Result<Output, PiXtendError>)
        ensures
            result == decoded(Output::parse(bytes@)),
    {
        if bytes.len() != 111 {
            return Err(
                PiXtendError::BinaryFrameReadWriteError(
                    FrameError::UnexpectedLength { expected: 111, found: bytes.len() },
                ),
            );
        }
        let header: Header = match Header::from_bytes(slice_subrange(bytes, 0, 7)) {
            Ok(header) => header,
            Err(error) => { return Err(error); },
        };
        let data: Data = match Data::from_bytes(slice_subrange(bytes, 9, 109)) {
            Ok(data) => data,
            Err(error) => { return Err(error); },
        };
        Ok(Output { header, data })
    }
}

impl Default for Output {
    /// The frame of a board that is asked for nothing.
    fn default() -> (output: Output)
        ensures
            output.idle(),
    {
        Output { header: Header::default(), data: Data::default() }
    }
}

} // verus!
