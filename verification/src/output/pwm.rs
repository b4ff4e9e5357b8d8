//! The three PWM groups.

use crate::bits::{
    bit, bits_of, bits_uint, bytes_of, field, le16, le16_at, le16_value, lemma_bits_of_bytes_of,
    lemma_bytes_of_bits_of, lemma_le16_bytes, lemma_uint_read, lemma_uint_write, pack_bits,
    push_bits, push_le16, uint_bits,
};
use crate::error::{decoded, FrameError, PiXtendError};
use crate::pwm_config::PwmConfig;
use crate::ratio::Ratio;
use crate::Channel;
use vstd::prelude::*;
use vstd::slice::slice_subrange;
use vstd::std_specs::convert::FromSpec;

verus! {

/// The base frequency of a PWM group.
#[derive(Debug, Clone, Copy, PartialEq, Eq)]
pub enum PwmPrescaler {
    Deactivated,
    Prescale16MHz,
    Prescale2MHz,
    Prescale250kHz,
    Prescale62_5kHz,
    Prescale15_625kHz,
}

impl PwmPrescaler {
    /// The number that stands for the prescaler on the wire.
    pub open spec fn id(self) -> u8 {
        match self {
            PwmPrescaler::Deactivated => 0,
            PwmPrescaler::Prescale16MHz => 1,
            PwmPrescaler::Prescale2MHz => 2,
            PwmPrescaler::Prescale250kHz => 3,
            PwmPrescaler::Prescale62_5kHz => 4,
            PwmPrescaler::Prescale15_625kHz => 5,
        }
    }

    /// The prescaler that a number stands for, if any.
    pub open spec fn of_id(id: u8) -> Option<PwmPrescaler> {
        if id == 0 {
            Some(PwmPrescaler::Deactivated)
        } else if id == 1 {
            Some(PwmPrescaler::Prescale16MHz)
        } else if id == 2 {
            Some(PwmPrescaler::Prescale2MHz)
        } else if id == 3 {
            Some(PwmPrescaler::Prescale250kHz)
        } else if id == 4 {
            Some(PwmPrescaler::Prescale62_5kHz)
        } else if id == 5 {
            Some(PwmPrescaler::Prescale15_625kHz)
        } else {
            None
        }
    }

    /// The base frequency in hertz that the prescaler names, if it names one.
    pub open spec fn hertz(self) -> Option<int> {
        match self {
            PwmPrescaler::Deactivated => None,
            PwmPrescaler::Prescale16MHz => Some(16_000_000),
            PwmPrescaler::Prescale2MHz => Some(2_000_000),
            PwmPrescaler::Prescale250kHz => Some(250_000),
            PwmPrescaler::Prescale62_5kHz => Some(62_500),
            PwmPrescaler::Prescale15_625kHz => Some(15_625),
        }
    }

    /// The frequency in hertz at which a channel runs with a given value: half
    /// the base frequency, divided by the value. There is none without a base
    /// frequency, and none for the value zero.
    pub open spec fn channel_frequency(self, value: u16) -> Option<Ratio> {
        match self.hertz() {
            Some(base) => if value > 0 {
                Some(Ratio { numerator: base as i64, denominator: (2 * value) as u64 })
            } else {
                None
            },
            None => None,
        }
    }

    /// The frequency in hertz at which a channel runs with a given value: the
    /// frequency divisor of a group in duty cycle or universal mode, the value
    /// of a channel in frequency mode. A caller who wants a certain frequency
    /// has to find the value for it.
    pub fn frequency(&self, value: u16) -> (result: Option<Ratio>)
        ensures
            result == self.channel_frequency(value),
    {
        let base: i64 = match self {
            PwmPrescaler::Deactivated => { return None; },
            PwmPrescaler::Prescale16MHz => 16_000_000,
            PwmPrescaler::Prescale2MHz => 2_000_000,
            PwmPrescaler::Prescale250kHz => 250_000,
            PwmPrescaler::Prescale62_5kHz => 62_500,
            PwmPrescaler::Prescale15_625kHz => 15_625,
        };
        if value == 0 {
            return None;
        }
        Some(Ratio { numerator: base, denominator: 2 * (value as u64) })
    }

    /// Every prescaler has a number of its own that fits into three bits, and a
    /// number stands for at most one prescaler.
    pub proof fn lemma_id_injective(self, id: u8)
        ensures
            self.id() < 8,
            PwmPrescaler::of_id(self.id()) == Some(self),
            PwmPrescaler::of_id(id) == Some(self) ==> id == self.id(),
    {
    }

    /// The number that stands for the prescaler on the wire.
    pub fn to_id(&self) -> (id: u8)
        ensures
            id == self.id(),
    {
        match self {
            PwmPrescaler::Deactivated => 0,
            PwmPrescaler::Prescale16MHz => 1,
            PwmPrescaler::Prescale2MHz => 2,
            PwmPrescaler::Prescale250kHz => 3,
            PwmPrescaler::Prescale62_5kHz => 4,
            PwmPrescaler::Prescale15_625kHz => 5,
        }
    }

    /// The prescaler that a number stands for; `None` for the numbers that stand
    /// for none.
    pub fn from_id(id: u8) -> (prescaler: Option<PwmPrescaler>)
        ensures
            prescaler == PwmPrescaler::of_id(id),
    {
        match id {
            0 => Some(PwmPrescaler::Deactivated),
            1 => Some(PwmPrescaler::Prescale16MHz),
            2 => Some(PwmPrescaler::Prescale2MHz),
            3 => Some(PwmPrescaler::Prescale250kHz),
            4 => Some(PwmPrescaler::Prescale62_5kHz),
            5 => Some(PwmPrescaler::Prescale15_625kHz),
            _ => None,
        }
    }
}

impl Default for PwmPrescaler {
    /// No base frequency.
    fn default() -> (prescaler: PwmPrescaler)
        ensures
            prescaler == PwmPrescaler::Deactivated,
    {
        PwmPrescaler::Deactivated
    }
}

/// What the two channel values of a PWM group mean.
#[derive(Debug, Clone, Copy, PartialEq, Eq)]
pub enum PwmMode {
    Servo,
    DutyCycle,
    Universal,
    Frequency,
}

impl PwmMode {
    /// The number that stands for the mode on the wire.
    pub open spec fn id(self) -> u8 {
        match self {
            PwmMode::Servo => 0,
            PwmMode::DutyCycle => 1,
            PwmMode::Universal => 2,
            PwmMode::Frequency => 3,
        }
    }

    /// The mode that two mode bits spell. Each of their four values is a mode.
    pub open spec fn of_id(id: u8) -> PwmMode {
        if id % 4 == 0 {
            PwmMode::Servo
        } else if id % 4 == 1 {
            PwmMode::DutyCycle
        } else if id % 4 == 2 {
            PwmMode::Universal
        } else {
            PwmMode::Frequency
        }
    }

    /// Every mode has a number of its own that fits into two bits, and every
    /// such number stands for exactly one mode.
    pub proof fn lemma_id_injective(self, id: u8)
        ensures
            self.id() < 4,
            PwmMode::of_id(self.id()) == self,
            id < 4 && PwmMode::of_id(id) == self ==> id == self.id(),
    {
    }

    /// The number that stands for the mode on the wire.
    pub fn to_id(&self) -> (id: u8)
        ensures
            id == self.id(),
    {
        match self {
            PwmMode::Servo => 0,
            PwmMode::DutyCycle => 1,
            PwmMode::Universal => 2,
            PwmMode::Frequency => 3,
        }
    }

    /// The mode that the low two bits of a number spell.
    pub fn from_id(id: u8) -> (mode: PwmMode)
        ensures
            mode == PwmMode::of_id(id),
    {
        match id % 4 {
            0 => PwmMode::Servo,
            1 => PwmMode::DutyCycle,
            2 => PwmMode::Universal,
            _ => PwmMode::Frequency,
        }
    }
}

impl Default for PwmMode {
    /// Servo mode, which is also what a deactivated group is sent as.
    fn default() -> (mode: PwmMode)
        ensures
            mode == PwmMode::Servo,
    {
        PwmMode::Servo
    }
}

/// The control byte of a PWM group: the prescaler in three bits, the enable
/// bits of channel B and of channel A, one unused bit, and the mode in two
/// bits.
#[derive(Debug, Clone, Copy, PartialEq, Eq)]
pub struct PwmCtrl {
    pub prescaler: PwmPrescaler,
    pub channel_b: bool,
    pub channel_a: bool,
    pub mode: PwmMode,
}

impl PwmCtrl {
    /// The bits of the structure in transmission order.
    pub open spec fn bits(self) -> Seq<bool> {
        uint_bits(self.prescaler.id() as u16, 3) + seq![self.channel_b, self.channel_a, false]
            + uint_bits(self.mode.id() as u16, 2)
    }

    /// The bytes that the structure is sent as.
    pub open spec fn wire(self) -> Seq<u8> {
        bytes_of(self.bits())
    }

    /// The number in the three prescaler bits of a control byte.
    pub open spec fn prescaler_bits(bytes: Seq<u8>) -> u8 {
        bits_uint(bits_of(bytes), 0, 3) as u8
    }

    /// The number in the two mode bits of a control byte.
    pub open spec fn mode_bits(bytes: Seq<u8>) -> u8 {
        bits_uint(bits_of(bytes), 6, 2) as u8
    }

    /// The structure that a byte sequence is read as. The unused bit is not
    /// looked at; prescaler bits that spell no known prescaler are refused.
    pub open spec fn parse(bytes: Seq<u8>) -> Result<PwmCtrl, FrameError> {
        if bytes.len() != 1 {
            Err(FrameError::UnexpectedLength { expected: 1, found: bytes.len() as usize })
        } else {
            match PwmPrescaler::of_id(PwmCtrl::prescaler_bits(bytes)) {
                Some(prescaler) => Ok(
                    PwmCtrl {
                        prescaler,
                        channel_b: bits_of(bytes)[3],
                        channel_a: bits_of(bytes)[4],
                        mode: PwmMode::of_id(PwmCtrl::mode_bits(bytes)),
                    },
                ),
                None => Err(FrameError::UnknownPrescaler(PwmCtrl::prescaler_bits(bytes))),
            }
        }
    }

    /// Whether a byte sequence is one that a structure is sent as: it has the
    /// right length, a known prescaler, and its unused bit is cleared.
    pub open spec fn canonical(bytes: Seq<u8>) -> bool {
        &&& bytes.len() == 1
        &&& PwmPrescaler::of_id(PwmCtrl::prescaler_bits(bytes)) is Some
        &&& !bits_of(bytes)[5]
    }

    /// Reading what was written gives the structure back.
    pub proof fn lemma_parse_wire(self)
        ensures
            self.wire().len() == 1,
            PwmCtrl::canonical(self.wire()),
            PwmCtrl::parse(self.wire()) == Ok::<PwmCtrl, FrameError>(self),
    {
        lemma_bits_of_bytes_of(self.bits());
        assert(self.bits().subrange(0, 3) =~= uint_bits(self.prescaler.id() as u16, 3));
        assert(self.bits().subrange(6, 8) =~= uint_bits(self.mode.id() as u16, 2));
        lemma_uint_read(self.bits(), 0, self.prescaler.id() as u16, 3);
        lemma_uint_read(self.bits(), 6, self.mode.id() as u16, 2);
    }

    /// Writing what was read from a canonical byte sequence gives the bytes back.
    pub proof fn lemma_wire_parse(bytes: Seq<u8>)
        requires
            PwmCtrl::canonical(bytes),
        ensures
            PwmCtrl::parse(bytes) is Ok,
            PwmCtrl::parse(bytes).unwrap().wire() == bytes,
    {
        lemma_bytes_of_bits_of(bytes);
        lemma_uint_write(bits_of(bytes), 0, 3);
        lemma_uint_write(bits_of(bytes), 6, 2);
        assert(PwmCtrl::parse(bytes).unwrap().bits() =~= bits_of(bytes));
    }

    /// Encodes the structure.
    pub fn to_bytes(&self) -> (bytes: Vec<u8>)
        ensures
            bytes@ == self.wire(),
            bytes@.len() == 1,
    {
        proof {
            self.lemma_parse_wire();
        }
        let mut bits: Vec<bool> = Vec::new();
        push_bits(&mut bits, self.prescaler.to_id() as u16, 3);
        bits.push(self.channel_b);
        bits.push(self.channel_a);
        bits.push(false);
        push_bits(&mut bits, self.mode.to_id() as u16, 2);
        assert(bits@ =~= self.bits());
        pack_bits(bits.as_slice())
    }

    /// Decodes the structure from exactly one byte.
    pub fn from_bytes(bytes: &[u8]) -> (result: Result<PwmCtrl, PiXtendError>)
        ensures
            result == decoded(PwmCtrl::parse(bytes@)),
    {
        if bytes.len() != 1 {
            return Err(
                PiXtendError::BinaryFrameReadWriteError(
                    FrameError::UnexpectedLength { expected: 1, found: bytes.len() },
                ),
            );
        }
        let prescaler: u16 = field(bytes, 0, 3);
        let mode: u16 = field(bytes, 6, 2);
        proof {
            lemma_bytes_of_bits_of(bytes@);
            lemma_uint_write(bits_of(bytes@), 0, 3);
            lemma_uint_write(bits_of(bytes@), 6, 2);
        }
        match PwmPrescaler::from_id(prescaler as u8) {
            Some(prescaler) => Ok(
                PwmCtrl {
                    prescaler,
                    channel_b: bit(bytes, 3),
                    channel_a: bit(bytes, 4),
                    mode: PwmMode::from_id(mode as u8),
                },
            ),
            None => Err(
                PiXtendError::BinaryFrameReadWriteError(
                    FrameError::UnknownPrescaler(prescaler as u8),
                ),
            ),
        }
    }
}

impl Default for PwmCtrl {
    /// No prescaler, both channels off, servo mode.
    fn default() -> (ctrl: PwmCtrl)
        ensures
            ctrl == (PwmCtrl {
                prescaler: PwmPrescaler::Deactivated,
                channel_b: false,
                channel_a: false,
                mode: PwmMode::Servo,
            }),
    {
        PwmCtrl {
            prescaler: PwmPrescaler::Deactivated,
            channel_b: false,
            channel_a: false,
            mode: PwmMode::Servo,
        }
    }
}

/// One PWM group, seven bytes: the control byte, the frequency divisor, and the
/// values of channel A and channel B. The three numbers have 16 bits and are
/// sent low byte first.
#[derive(Debug, Clone, Copy, PartialEq, Eq)]
pub struct PwmGroup {
    pub ctrl0: PwmCtrl,
    pub ctrl1: u16,
    pub channel0: u16,
    pub channel1: u16,
}

impl PwmGroup {
    /// The bytes that the group is sent as.
    pub open spec fn wire(self) -> Seq<u8> {
        self.ctrl0.wire() + le16(self.ctrl1) + le16(self.channel0) + le16(self.channel1)
    }

    /// The group that a byte sequence is read as.
    pub open spec fn parse(bytes: Seq<u8>) -> Result<PwmGroup, FrameError> {
        if bytes.len() != 7 {
            Err(FrameError::UnexpectedLength { expected: 7, found: bytes.len() as usize })
        } else {
            match PwmCtrl::parse(bytes.subrange(0, 1)) {
                Err(error) => Err(error),
                Ok(ctrl0) => Ok(
                    PwmGroup {
                        ctrl0,
                        ctrl1: le16_value(bytes[1], bytes[2]),
                        channel0: le16_value(bytes[3], bytes[4]),
                        channel1: le16_value(bytes[5], bytes[6]),
                    },
                ),
            }
        }
    }

    /// Whether a byte sequence is one that a group is sent as.
    pub open spec fn canonical(bytes: Seq<u8>) -> bool {
        bytes.len() == 7 && PwmCtrl::canonical(bytes.subrange(0, 1))
    }

    /// The group with the value of one channel replaced.
    pub open spec fn with_channel(self, channel: Channel, value: u16) -> PwmGroup {
        match channel {
            Channel::A => PwmGroup { channel0: value, ..self },
            Channel::B => PwmGroup { channel1: value, ..self },
        }
    }

    /// Reading what was written gives the group back.
    pub proof fn lemma_parse_wire(self)
        ensures
            self.wire().len() == 7,
            PwmGroup::canonical(self.wire()),
            PwmGroup::parse(self.wire()) == Ok::<PwmGroup, FrameError>(self),
    {
        self.ctrl0.lemma_parse_wire();
        assert(self.wire().subrange(0, 1) =~= self.ctrl0.wire());
    }

    /// Writing what was read from a canonical byte sequence gives the bytes back.
    pub proof fn lemma_wire_parse(bytes: Seq<u8>)
        requires
            PwmGroup::canonical(bytes),
        ensures
            PwmGroup::parse(bytes) is Ok,
            PwmGroup::parse(bytes).unwrap().wire() == bytes,
    {
        PwmCtrl::lemma_wire_parse(bytes.subrange(0, 1));
        lemma_le16_bytes(bytes[1], bytes[2]);
        lemma_le16_bytes(bytes[3], bytes[4]);
        lemma_le16_bytes(bytes[5], bytes[6]);
        assert(PwmGroup::parse(bytes).unwrap().wire() =~= bytes);
    }

    /// Encodes the group.
    pub fn to_bytes(&self) -> (bytes: Vec<u8>)
        ensures
            bytes@ == self.wire(),
            bytes@.len() == 7,
    {
        let mut bytes: Vec<u8> = self.ctrl0.to_bytes();
        push_le16(&mut bytes, self.ctrl1);
        push_le16(&mut bytes, self.channel0);
        push_le16(&mut bytes, self.channel1);
        bytes
    }

    /// Decodes the group from exactly seven bytes.
    pub fn from_bytes(bytes: &[u8]) -> (result: Result<PwmGroup, PiXtendError>)
        ensures
            result == decoded(PwmGroup::parse(bytes@)),
    {
        if bytes.len() != 7 {
            return Err(
                PiXtendError::BinaryFrameReadWriteError(
                    FrameError::UnexpectedLength { expected: 7, found: bytes.len() },
                ),
            );
        }
        let ctrl0: PwmCtrl = match PwmCtrl::from_bytes(slice_subrange(bytes, 0, 1)) {
            Ok(ctrl0) => ctrl0,
            Err(error) => { return Err(error); },
        };
        Ok(
            PwmGroup {
                ctrl0,
                ctrl1: le16_at(bytes, 1),
                channel0: le16_at(bytes, 3),
                channel1: le16_at(bytes, 5),
            },
        )
    }
}

impl Default for PwmGroup {
    /// A deactivated group.
    fn default() -> (group: PwmGroup)
        ensures
            group == PwmGroup::from_spec(PwmConfig::Deactivated),
    {
        PwmGroup { ctrl0: PwmCtrl::default(), ctrl1: 0, channel0: 0, channel1: 0 }
    }
}

impl From<PwmConfig> for PwmGroup {
    /// The group as a configuration is sent: mode, prescaler, enable bits and
    /// frequency divisor are those of the configuration, and both channel
    /// values start at zero.
    fn from(config: PwmConfig) -> (group: PwmGroup) {
        let mode: PwmMode = match config {
            PwmConfig::Deactivated | PwmConfig::Servo { .. } => PwmMode::Servo,
            PwmConfig::DutyCycle { .. } => PwmMode::DutyCycle,
            PwmConfig::Universal { .. } => PwmMode::Universal,
            PwmConfig::Frequency { .. } => PwmMode::Frequency,
        };
        let prescaler: PwmPrescaler = match config {
            PwmConfig::Deactivated | PwmConfig::Servo { .. } => PwmPrescaler::Deactivated,
            PwmConfig::DutyCycle { prescaler, .. }
            | PwmConfig::Universal { prescaler, .. }
            | PwmConfig::Frequency { prescaler, .. } => prescaler,
        };
        let channel_a: bool = match config {
            PwmConfig::Deactivated => false,
            PwmConfig::Servo { channel_a, .. }
            | PwmConfig::DutyCycle { channel_a, .. }
            | PwmConfig::Universal { channel_a, .. }
            | PwmConfig::Frequency { channel_a, .. } => channel_a,
        };
        let channel_b: bool = match config {
            PwmConfig::Deactivated => false,
            PwmConfig::Servo { channel_b, .. }
            | PwmConfig::DutyCycle { channel_b, .. }
            | PwmConfig::Universal { channel_b, .. }
            | PwmConfig::Frequency { channel_b, .. } => channel_b,
        };
        let ctrl1: u16 = match config {
            PwmConfig::Deactivated | PwmConfig::Servo { .. } | PwmConfig::Frequency { .. } => 0,
            PwmConfig::DutyCycle { frequency, .. } | PwmConfig::Universal { frequency, .. } => {
                frequency
            },
        };
        PwmGroup {
            ctrl0: PwmCtrl { prescaler, channel_b, channel_a, mode },
            ctrl1,
            channel0: 0,
            channel1: 0,
        }
    }
}

impl vstd::std_specs::convert::FromSpecImpl<PwmConfig> for PwmGroup {
    open spec fn obeys_from_spec() -> bool {
        true
    }

    open spec fn from_spec(config: PwmConfig) -> PwmGroup {
        PwmGroup {
            ctrl0: PwmCtrl {
                prescaler: config.prescaler(),
                channel_b: config.channel_b(),
                channel_a: config.channel_a(),
                mode: config.mode(),
            },
            ctrl1: config.frequency(),
            channel0: 0,
            channel1: 0,
        }
    }
}

/// The three PWM groups, 21 bytes.
#[derive(Debug, Clone, Copy, PartialEq, Eq)]
pub struct Pwm {
    pub group0: PwmGroup,
    pub group1: PwmGroup,
    pub group2: PwmGroup,
}

impl Pwm {
    /// The bytes that the groups are sent as.
    pub open spec fn wire(self) -> Seq<u8> {
        self.group0.wire() + self.group1.wire() + self.group2.wire()
    }

    /// The groups that a byte sequence is read as.
    pub open spec fn parse(bytes: Seq<u8>) -> Result<Pwm, FrameError> {
        if bytes.len() != 21 {
            Err(FrameError::UnexpectedLength { expected: 21, found: bytes.len() as usize })
        } else {
            match PwmGroup::parse(bytes.subrange(0, 7)) {
                Err(error) => Err(error),
                Ok(group0) => match PwmGroup::parse(bytes.subrange(7, 14)) {
                    Err(error) => Err(error),
                    Ok(group1) => match PwmGroup::parse(bytes.subrange(14, 21)) {
                        Err(error) => Err(error),
                        Ok(group2) => Ok(Pwm { group0, group1, group2 }),
                    },
                },
            }
        }
    }

    /// Whether a byte sequence is one that the groups are sent as.
    pub open spec fn canonical(bytes: Seq<u8>) -> bool {
        &&& bytes.len() == 21
        &&& PwmGroup::canonical(bytes.subrange(0, 7))
        &&& PwmGroup::canonical(bytes.subrange(7, 14))
        &&& PwmGroup::canonical(bytes.subrange(14, 21))
    }

    /// The group with the given index, 0 to 2.
    pub open spec fn group(self, index: int) -> PwmGroup {
        seq![self.group0, self.group1, self.group2][index]
    }

    /// Three deactivated groups.
    pub open spec fn zero() -> Pwm {
        Pwm {
            group0: PwmGroup::from_spec(PwmConfig::Deactivated),
            group1: PwmGroup::from_spec(PwmConfig::Deactivated),
            group2: PwmGroup::from_spec(PwmConfig::Deactivated),
        }
    }

    /// The groups with the group of the given index, 0 to 2, replaced.
    pub open spec fn with_group(self, index: int, group: PwmGroup) -> Pwm {
        if index == 0 {
            Pwm { group0: group, ..self }
        } else if index == 1 {
            Pwm { group1: group, ..self }
        } else {
            Pwm { group2: group, ..self }
        }
    }

    /// Replacing one group leaves the others as they are.
    pub proof fn lemma_with_group(self, index: int, group: PwmGroup)
        requires
            0 <= index <= 2,
        ensures
            forall|i: int|
                0 <= i <= 2 ==> self.with_group(index, group).group(i) == if i == index {
                    group
                } else {
                    self.group(i)
                },
    {
    }

    /// Reading what was written gives the groups back.
    pub proof fn lemma_parse_wire(self)
        ensures
            self.wire().len() == 21,
            Pwm::canonical(self.wire()),
            Pwm::parse(self.wire()) == Ok::<Pwm, FrameError>(self),
    {
        let wire = self.wire();
        self.group0.lemma_parse_wire();
        self.group1.lemma_parse_wire();
        self.group2.lemma_parse_wire();
        assert(wire.subrange(0, 7) =~= self.group0.wire());
        assert(wire.subrange(7, 14) =~= self.group1.wire());
        assert(wire.subrange(14, 21) =~= self.group2.wire());
    }

    /// Writing what was read from a canonical byte sequence gives the bytes back.
    pub proof fn lemma_wire_parse(bytes: Seq<u8>)
        requires
            Pwm::canonical(bytes),
        ensures
            Pwm::parse(bytes) is Ok,
            Pwm::parse(bytes).unwrap().wire() == bytes,
    {
        PwmGroup::lemma_wire_parse(bytes.subrange(0, 7));
        PwmGroup::lemma_wire_parse(bytes.subrange(7, 14));
        PwmGroup::lemma_wire_parse(bytes.subrange(14, 21));
        assert(Pwm::parse(bytes).unwrap().wire() =~= bytes);
    }

    /// Encodes the groups.
    pub fn to_bytes(&self) -> (bytes: Vec<u8>)
        ensures
            bytes@ == self.wire(),
            bytes@.len() == 21,
    {
        let mut bytes: Vec<u8> = self.group0.to_bytes();
        let mut part: Vec<u8> = self.group1.to_bytes();
        bytes.append(&mut part);
        let mut part: Vec<u8> = self.group2.to_bytes();
        bytes.append(&mut part);
        bytes
    }

    /// Decodes the groups from exactly 21 bytes.
    pub fn from_bytes(bytes: &[u8]) -> (result: Result<Pwm, PiXtendError>)
        ensures
            result == decoded(Pwm::parse(bytes@)),
    {
        if bytes.len() != 21 {
            return Err(
                PiXtendError::BinaryFrameReadWriteError(
                    FrameError::UnexpectedLength { expected: 21, found: bytes.len() },
                ),
            );
        }
        let group0: PwmGroup = match PwmGroup::from_bytes(slice_subrange(bytes, 0, 7)) {
            Ok(group) => group,
            Err(error) => { return Err(error); },
        };
        let group1: PwmGroup = match PwmGroup::from_bytes(slice_subrange(bytes, 7, 14)) {
            Ok(group) => group,
            Err(error) => { return Err(error); },
        };
        let group2: PwmGroup = match PwmGroup::from_bytes(slice_subrange(bytes, 14, 21)) {
            Ok(group) => group,
            Err(error) => { return Err(error); },
        };
        Ok(Pwm { group0, group1, group2 })
    }

    /// Writes a configuration into the group with the given index, which has to
    /// be 0 to 2. The channel values of that group start again at zero.
    pub fn set_pwm_config(&mut self, index: u8, config: PwmConfig) -> (result: Result<
        (),
        PiXtendError,
    >)
        ensures
            index <= 2 ==> result is Ok && *final(self) == old(self).with_group(
                index as int,
                PwmGroup::from_spec(config),
            ),
            index > 2 ==> result == Err::<(), PiXtendError>(
                PiXtendError::InvalidPwmOutputGroupIndex(index),
            ) && *final(self) == *old(self),
    {
        match index {
            0 => self.group0 = PwmGroup::from(config),
            1 => self.group1 = PwmGroup::from(config),
            2 => self.group2 = PwmGroup::from(config),
            _ => { return Err(PiXtendError::InvalidPwmOutputGroupIndex(index)); },
        }
        Ok(())
    }

    /// Sets the value of one channel of the group with the given index, which
    /// has to be 0 to 2.
    pub fn set_channel_value(&mut self, index: u8, channel: Channel, value: u16) -> (result:
        Result<(), PiXtendError>)
        ensures
            index <= 2 ==> result is Ok && *final(self) == old(self).with_group(
                index as int,
                old(self).group(index as int).with_channel(channel, value),
            ),
            index > 2 ==> result == Err::<(), PiXtendError>(
                PiXtendError::InvalidPwmOutputGroupIndex(index),
            ) && *final(self) == *old(self),
    {
        match (index, channel) {
            (0, Channel::A) => self.group0.channel0 = value,
            (0, Channel::B) => self.group0.channel1 = value,
            (1, Channel::A) => self.group1.channel0 = value,
            (1, Channel::B) => self.group1.channel1 = value,
            (2, Channel::A) => self.group2.channel0 = value,
            (2, Channel::B) => self.group2.channel1 = value,
            _ => { return Err(PiXtendError::InvalidPwmOutputGroupIndex(index)); },
        }
        Ok(())
    }
}

impl Default for Pwm {
    /// Three deactivated groups.
    fn default() -> (pwm: Pwm)
        ensures
            pwm == Pwm::zero(),
    {
        Pwm { group0: PwmGroup::default(), group1: PwmGroup::default(), group2: PwmGroup::default() }
    }
}

} // verus!
