//! The analog outputs, which a converter of their own drives. It is written to
//! with a frame of two bytes for each channel, apart from the main frame.

use crate::bits::{
    bit, bits_of, bits_uint, bytes_of, field, lemma_bits_of_bytes_of, lemma_bytes_of_bits_of,
    lemma_bytes_of_index, lemma_uint_read, lemma_uint_write, pack_bits, push_bits, push_zeros, uint_bits, zeros,
};
use crate::error::{decoded, FrameError, PiXtendError};
use crate::Channel;
use vstd::prelude::*;

verus! {

/// The value that the converter is given for a voltage in microvolts: the
/// voltage is limited to 10 V, and the 10 V are divided into 1023 steps, of
/// which the last one that is reached counts.
pub open spec fn dac_value(microvolts: u32) -> u16 {
    let limited = if microvolts > 10_000_000 {
        10_000_000int
    } else {
        microvolts as int
    };
    (limited * 1023 / 10_000_000) as u16
}

/// The frame for one channel, two bytes: the channel in one bit, two unused
/// bits, the enable bit, the value in ten bits with the most significant bit
/// first, and two more unused bits.
#[derive(Debug, Clone, Copy, PartialEq, Eq)]
pub struct Dac {
    /// 0 for channel A, 1 for channel B.
    pub channel: u8,
    pub enabled: bool,
    /// The value of the converter, 0 to 1023.
    pub value: u16,
}

impl Dac {
    /// Whether channel and value fit into the bits they are sent in. Of a
    /// structure where they do not, only the low bits are sent.
    pub open spec fn fits(self) -> bool {
        self.channel <= 1 && self.value <= 1023
    }

    /// The bits of the structure in transmission order.
    pub open spec fn bits(self) -> Seq<bool> {
        uint_bits(self.channel as u16, 1) + zeros(2) + seq![self.enabled] + uint_bits(
            self.value,
            10,
        ) + zeros(2)
    }

    /// The bytes that the structure is sent as.
    pub open spec fn wire(self) -> Seq<u8> {
        bytes_of(self.bits())
    }

    /// The structure that a byte sequence is read as. The unused bits are not
    /// looked at.
    pub open spec fn parse(bytes: Seq<u8>) -> Result<Dac, FrameError> {
        if bytes.len() != 2 {
            Err(FrameError::UnexpectedLength { expected: 2, found: bytes.len() as usize })
        } else {
            let bits = bits_of(bytes);
            Ok(
                Dac {
                    channel: bits_uint(bits, 0, 1) as u8,
                    enabled: bits[3],
                    value: bits_uint(bits, 4, 10) as u16,
                },
            )
        }
    }

    /// Whether a byte sequence is one that a structure is sent as: it has the
    /// right length and its unused bits are cleared.
    pub open spec fn canonical(bytes: Seq<u8>) -> bool {
        let bits = bits_of(bytes);
        bytes.len() == 2 && !bits[1] && !bits[2] && !bits[14] && !bits[15]
    }

    /// Reading what was written gives the structure back, where channel and
    /// value fit.
    pub proof fn lemma_parse_wire(self)
        requires
            self.fits(),
        ensures
            self.wire().len() == 2,
            Dac::canonical(self.wire()),
            Dac::parse(self.wire()) == Ok::<Dac, FrameError>(self),
    {
        let bits = self.bits();
        assert(bits.len() == 16);
        lemma_bits_of_bytes_of(bits);
        assert(bits.subrange(0, 1) =~= uint_bits(self.channel as u16, 1));
        assert(bits.subrange(4, 14) =~= uint_bits(self.value, 10));
        lemma_uint_read(bits, 0, self.channel as u16, 1);
        lemma_uint_read(bits, 4, self.value, 10);
        assert(!bits[1] && !bits[2] && bits[3] == self.enabled && !bits[14] && !bits[15]);
    }

    /// What is read fits, and writing what was read from a canonical byte
    /// sequence gives the bytes back.
    pub proof fn lemma_wire_parse(bytes: Seq<u8>)
        requires
            Dac::canonical(bytes),
        ensures
            Dac::parse(bytes) is Ok,
            Dac::parse(bytes).unwrap().fits(),
            Dac::parse(bytes).unwrap().wire() == bytes,
    {
        lemma_bytes_of_bits_of(bytes);
        let wire = bits_of(bytes);
        let first = wire.subrange(0, 1);
        let middle = wire.subrange(4, 14);
        lemma_uint_write(wire, 0, 1);
        lemma_uint_write(wire, 4, 10);
        let bits = Dac::parse(bytes).unwrap().bits();
        assert(bits == first + zeros(2) + seq![wire[3]] + middle + zeros(2));
        assert forall|i: int| 0 <= i < 16 implies bits[i] == wire[i] by {
            if i < 1 {
                assert(bits[i] == first[i]);
            } else if i < 3 {
                assert(bits[i] == zeros(2)[i - 1]);
            } else if i < 4 {
                assert(bits[i] == wire[3]);
            } else if i < 14 {
                assert(bits[i] == middle[i - 4]);
            } else {
                assert(bits[i] == zeros(2)[i - 14]);
            }
        }
        assert(bits =~= wire);
    }

    /// The frame that switches a channel on and sets it to a voltage, given in
    /// microvolts. Voltages above 10 V are limited to 10 V.
    pub fn new(channel: Channel, microvolts: u32) -> (dac: Dac)
        ensures
            dac == (Dac { channel: channel.index(), enabled: true, value: dac_value(microvolts) }),
            dac.fits(),
    {
        let limited: u64 = if microvolts > 10_000_000 {
            10_000_000
        } else {
            microvolts as u64
        };
        let value: u16 = (limited * 1023 / 10_000_000) as u16;
        let channel: u8 = match channel {
            Channel::A => 0,
            Channel::B => 1,
        };
        Dac { channel, enabled: true, value }
    }

    /// Encodes the structure.
    pub fn to_bytes(&self) -> (bytes: Vec<u8>)
        ensures
            bytes@ == self.wire(),
            bytes@.len() == 2,
    {
        proof {
            lemma_bytes_of_index(self.bits(), 0);
        }
        let mut bits: Vec<bool> = Vec::new();
        push_bits(&mut bits, self.channel as u16, 1);
        push_zeros(&mut bits, 2);
        bits.push(self.enabled);
        push_bits(&mut bits, self.value, 10);
        push_zeros(&mut bits, 2);
        assert(bits@ =~= self.bits());
        pack_bits(bits.as_slice())
    }

    /// Decodes the structure from exactly two bytes.
    pub fn from_bytes(bytes: &[u8]) -> (result: Result<Dac, PiXtendError>)
        ensures
            result == decoded(Dac::parse(bytes@)),
            result matches Ok(dac) ==> dac.fits(),
    {
        if bytes.len() != 2 {
            return Err(
                PiXtendError::BinaryFrameReadWriteError(
                    FrameError::UnexpectedLength { expected: 2, found: bytes.len() },
                ),
            );
        }
        let channel: u16 = field(bytes, 0, 1);
        let value: u16 = field(bytes, 4, 10);
        proof {
            lemma_bytes_of_bits_of(bytes@);
            lemma_uint_write(bits_of(bytes@), 0, 1);
            lemma_uint_write(bits_of(bytes@), 4, 10);
        }
        Ok(Dac { channel: channel as u8, enabled: bit(bytes, 3), value })
    }
}

impl Default for Dac {
    /// Channel A, switched off, at zero.
    fn default() -> (dac: Dac)
        ensures
            dac == (Dac { channel: 0, enabled: false, value: 0 }),
    {
        Dac { channel: 0, enabled: false, value: 0 }
    }
}

} // verus!
