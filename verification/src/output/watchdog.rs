//! The watchdog setting of the output header.

use crate::error::{decoded, FrameError, PiXtendError};
use vstd::prelude::*;

verus! {

/// How long the board waits for the next valid frame before it puts itself into
/// the safe state. A frame that fails its checksums counts as no frame.
#[derive(Debug, Clone, Copy, PartialEq, Eq)]
pub enum Watchdog {
    Deactivated,
    Activated16ms,
    Activated32ms,
    Activated64ms,
    Activated0_125s,
    Activated0_25s,
    Activated0_5s,
    Activated1s,
    Activated2s,
    Activated4s,
    Activated8s,
}

impl Watchdog {
    /// The number that stands for the setting on the wire.
    pub open spec fn id(self) -> u8 {
        match self {
            Watchdog::Deactivated => 0,
            Watchdog::Activated16ms => 1,
            Watchdog::Activated32ms => 2,
            Watchdog::Activated64ms => 3,
            Watchdog::Activated0_125s => 4,
            Watchdog::Activated0_25s => 5,
            Watchdog::Activated0_5s => 6,
            Watchdog::Activated1s => 7,
            Watchdog::Activated2s => 8,
            Watchdog::Activated4s => 9,
            Watchdog::Activated8s => 10,
        }
    }

    /// The setting that a number stands for, if any.
    pub open spec fn of_id(id: u8) -> Option<Watchdog> {
        if id == 0 {
            Some(Watchdog::Deactivated)
        } else if id == 1 {
            Some(Watchdog::Activated16ms)
        } else if id == 2 {
            Some(Watchdog::Activated32ms)
        } else if id == 3 {
            Some(Watchdog::Activated64ms)
        } else if id == 4 {
            Some(Watchdog::Activated0_125s)
        } else if id == 5 {
            Some(Watchdog::Activated0_25s)
        } else if id == 6 {
            Some(Watchdog::Activated0_5s)
        } else if id == 7 {
            Some(Watchdog::Activated1s)
        } else if id == 8 {
            Some(Watchdog::Activated2s)
        } else if id == 9 {
            Some(Watchdog::Activated4s)
        } else if id == 10 {
            Some(Watchdog::Activated8s)
        } else {
            None
        }
    }

    /// The bytes that the setting is sent as: its number, in one byte.
    pub open spec fn wire(self) -> Seq<u8> {
        seq![self.id()]
    }

    /// The setting that a byte sequence is read as.
    pub open spec fn parse(bytes: Seq<u8>) -> Result<Watchdog, FrameError> {
        if bytes.len() != 1 {
            Err(FrameError::UnexpectedLength { expected: 1, found: bytes.len() as usize })
        } else {
            match Watchdog::of_id(bytes[0]) {
                Some(watchdog) => Ok(watchdog),
                None => Err(FrameError::UnknownWatchdog(bytes[0])),
            }
        }
    }

    /// Whether a byte sequence is one that a setting is sent as.
    pub open spec fn canonical(bytes: Seq<u8>) -> bool {
        bytes.len() == 1 && bytes[0] <= 10
    }

    /// Every setting has a number of its own, and a number stands for at most
    /// one setting.
    pub proof fn lemma_id_injective(self, id: u8)
        ensures
            self.id() <= 10,
            Watchdog::of_id(self.id()) == Some(self),
            Watchdog::of_id(id) == Some(self) ==> id == self.id(),
    {
    }

    /// Reading what was written gives the setting back.
    pub proof fn lemma_parse_wire(self)
        ensures
            self.wire().len() == 1,
            Watchdog::canonical(self.wire()),
            Watchdog::parse(self.wire()) == Ok::<Watchdog, FrameError>(self),
    {
    }

    /// Writing what was read from a canonical byte sequence gives the bytes back.
    pub proof fn lemma_wire_parse(bytes: Seq<u8>)
        requires
            Watchdog::canonical(bytes),
        ensures
            Watchdog::parse(bytes) is Ok,
            Watchdog::parse(bytes).unwrap().wire() == bytes,
    {
        assert(Watchdog::parse(bytes).unwrap().wire() =~= bytes);
    }

    /// The number that stands for the setting on the wire.
    pub fn to_id(&self) -> (id: u8)
        ensures
            id == self.id(),
    {
        match self {
            Watchdog::Deactivated => 0,
            Watchdog::Activated16ms => 1,
            Watchdog::Activated32ms => 2,
            Watchdog::Activated64ms => 3,
            Watchdog::Activated0_125s => 4,
            Watchdog::Activated0_25s => 5,
            Watchdog::Activated0_5s => 6,
            Watchdog::Activated1s => 7,
            Watchdog::Activated2s => 8,
            Watchdog::Activated4s => 9,
            Watchdog::Activated8s => 10,
        }
    }

    /// The setting that a number stands for; `None` for the numbers that stand
    /// for none.
    pub fn from_id(id: u8) -> (watchdog: Option<Watchdog>)
        ensures
            watchdog == Watchdog::of_id(id),
    {
        match id {
            0 => Some(Watchdog::Deactivated),
            1 => Some(Watchdog::Activated16ms),
            2 => Some(Watchdog::Activated32ms),
            3 => Some(Watchdog::Activated64ms),
            4 => Some(Watchdog::Activated0_125s),
            5 => Some(Watchdog::Activated0_25s),
            6 => Some(Watchdog::Activated0_5s),
            7 => Some(Watchdog::Activated1s),
            8 => Some(Watchdog::Activated2s),
            9 => Some(Watchdog::Activated4s),
            10 => Some(Watchdog::Activated8s),
            _ => None,
        }
    }

    /// Encodes the setting.
    pub fn to_bytes(&self) -> (bytes: Vec<u8>)
        ensures
            bytes@ == self.wire(),
            bytes@.len() == 1,
    {
        let mut bytes: Vec<u8> = Vec::new();
        bytes.push(self.to_id());
        assert(bytes@ =~= self.wire());
        bytes
    }

    /// Decodes the setting from exactly one byte.
    pub fn from_bytes(bytes: &[u8]) -> (result: Result<Watchdog, PiXtendError>)
        ensures
            result == decoded(Watchdog::parse(bytes@)),
    {
        if bytes.len() != 1 {
            return Err(
                PiXtendError::BinaryFrameReadWriteError(
                    FrameError::UnexpectedLength { expected: 1, found: bytes.len() },
                ),
            );
        }
        match Watchdog::from_id(bytes[0]) {
            Some(watchdog) => Ok(watchdog),
            None => Err(
                PiXtendError::BinaryFrameReadWriteError(FrameError::UnknownWatchdog(bytes[0])),
            ),
        }
    }
}

impl Default for Watchdog {
    /// The watchdog is off until it is set.
    fn default() -> (watchdog: Watchdog)
        ensures
            watchdog == Watchdog::Deactivated,
    {
        Watchdog::Deactivated
    }
}

} // verus!
