//! The errors of the codec, of the configuration rules and of a communication
//! cycle.

use vstd::prelude::*;

verus! {

/// Why a byte sequence is no frame, or no part of one.
#[derive(Debug, Clone, Copy, PartialEq, Eq)]
pub enum FrameError {
    /// The byte sequence does not have the length of the structure.
    UnexpectedLength { expected: usize, found: usize },
    /// An output header does not start with the byte `'L'`; holds the byte found.
    MissingMagic(u8),
    /// The watchdog byte holds no known setting; holds the byte found.
    UnknownWatchdog(u8),
    /// The four error bits of the state byte hold no known code; holds the code.
    UnknownErrorCode(u8),
    /// The three prescaler bits of a PWM control byte hold no known setting;
    /// holds the setting found.
    UnknownPrescaler(u8),
}

/// Everything that can go wrong between the caller and the board, as far as it
/// is decided without the bus.
#[derive(Debug, Clone, Copy, PartialEq, Eq)]
pub enum PiXtendError {
    /// A byte sequence could not be read as a frame.
    BinaryFrameReadWriteError(FrameError),
    /// There is no digital output with this index (valid: 0 to 11).
    InvalidDigitalOutputIndex(u8),
    /// There is no digital debounce group with this index (valid: 0 to 7).
    InvalidDigitalDebounceGroup(u8),
    /// There is no relay with this index (valid: 0 to 3).
    InvalidRelayOutputIndex(u8),
    /// There is no GPIO with this index to configure or write (valid: 0 to 3).
    InvalidGpioOutputIndex(u8),
    /// A pull-up was asked for while pull-ups are not enabled globally.
    GpioPullupNotGloballyEnabled,
    /// The GPIO with this index is not configured as an output.
    GpioNotConfiguredAsOutput(u8),
    /// The GPIO with this index is not configured for the kind of reading asked for.
    GpioNotConfiguredAsInput(u8),
    /// There is no GPIO debounce group with this index (valid: 0 and 1).
    InvalidGpioDebounceGroup(u8),
    /// Retain data of this length does not fit into the 64 bytes of retain memory.
    InvalidRetainDataLength(usize),
    /// Retain data was written while retain is not enabled globally.
    RetainDataNotGloballyEnabled,
    /// The bus handed back this many bytes instead of a whole frame.
    InvalidSpiResponseLength(usize),
    /// The board is no PiXtend L, or reports that it was addressed as another model.
    PiXtendModelMismatch,
    /// A checksum of the received frame does not match its content.
    InputCrcError,
    /// The board reports a checksum error in the frame it was sent.
    OutputCrcError,
    /// The board reports that the bus clock is too fast.
    SPIFrequencyTooHigh,
    /// The board reports that it received too few bytes.
    DataBlockTooShort,
    /// The board has left the running state; it has to be restarted.
    NotReadyForCommunication,
    /// No frame has been received yet.
    NoInputDataAvailable,
    /// There is no digital input with this index (valid: 0 to 15).
    InvalidDigitalInputIndex(u8),
    /// There is no analog voltage input with this index (valid: 0 to 3).
    InvalidAnalogVoltageInputIndex(u8),
    /// There is no analog current input with this index (valid: 4 and 5).
    InvalidAnalogCurrentInputIndex(u8),
    /// There is no GPIO with this index to read (valid: 0 to 3).
    InvalidGpioInputIndex(u8),
    /// There is no PWM group with this index (valid: 0 to 2).
    InvalidPwmOutputGroupIndex(u8),
    /// One-wire sensors and PWM outputs cannot be active at the same time.
    PwmAndDhtExclusive,
    /// The PWM group with this index is not in servo mode.
    PwmNotConfiguredAsServo(u8),
    /// The PWM group with this index has no duty cycle to set on that channel.
    PwmNotConfiguredForDutyCycle(u8),
    /// The PWM group with this index is not in frequency mode.
    PwmNotConfiguredAsFrequency(u8),
}

/// What a decoder returns for the outcome of parsing.
pub open spec fn decoded<T>(parsed: Result<T, FrameError>) -> Result<T, PiXtendError> {
    match parsed {
        Ok(value) => Ok(value),
        Err(error) => Err(PiXtendError::BinaryFrameReadWriteError(error)),
    }
}

} // verus!
