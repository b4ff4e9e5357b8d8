//! What a PWM group is used for.

use crate::output::pwm::{PwmMode, PwmPrescaler};
use vstd::prelude::*;

verus! {

/// The configuration of one PWM group, which has two channels, A and B.
///
/// The frequency of a channel is `prescaler / 2 / value`, where `prescaler` is
/// the base frequency that the prescaler names and `value` is the `frequency`
/// given here or, in frequency mode, the value of the channel. A caller who
/// wants a certain frequency works out the value: for 1 Hz from a prescaler of
/// 62.5 kHz, the value is 31250.
#[derive(Debug, Clone, Copy, PartialEq, Eq)]
pub enum PwmConfig {
    /// PWM is deactivated
    Deactivated,
    /// Both channels drive servos at 50 Hz; the channel values are positions.
    Servo { channel_a: bool, channel_b: bool },
    /// A duty cycle group can set individual duty cycles for channel A and B, but
    /// they share the same frequency.
    DutyCycle { prescaler: PwmPrescaler, frequency: u16, channel_a: bool, channel_b: bool },
    /// A universal group can only configure frequency and duty cycle of channel
    /// A, while channel B always has 50% duty cycle and half the frequency of
    /// channel A.
    Universal {
        prescaler: PwmPrescaler,
        frequency: u16,
        duty_cycle: u16,
        channel_a: bool,
        channel_b: bool,
    },
    /// A frequency group can set individual frequencies for channel A and B, but
    /// they both have a duty cycle of 50%.
    Frequency { prescaler: PwmPrescaler, channel_a: bool, channel_b: bool },
}

impl PwmConfig {
    /// Whether the group does anything at all. While any group does, no GPIO
    /// can be a sensor input.
    pub open spec fn active(self) -> bool {
        self != PwmConfig::Deactivated
    }

    /// The mode bits that the configuration is sent with. A deactivated group is
    /// sent as a servo group without channels.
    pub open spec fn mode(self) -> PwmMode {
        match self {
            PwmConfig::Deactivated => PwmMode::Servo,
            PwmConfig::Servo { .. } => PwmMode::Servo,
            PwmConfig::DutyCycle { .. } => PwmMode::DutyCycle,
            PwmConfig::Universal { .. } => PwmMode::Universal,
            PwmConfig::Frequency { .. } => PwmMode::Frequency,
        }
    }

    /// The prescaler that the configuration is sent with: its own where it has
    /// one, and none for a deactivated group and for servos.
    pub open spec fn prescaler(self) -> PwmPrescaler {
        match self {
            PwmConfig::Deactivated => PwmPrescaler::Deactivated,
            PwmConfig::Servo { .. } => PwmPrescaler::Deactivated,
            PwmConfig::DutyCycle { prescaler, .. } => prescaler,
            PwmConfig::Universal { prescaler, .. } => prescaler,
            PwmConfig::Frequency { prescaler, .. } => prescaler,
        }
    }

    /// Whether channel A is switched on.
    pub open spec fn channel_a(self) -> bool {
        match self {
            PwmConfig::Deactivated => false,
            PwmConfig::Servo { channel_a, .. } => channel_a,
            PwmConfig::DutyCycle { channel_a, .. } => channel_a,
            PwmConfig::Universal { channel_a, .. } => channel_a,
            PwmConfig::Frequency { channel_a, .. } => channel_a,
        }
    }

    /// Whether channel B is switched on.
    pub open spec fn channel_b(self) -> bool {
        match self {
            PwmConfig::Deactivated => false,
            PwmConfig::Servo { channel_b, .. } => channel_b,
            PwmConfig::DutyCycle { channel_b, .. } => channel_b,
            PwmConfig::Universal { channel_b, .. } => channel_b,
            PwmConfig::Frequency { channel_b, .. } => channel_b,
        }
    }

    /// The frequency divisor that the two modes with a shared frequency are sent
    /// with; zero for the others.
    pub open spec fn frequency(self) -> u16 {
        match self {
            PwmConfig::DutyCycle { frequency, .. } => frequency,
            PwmConfig::Universal { frequency, .. } => frequency,
            _ => 0,
        }
    }
}

impl Default for PwmConfig {
    /// A group is deactivated until it is configured.
    fn default() -> (config: PwmConfig)
        ensures
            config == PwmConfig::Deactivated,
    {
        PwmConfig::Deactivated
    }
}

} // verus!
