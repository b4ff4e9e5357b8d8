//! What a GPIO is used for.

use vstd::prelude::*;

verus! {

/// GPIO configuration options
#[derive(Debug, Clone, Copy, PartialEq, Eq)]
pub enum GpioConfig {
    /// GPIO Input with optional pullup resistor
    Input(bool),
    /// GPIO Output
    Output,
    /// 1 Wire sensor mode for DHT11, DHT22, AM2302
    Sensor,
}

impl Default for GpioConfig {
    /// A GPIO is an input without a pull-up until it is configured otherwise.
    fn default() -> (config: GpioConfig)
        ensures
            config == GpioConfig::Input(false),
    {
        GpioConfig::Input(false)
    }
}

} // verus!
