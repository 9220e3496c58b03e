//! The persisted user preferences: last-known power, brightness and
//! temperature, in device units. Reading and writing the configuration
//! file is the surrounding program's business; this core only fixes the
//! shape and the startup defaults.

use vstd::prelude::*;

use crate::protocol::{MAX_BRIGHTNESS, MAX_TEMPERATURE, MIN_BRIGHTNESS, MIN_TEMPERATURE};

verus! {

/// Last-known device settings, loaded at startup and saved on change.
#[derive(Debug, Clone, Copy, PartialEq, Eq)]
pub struct Config {
    pub power: bool,
    pub brightness: u16,
    pub temperature: u16,
}

impl Default for Config {
    /// The settings assumed when nothing was persisted: power off, and
    /// brightness and temperature at the middle of the device's range.
    fn default() -> (c: Config)
        ensures
            !c.power,
            c.brightness == (MIN_BRIGHTNESS + MAX_BRIGHTNESS) / 2,
            c.temperature == (MIN_TEMPERATURE + MAX_TEMPERATURE) / 2,
    {
        Config {
            power: false,
            brightness: (MIN_BRIGHTNESS + MAX_BRIGHTNESS) / 2,
            temperature: (MIN_TEMPERATURE + MAX_TEMPERATURE) / 2,
        }
    }
}

} // verus!
