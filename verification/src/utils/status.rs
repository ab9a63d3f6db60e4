//! Settings summarised for the operator when a driver starts.
use vstd::prelude::*;

verus! {

/// Unit in which a temperature is reported.
#[derive(Clone, Copy, Debug, PartialEq, Eq, Structural)]
pub enum TemperatureUnit {
    Celsius,
    Fahrenheit,
}

impl TemperatureUnit {
    /// The unit selected by the operator's Fahrenheit switch.
    pub fn from_flag(fahrenheit: bool) -> (unit: TemperatureUnit)
        ensures
            unit == Self::of_flag(fahrenheit),
    {
        if fahrenheit {
            TemperatureUnit::Fahrenheit
        } else {
            TemperatureUnit::Celsius
        }
    }

    /// The unit selected by the operator's Fahrenheit switch.
    pub open spec fn of_flag(fahrenheit: bool) -> TemperatureUnit {
        if fahrenheit {
            TemperatureUnit::Fahrenheit
        } else {
            TemperatureUnit::Celsius
        }
    }

    /// The unit byte of a status report: 0 for Celsius, 1 for Fahrenheit.
    pub open spec fn flag_spec(self) -> u8 {
        match self {
            TemperatureUnit::Celsius => 0,
            TemperatureUnit::Fahrenheit => 1,
        }
    }

    /// The unit byte of a status report: 0 for Celsius, 1 for Fahrenheit.
    pub fn flag(&self) -> (b: u8)
        ensures
            b == self.flag_spec(),
    {
        match self {
            TemperatureUnit::Celsius => 0,
            TemperatureUnit::Fahrenheit => 1,
        }
    }

    /// The unit's printed symbol.
    pub fn symbol(&self) -> (s: &'static str)
        ensures
            *self == TemperatureUnit::Celsius ==> s@ == "°C"@,
            *self == TemperatureUnit::Fahrenheit ==> s@ == "°F"@,
    {
        match self {
            TemperatureUnit::Celsius => "°C",
            TemperatureUnit::Fahrenheit => "°F",
        }
    }
}

/// Whether the over-temperature alarm of a device is armed.
#[derive(Clone, Copy, Debug, PartialEq, Eq, Structural)]
pub enum AlarmState {
    Auto,
    On,
    Off,
    NotSupported,
}

/// Alarm setting of a device together with the temperature that trips it.
#[derive(Clone, Copy, Debug, PartialEq, Eq, Structural)]
pub struct Alarm {
    pub state: AlarmState,
    pub temp_limit: u8,
}

impl Alarm {
    /// Whether a status summary shows the temperature limit: only an armed
    /// alarm has one to show.
    pub fn shows_limit(&self) -> (shown: bool)
        ensures
            shown == (self.state == AlarmState::Auto || self.state == AlarmState::On),
    {
        match self.state {
            AlarmState::Auto => true,
            AlarmState::On => true,
            AlarmState::Off => false,
            AlarmState::NotSupported => false,
        }
    }
}

} // verus!
