//! The battery readout: charge level and charging state, from the system
//! power status.

use vstd::prelude::*;
use crate::error::{value_view, ReadoutError, ReadoutErrorView};
use crate::text::{decimal, decimal_digits};

verus! {

/// Whether the battery is being charged.
#[derive(Debug, Clone, Copy, PartialEq, Eq, Structural)]
pub enum BatteryState {
    Charging,
    Discharging,
}

/// The two fields of the system power status that the readout reads.
#[derive(Debug, Clone, Copy, PartialEq, Eq, Structural)]
pub struct SystemPowerStatus {
    /// 0 when the machine runs on battery, 1 when it is on mains power.
    pub ac_line_status: u8,
    /// The charge in percent, or 255 where there is no battery.
    pub battery_life_percent: u8,
}

/// The charge level that the system reports where there is no battery.
pub const NO_BATTERY: u8 = 255;

/// The highest charge level that is a percentage.
pub const FULL_CHARGE: u8 = 100;

/// The message of the failure when the power status could not be had.
pub open spec fn power_status_failed() -> Seq<char> {
    "Call to GetSystemPowerStatus failed."@
}

/// The message of the advisory for a machine without a battery.
pub open spec fn no_battery_message(percent: u8) -> Seq<char> {
    "Windows reported a battery percentage of "@ + decimal_digits(percent as nat)
        + ", which means there is no battery available. Are you on a desktop system?"@
}

/// The message of the failure for a charge level that is neither a
/// percentage nor the sign of a missing battery.
pub open spec fn unexpected_percentage_message(percent: u8) -> Seq<char> {
    "Unexpected value for battery_life_percent from win32 api: "@ + decimal_digits(percent as nat)
}

/// The message of the failure for a line status that is neither 0 nor 1.
pub open spec fn unexpected_line_status_message(line_status: u8) -> Seq<char> {
    "Unexpected value for ac_line_status from win32 api: "@ + decimal_digits(line_status as nat)
}

/// What the power status call gave: the status it filled in, or a failure
/// where the call reported none.
pub open spec fn spec_power_status(reported: Option<SystemPowerStatus>) -> Result<
    SystemPowerStatus,
    ReadoutErrorView,
> {
    match reported {
        Some(status) => Ok(status),
        None => Err(ReadoutErrorView::Other(power_status_failed())),
    }
}

/// The charge level: the reported percentage where it is one, an advisory
/// where the system signals a missing battery, a failure for anything else.
pub open spec fn spec_percentage(reported: Option<SystemPowerStatus>) -> Result<
    u8,
    ReadoutErrorView,
> {
    match spec_power_status(reported) {
        Ok(status) => {
            let percent = status.battery_life_percent;
            if percent <= FULL_CHARGE {
                Ok(percent)
            } else if percent == NO_BATTERY {
                Err(ReadoutErrorView::Warning(no_battery_message(percent)))
            } else {
                Err(ReadoutErrorView::Other(unexpected_percentage_message(percent)))
            }
        },
        Err(error) => Err(error),
    }
}

/// The charging state: discharging for line status 0, charging for 1, a
/// failure for anything else.
pub open spec fn spec_status(reported: Option<SystemPowerStatus>) -> Result<
    BatteryState,
    ReadoutErrorView,
> {
    match spec_power_status(reported) {
        Ok(status) => {
            if status.ac_line_status == 0 {
                Ok(BatteryState::Discharging)
            } else if status.ac_line_status == 1 {
                Ok(BatteryState::Charging)
            } else {
                Err(ReadoutErrorView::Other(unexpected_line_status_message(status.ac_line_status)))
            }
        },
        Err(error) => Err(error),
    }
}

/// Reads the battery of a Windows machine.
#[derive(Debug, Clone, Copy, PartialEq, Eq, Structural)]
pub struct WindowsBatteryReadout;

impl WindowsBatteryReadout {
    /// The readout. It keeps nothing: each accessor is given what it reads.
    pub fn new() -> (readout: Self) {
        WindowsBatteryReadout {  }
    }

    /// The charge level in percent, from what the power status call
    /// `reported` (`None` where the call failed).
    pub fn percentage(&self, reported: Option<SystemPowerStatus>) -> (result: Result<
        u8,
        ReadoutError,
    >)
        ensures
            value_view(result) == spec_percentage(reported),
            result matches Ok(percent) ==> percent <= FULL_CHARGE,
    {
        let power_state = match WindowsBatteryReadout::get_power_status(reported) {
            Ok(power_state) => power_state,
            Err(error) => {
                return Err(error);
            },
        };
        let percent = power_state.battery_life_percent;
        if percent <= FULL_CHARGE {
            Ok(percent)
        } else if percent == NO_BATTERY {
            let mut message = "Windows reported a battery percentage of ".to_owned();
            message.append(decimal(percent as u64).as_str());
            message.append(
                ", which means there is no battery available. Are you on a desktop system?",
            );
            Err(ReadoutError::Warning(message))
        } else {
            let mut message = "Unexpected value for battery_life_percent from win32 api: ".to_owned();
            message.append(decimal(percent as u64).as_str());
            Err(ReadoutError::Other(message))
        }
    }

    /// The charging state, from what the power status call `reported`
    /// (`None` where the call failed).
    pub fn status(&self, reported: Option<SystemPowerStatus>) -> (result: Result<
        BatteryState,
        ReadoutError,
    >)
        ensures
            value_view(result) == spec_status(reported),
    {
        let power_state = match WindowsBatteryReadout::get_power_status(reported) {
            Ok(power_state) => power_state,
            Err(error) => {
                return Err(error);
            },
        };
        let line_status = power_state.ac_line_status;
        if line_status == 0 {
            Ok(BatteryState::Discharging)
        } else if line_status == 1 {
            Ok(BatteryState::Charging)
        } else {
            let mut message = "Unexpected value for ac_line_status from win32 api: ".to_owned();
            message.append(decimal(line_status as u64).as_str());
            Err(ReadoutError::Other(message))
        }
    }

    /// The health of the battery, which this platform does not report.
    pub fn health(&self) -> (result: Result<u8, ReadoutError>)
        ensures
            result matches Err(ReadoutError::NotImplemented),
    {
        Err(ReadoutError::NotImplemented)
    }

    /// Turns what the power status call `reported` into the status or the
    /// failure of the call.
    pub fn get_power_status(reported: Option<SystemPowerStatus>) -> (result: Result<
        SystemPowerStatus,
        ReadoutError,
    >)
        ensures
            value_view(result) == spec_power_status(reported),
    {
        match reported {
            Some(power_state) => Ok(power_state),
            None => Err(ReadoutError::Other("Call to GetSystemPowerStatus failed.".to_owned())),
        }
    }
}

} // verus!
