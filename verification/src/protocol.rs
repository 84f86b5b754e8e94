//! The records that the control loop publishes: measurements and status.

use vstd::prelude::*;
use crate::error::Error;
use crate::library::PidParameters;
use crate::pid::ControlOutput;

verus! {

/// Periodic measurement data.
#[derive(Debug, Clone, Copy, PartialEq, Eq, Structural)]
pub struct Measurement {
    /// Timestamp in milliseconds of the measurement.
    pub time_ms: u64,
    /// Terms and total output of the temperature controller, in microampere;
    /// none while the heater is not driven.
    pub pid_state: Option<ControlOutput>,
    /// The set temperature in thousandths of a degree Celsius.
    pub set_temperature_mdeg: Option<i64>,
    /// The tool temperature in thousandths of a degree Celsius.
    pub temperature_mdeg: Option<i64>,
}

/// The state of the tool, as published.
#[derive(Debug, Clone, Copy, PartialEq, Eq, Structural)]
pub enum ToolState {
    /// The tool is active, with the gains of its temperature controller.
    Active(PidParameters),
    /// The tool was placed in its stand at the recorded timestamp in ms.
    InStand(u64),
    /// The tool was automatically switched to sleep mode.
    Sleeping,
}

/// State of the iron control.
#[derive(Debug, Clone, Copy, PartialEq, Eq, Structural)]
pub enum ControlState {
    /// No tool is present.
    NoTool,
    /// A tool is present, but no tip.
    NoTip,
    /// The tool is not known.
    UnknownTool,
    /// Tool mismatch during execution of the control loop.
    ToolMismatch,
    /// A tool is present (with state).
    Tool(ToolState),
}

/// Device status info.
#[derive(Debug, Clone, Copy, PartialEq, Eq, Structural)]
pub struct Status {
    /// Timestamp in milliseconds of the status message.
    pub time_ms: u64,
    /// The state of the tool control.
    pub control_state: ControlState,
}

impl ControlState {
    /// The published state that stands for an error.
    pub open spec fn of_error(error: Error) -> ControlState {
        match error {
            Error::NoTool => ControlState::NoTool,
            Error::NoTip => ControlState::NoTip,
            Error::UnknownTool => ControlState::UnknownTool,
            Error::ToolMismatch => ControlState::ToolMismatch,
        }
    }

    /// Maps an error to the state that is published for it.
    pub fn from_error(error: Error) -> (r: ControlState)
        ensures
            r == ControlState::of_error(error),
    {
        match error {
            Error::NoTool => ControlState::NoTool,
            Error::NoTip => ControlState::NoTip,
            Error::UnknownTool => ControlState::UnknownTool,
            Error::ToolMismatch => ControlState::ToolMismatch,
        }
    }
}

} // verus!
