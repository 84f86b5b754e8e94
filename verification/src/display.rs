//! What the control loop asks the display to show.

use vstd::prelude::*;
use crate::error::Error;

verus! {

/// A request to the display.
#[derive(Debug, Clone, Copy, PartialEq, Eq)]
pub struct DisplayUpdate {
    /// The message to show.
    pub message: &'static str,
    /// If true, the power bar graph is blanked.
    pub blank_power: bool,
    /// If true, the temperature reading is blanked.
    pub blank_temperature: bool,
}

/// Displays a message.
pub fn show_message(message: &'static str) -> (r: DisplayUpdate)
    ensures
        r == (DisplayUpdate { message, blank_power: false, blank_temperature: false }),
{
    DisplayUpdate { message, blank_power: false, blank_temperature: false }
}

/// Displays a message, while being idle (not heating): power and
/// temperature are blanked.
pub fn show_idle_message(message: &'static str) -> (r: DisplayUpdate)
    ensures
        r == (DisplayUpdate { message, blank_power: true, blank_temperature: true }),
{
    let shown = show_message(message);
    DisplayUpdate { message: shown.message, blank_power: true, blank_temperature: true }
}

/// The message that stands for an error.
pub open spec fn message_of(error: Error) -> &'static str {
    match error {
        Error::NoTool => "No tool",
        Error::NoTip => "No tip",
        Error::UnknownTool => "Unknown",
        Error::ToolMismatch => "",
    }
}

/// Displays an error: its message, with power and temperature blanked.
pub fn show_error(error: Error) -> (r: DisplayUpdate)
    ensures
        r == (DisplayUpdate {
            message: message_of(error),
            blank_power: true,
            blank_temperature: true,
        }),
{
    match error {
        Error::NoTool => show_idle_message("No tool"),
        Error::NoTip => show_idle_message("No tip"),
        Error::UnknownTool => show_idle_message("Unknown"),
        Error::ToolMismatch => show_idle_message(""),
    }
}

} // verus!
