//! Control core of a soldering station: tool identification, sensor
//! conversion, a cascaded temperature/current controller and the decisions of
//! the control loop, all in fixed-point integer units.

use vstd::prelude::*;

pub mod control;
pub mod display;
pub mod error;
pub mod library;
pub mod pid;
pub mod protocol;
pub mod resources;
pub mod sensors;
pub mod supply;
pub mod tool;

verus! {

/// Auto-sleep modes.
#[derive(Debug, Clone, Copy, PartialEq, Eq, Structural)]
pub enum AutoSleep {
    /// The tool goes to sleep after the specified number of seconds in the stand.
    AfterDurationS(u16),
    /// The tool never goes to sleep in the stand.
    Never,
}

/// Persistent storage data.
#[derive(Debug, Clone, Copy, PartialEq, Eq, Structural)]
pub struct Persistent {
    /// The max. set temperature if the tool is in its stand.
    pub stand_temperature_deg_c: i16,
    /// The operational temperature set point in °C.
    pub set_temperature_deg_c: i16,
    /// Current margin to leave until max. supply current in mA.
    pub current_margin_ma: u16,
    /// Auto-sleep behaviour when the tool is in the stand.
    pub auto_sleep: AutoSleep,
    /// If true, display is rotated 180°.
    pub display_is_rotated: bool,
    /// If true, start the controller with heating switched off after power on.
    pub off_on_power: bool,
    /// If true, switch off heating when the tip or iron was removed/changed.
    pub off_on_change: bool,
}

impl Persistent {
    /// Default persistent settings.
    pub fn default() -> (r: Persistent)
        ensures
            r == (Persistent {
                stand_temperature_deg_c: 180,
                set_temperature_deg_c: 300,
                current_margin_ma: 200,
                auto_sleep: AutoSleep::AfterDurationS(600),
                display_is_rotated: false,
                off_on_power: false,
                off_on_change: false,
            }),
    {
        Persistent {
            stand_temperature_deg_c: 180,
            set_temperature_deg_c: 300,
            current_margin_ma: 200,
            auto_sleep: AutoSleep::AfterDurationS(600),
            display_is_rotated: false,
            off_on_power: false,
            off_on_change: false,
        }
    }
}

/// The state of the setup menu.
#[derive(Debug, Clone, Copy, PartialEq, Eq, Structural)]
pub struct MenuState {
    /// The menu is currently open.
    pub is_open: bool,
    /// An item was toggled and evaluation is pending.
    pub toggle_pending: bool,
}

/// The operational state of the soldering station (not persistent).
#[derive(Debug, Clone, Copy, PartialEq, Eq)]
pub struct OperationalState {
    /// The state of the control menu.
    pub menu_state: MenuState,
    /// The tool's name, or a tool error.
    pub tool: Result<&'static str, error::Error>,
    /// The state of the tool (e.g. active, in stand).
    pub tool_state: Option<tool::ToolState>,
    /// If true, the tool is off (manual sleep).
    pub tool_is_off: bool,
    /// If true, the new set temperature was not confirmed yet.
    pub set_temperature_is_pending: bool,
    /// The power in milliwatt that the supply has agreed to give, once a tool runs on it.
    pub negotiated_power_mw: Option<u64>,
}

impl OperationalState {
    /// The operational state at startup: menu closed, no tool, heating off.
    pub fn default() -> (r: OperationalState)
        ensures
            r == (OperationalState {
                menu_state: MenuState { is_open: false, toggle_pending: false },
                tool: Err(error::Error::NoTool),
                tool_state: None,
                tool_is_off: true,
                set_temperature_is_pending: false,
                negotiated_power_mw: None,
            }),
    {
        OperationalState {
            menu_state: MenuState { is_open: false, toggle_pending: false },
            tool: Err(error::Error::NoTool),
            tool_state: None,
            tool_is_off: true,
            set_temperature_is_pending: false,
            negotiated_power_mw: None,
        }
    }
}

} // verus!
