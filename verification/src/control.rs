//! The decisions of the control loop.
//!
//! The platform layer runs the loop: it performs an action (it samples,
//! waits, and writes the hardware settings kept here to the hardware) and
//! hands back the event, on which `Control::step` decides the next action.
//! One iteration of the outer loop is `detect_tool`, then `decide`, then
//! either `idle_step` or `begin_heating` followed by one `current_loop_step`
//! per event of the inner loop. An error ends the session through
//! `handle_error`.

use vstd::prelude::*;
use crate::error::Error;
use crate::library::{first_match, supported_tools};
use crate::pid::Pid;
use crate::protocol::{ControlState, Measurement, Status};
use crate::resources::{
    duty_of, limit_setting, TipTest, ToolResources, PEAK_CURRENT_LIMIT_UA,
    TIP_TEST_CURRENT_LIMIT_UA, TIP_TEST_PWM_RATIO, TIP_TEST_TIMEOUT_US,
};
use crate::sensors::{
    detect_ratio_of, measure_tool, potential_of, RawToolMeasurement, ToolPowerMeasurement,
    MAX_ADC_RATIO_PPM,
};
use crate::supply::Supply;
use crate::tool::{next_tool_state, Tool, ToolState};
use crate::{AutoSleep, OperationalState, Persistent};

verus! {

/// The number of current control iterations per temperature control iteration.
pub const CURRENT_CONTROL_CYCLE_COUNT: u8 = 5;

/// The total loop period in ms (temperature loop).
pub const LOOP_PERIOD_MS: u64 = 100;

/// The current loop period in ms.
pub const CURRENT_LOOP_PERIOD_MS: u64 = 20;

/// Settling time of the temperature input's filter before each measurement, in ms.
pub const SETTLING_TIME_MS: u64 = 1;

/// The time to wait after an error before control starts again, in ms.
pub const ERROR_BACKOFF_MS: u64 = 100;

/// What an iteration of the outer loop does after detection.
#[derive(Debug, Clone, Copy, PartialEq, Eq, Structural)]
pub enum Decision {
    /// No set temperature is available: nothing is done.
    Skip,
    /// The tool is off or asleep: the heater is not driven.
    Idle {
        /// The effective set temperature in millidegrees.
        set_temperature_mdeg: i64,
        /// The status to publish.
        status: Status,
    },
    /// The heater is driven towards the set temperature.
    Heat {
        /// The effective set temperature in millidegrees.
        set_temperature_mdeg: i64,
        /// The status to publish.
        status: Status,
    },
}

/// What the platform reports at the end of an inner loop iteration.
#[derive(Debug, Clone, Copy, PartialEq, Eq, Structural)]
pub enum CurrentLoopEvent {
    /// The power was measured in the middle of the iteration, and the
    /// iteration's period has passed.
    Measured(ToolPowerMeasurement),
    /// The over-current interrupt fired first.
    CurrentAlert,
}

/// What the platform does after an inner loop event.
#[derive(Debug, Clone, Copy, PartialEq, Eq, Structural)]
pub enum CurrentLoopAction {
    /// Run another iteration with the duty cycle now set.
    Continue,
    /// The inner loop is over; the heater is off.
    Done,
}

/// What the control loop waits for.
#[derive(Debug, Clone, Copy, PartialEq, Eq, Structural)]
pub enum Phase {
    /// The session starts: the idle power is being measured.
    Starting,
    /// The tool is being measured.
    MeasuringTool,
    /// The stand input is being read.
    ReadingStand {
        /// The tool measurement of this iteration.
        tool_measurement: RawToolMeasurement,
    },
    /// The tip test is under way.
    TestingTip {
        /// The tool measurement of this iteration.
        tool_measurement: RawToolMeasurement,
        /// True if the tool is in its stand.
        tool_in_stand: bool,
        /// What the end of the test puts back.
        test: TipTest,
    },
    /// The idle branch: the power is being measured, with the heater off.
    Idling {
        /// The effective set temperature in millidegrees.
        set_temperature_mdeg: i64,
    },
    /// The inner loop is running.
    Heating,
    /// The session has ended with an error; the backoff time is running.
    Failed,
}

/// What the platform reports after it has performed an action.
#[derive(Debug, Clone, Copy, PartialEq, Eq, Structural)]
pub enum Event {
    /// The power was measured.
    Power(ToolPowerMeasurement),
    /// The tool was sampled.
    ToolSamples {
        /// The sample of the detection input.
        detect_value: u16,
        /// The sample of the thermocouple input.
        temperature_value: u16,
    },
    /// The stand input was read; true if the tool is in its stand.
    Stand(bool),
    /// The wait for the over-current edge of the tip test is over; true if
    /// the edge came within the timeout.
    TipTest(bool),
    /// The over-current interrupt fired during an inner loop iteration.
    CurrentAlert,
    /// The time to wait has passed.
    Elapsed,
}

/// What the platform does next. Before each action it writes the hardware
/// settings of the control to the hardware.
#[derive(Debug, Clone, Copy, PartialEq, Eq, Structural)]
pub enum Action {
    /// Measure the power, then wait; reported as `Event::Power`.
    MeasurePower {
        /// The time to wait after the measurement, in ms.
        then_wait_ms: u64,
    },
    /// Let the input settle, then sample the tool; reported as `Event::ToolSamples`.
    MeasureTool {
        /// The settling time in ms.
        settle_ms: u64,
    },
    /// Read the stand input; reported as `Event::Stand`.
    ReadStand,
    /// Wait for the over-current edge, no longer than the timeout; reported as `Event::TipTest`.
    AwaitAlert {
        /// The timeout in microseconds.
        timeout_us: u64,
    },
    /// Run one iteration of the inner loop: measure the power in the middle
    /// of the period and wait for its end, unless the over-current interrupt
    /// fires first; reported as `Event::Power` or `Event::CurrentAlert`.
    RunCurrentCycle {
        /// The time from the start of the period to the measurement, in ms.
        measure_after_ms: u64,
        /// The period in ms.
        period_ms: u64,
    },
    /// Wait; reported as `Event::Elapsed`.
    Wait {
        /// The time to wait in ms.
        ms: u64,
    },
}

/// The outcome of a step of the control loop.
#[derive(Debug, Clone, Copy, PartialEq, Eq, Structural)]
pub struct Step {
    /// What the platform does next.
    pub action: Action,
    /// The status to publish, if any.
    pub status: Option<Status>,
    /// The measurement to publish, if any.
    pub measurement: Option<Measurement>,
}

/// A step that publishes nothing.
pub open spec fn quiet(action: Action) -> Step {
    Step { action, status: None, measurement: None }
}

/// The action that starts an iteration of the outer loop.
pub open spec fn measure_tool_action() -> Action {
    Action::MeasureTool { settle_ms: SETTLING_TIME_MS }
}

/// The action that runs an iteration of the inner loop.
pub open spec fn current_cycle_action() -> Action {
    Action::RunCurrentCycle {
        measure_after_ms: CURRENT_LOOP_PERIOD_MS / 2,
        period_ms: CURRENT_LOOP_PERIOD_MS,
    }
}

/// What the idle branch publishes.
#[derive(Debug, Clone, Copy, PartialEq, Eq, Structural)]
pub struct IdleReport {
    /// The measurement record, without controller terms.
    pub measurement: Measurement,
    /// The compensated power reading.
    pub power: ToolPowerMeasurement,
}

/// The set temperature in millidegrees for a setting in degrees.
pub open spec fn mdeg_of(deg_c: i16) -> i64 {
    (deg_c * 1_000) as i64
}

/// The set temperature that is in effect: in the stand the lower of the
/// stand temperature and the operational temperature, else the operational
/// temperature.
pub open spec fn effective_set_temperature(
    in_stand: bool,
    stand_temperature_mdeg: i64,
    operational_temperature_mdeg: Option<i64>,
) -> Option<i64> {
    if in_stand {
        match operational_temperature_mdeg {
            Some(operational) => if operational < stand_temperature_mdeg {
                Some(operational)
            } else {
                Some(stand_temperature_mdeg)
            },
            None => Some(stand_temperature_mdeg),
        }
    } else {
        operational_temperature_mdeg
    }
}

/// The status that is published for a tool.
pub open spec fn status_of(tool: Tool, now_ms: u64) -> Status {
    Status {
        time_ms: now_ms,
        control_state: ControlState::Tool(
            match tool.state {
                ToolState::Active => crate::protocol::ToolState::Active(
                    tool.properties.pid_parameters,
                ),
                ToolState::InStand(since_ms) => crate::protocol::ToolState::InStand(since_ms),
                ToolState::Sleeping => crate::protocol::ToolState::Sleeping,
            },
        ),
    }
}

/// The branch that the outer loop takes: none without a set temperature, the
/// idle branch if the tool is switched off or asleep, else heating.
pub open spec fn decision_of(
    tool: Tool,
    tool_is_off: bool,
    set_temperature_mdeg: Option<i64>,
    now_ms: u64,
) -> Decision {
    match set_temperature_mdeg {
        None => Decision::Skip,
        Some(set_temperature_mdeg) => if tool_is_off || tool.state == ToolState::Sleeping {
            Decision::Idle { set_temperature_mdeg, status: status_of(tool, now_ms) }
        } else {
            Decision::Heat { set_temperature_mdeg, status: status_of(tool, now_ms) }
        },
    }
}

/// Top-level iron temperature and current control.
#[derive(Debug, Clone, Copy, PartialEq, Eq)]
pub struct Control {
    /// The tool to control.
    pub tool: Option<Tool>,
    /// The settings of the heater's hardware.
    pub tool_resources: ToolResources,
    /// Power supply properties.
    pub supply: Supply,
    /// The set temperature of the tool when in use (not in the stand), in millidegrees.
    pub operational_temperature_mdeg: Option<i64>,
    /// The power measured while the heater was off, for offset compensation.
    pub idle_power: ToolPowerMeasurement,
    /// The number of inner loop iterations that are left in this outer iteration.
    pub remaining_cycles: u8,
    /// What the control loop waits for.
    pub phase: Phase,
}

impl Control {
    /// The tool, if there is one, and the hardware settings are well-formed;
    /// while the heater may be driven there is a tool; what a tip test puts
    /// back is well-formed, too.
    pub open spec fn wf(&self) -> bool {
        &&& self.tool.is_some() ==> self.tool.unwrap().wf()
        &&& self.tool_resources.wf()
        &&& self.remaining_cycles <= CURRENT_CONTROL_CYCLE_COUNT
        &&& (self.phase is Idling || self.phase is Heating) ==> self.tool.is_some()
        &&& match self.phase {
            Phase::TestingTip { test, .. } => test.duty_cycle <= self.tool_resources.max_duty_cycle,
            _ => true,
        }
    }

    /// The safety interlock: the heater is off unless the inner loop runs or
    /// the tip test's pulse is on, and a tip test puts back a heater that is off.
    pub open spec fn heater_guarded(&self) -> bool {
        match self.phase {
            Phase::Heating => true,
            Phase::TestingTip { test, .. } => test.duty_cycle == 0,
            _ => self.tool_resources.duty_cycle == 0,
        }
    }

    /// The hardware settings with the heater off.
    pub open spec fn heater_off(&self) -> ToolResources {
        ToolResources { duty_cycle: 0, ..self.tool_resources }
    }

    /// The hardware settings with the duty cycle for a duty ratio.
    pub open spec fn heater_at(&self, ratio: i64) -> ToolResources {
        ToolResources {
            duty_cycle: duty_of(ratio as int, self.tool_resources.max_duty_cycle as int) as u16,
            ..self.tool_resources
        }
    }

    /// The hardware settings at rest: heater off, peak current limit at its operating value.
    pub open spec fn at_rest(&self) -> ToolResources {
        ToolResources {
            duty_cycle: 0,
            peak_current_limit: limit_setting(PEAK_CURRENT_LIMIT_UA as int) as u16,
            ..self.tool_resources
        }
    }

    /// Creates a new control instance: no tool yet, the heater off, the peak
    /// current limit at its operating value. The platform starts by
    /// measuring the idle power.
    pub fn new(tool_resources: ToolResources, supply: Supply) -> (r: Control)
        ensures
            r == (Control {
                tool: None,
                tool_resources: ToolResources {
                    duty_cycle: 0,
                    peak_current_limit: limit_setting(PEAK_CURRENT_LIMIT_UA as int) as u16,
                    ..tool_resources
                },
                supply,
                operational_temperature_mdeg: None,
                idle_power: ToolPowerMeasurement { current_ua: 0, potential_uv: 0 },
                remaining_cycles: 0,
                phase: Phase::Starting,
            }),
            r.wf(),
            r.heater_guarded(),
    {
        let mut resources = tool_resources;
        resources.init();
        resources.set_duty_cycle_fully_off();
        Control {
            tool: None,
            tool_resources: resources,
            supply,
            operational_temperature_mdeg: None,
            idle_power: ToolPowerMeasurement { current_ua: 0, potential_uv: 0 },
            remaining_cycles: 0,
            phase: Phase::Starting,
        }
    }

    /// The control after the start of a session.
    pub open spec fn after_start(&self, idle_power: ToolPowerMeasurement) -> Control {
        Control {
            tool_resources: self.heater_off(),
            idle_power,
            remaining_cycles: 0,
            phase: Phase::MeasuringTool,
            ..*self
        }
    }

    /// Starts a control session: the heater is off, and the power measured
    /// now is kept as the idle power. The tool is measured next.
    pub fn start(&mut self, idle_power: ToolPowerMeasurement)
        requires
            old(self).wf(),
        ensures
            *final(self) == old(self).after_start(idle_power),
            final(self).wf(),
    {
        self.tool_resources.set_duty_cycle_fully_off();
        self.idle_power = idle_power;
        self.remaining_cycles = 0;
        self.phase = Phase::MeasuringTool;
    }

    /// The tool after a successful detection: the tool that there was, or a
    /// new one for the table entry, with the measured temperature and the
    /// placement state brought up to date.
    pub open spec fn tool_after_detection(
        &self,
        index: int,
        tool_measurement: RawToolMeasurement,
        tool_in_stand: bool,
        auto_sleep: AutoSleep,
        now_ms: u64,
    ) -> Tool {
        let tool = match self.tool {
            Some(tool) => tool,
            None => Tool::initial(index, supported_tools()[index], self.supply),
        };
        Tool {
            state: next_tool_state(tool.state, tool_in_stand, auto_sleep, now_ms),
            ..tool.with_measurement(tool_measurement)
        }
    }

    /// The outcome of a detection.
    pub open spec fn detection_result(&self, tool_measurement: RawToolMeasurement) -> Result<
        (),
        Error,
    > {
        match first_match(supported_tools(), tool_measurement.detect_ratio_ppm as int) {
            None => Err(Error::UnknownTool),
            Some(index) => if self.tool.is_some() && self.tool.unwrap().index != index {
                Err(Error::ToolMismatch)
            } else {
                Ok(())
            },
        }
    }

    /// The control after a detection.
    pub open spec fn after_detection(
        &self,
        tool_measurement: RawToolMeasurement,
        tool_in_stand: bool,
        auto_sleep: AutoSleep,
        now_ms: u64,
    ) -> Control {
        match first_match(supported_tools(), tool_measurement.detect_ratio_ppm as int) {
            None => Control { tool_resources: self.heater_off(), ..*self },
            Some(index) => if self.tool.is_some() && self.tool.unwrap().index != index {
                Control {
                    tool: Some(Tool { pwm_ratio: 0, ..self.tool.unwrap() }),
                    tool_resources: self.heater_off(),
                    ..*self
                }
            } else {
                Control {
                    tool: Some(
                        self.tool_after_detection(
                            index,
                            tool_measurement,
                            tool_in_stand,
                            auto_sleep,
                            now_ms,
                        ),
                    ),
                    ..*self
                }
            },
        }
    }

    /// Detects the connected tool, after the platform has measured the tool,
    /// read the stand input and passed the tip test.
    ///
    /// The first detection creates the tool. Every detection takes in the
    /// temperature and updates the placement state. A measurement that
    /// matches no tool, or another tool than the one under control, is an
    /// error; the heater is then off.
    pub fn detect_tool(
        &mut self,
        tool_measurement: RawToolMeasurement,
        tool_in_stand: bool,
        persistent: &Persistent,
        now_ms: u64,
    ) -> (r: Result<(), Error>)
        requires
            old(self).wf(),
        ensures
            final(self).wf(),
            r == old(self).detection_result(tool_measurement),
            *final(self) == old(self).after_detection(
                tool_measurement,
                tool_in_stand,
                persistent.auto_sleep,
                now_ms,
            ),
            r.is_ok() ==> final(self).tool.is_some(),
    {
        let mut tool: Tool = match self.tool {
            Some(tool) => tool,
            None => match Tool::new(tool_measurement, self.supply) {
                Ok(tool) => tool,
                Err(error) => {
                    self.tool_resources.set_duty_cycle_fully_off();
                    return Err(error);
                },
            },
        };
        match tool.detect_and_calculate_temperature(tool_measurement) {
            Ok(()) => {},
            Err(error) => {
                self.tool = Some(tool);
                self.tool_resources.set_duty_cycle_fully_off();
                return Err(error);
            },
        }
        tool.update_tool_state(tool_in_stand, persistent.auto_sleep, now_ms);
        self.tool = Some(tool);
        Ok(())
    }

    /// The operational temperature after a decision: the configured set
    /// temperature, unless a new one is pending confirmation.
    pub open spec fn operational_temperature_after(
        &self,
        persistent: Persistent,
        set_temperature_is_pending: bool,
    ) -> Option<i64> {
        if set_temperature_is_pending {
            self.operational_temperature_mdeg
        } else {
            Some(mdeg_of(persistent.set_temperature_deg_c))
        }
    }

    /// The control after a decision: the tool's supply has the configured
    /// margin, and the operational temperature is brought up to date.
    pub open spec fn after_decision(
        &self,
        persistent: Persistent,
        operational_state: OperationalState,
    ) -> Control {
        Control {
            tool: Some(
                Tool {
                    supply: Supply {
                        current_margin_ma: persistent.current_margin_ma,
                        ..self.tool.unwrap().supply
                    },
                    ..self.tool.unwrap()
                },
            ),
            operational_temperature_mdeg: self.operational_temperature_after(
                persistent,
                operational_state.set_temperature_is_pending,
            ),
            ..*self
        }
    }

    /// The operational state after a decision: it shows the tool's name and
    /// placement state, and the power of the tool's supply.
    pub open spec fn published(&self, operational_state: OperationalState) -> OperationalState {
        OperationalState {
            tool_state: Some(self.tool.unwrap().state),
            tool: Ok(self.tool.unwrap().properties.name),
            negotiated_power_mw: Some(
                (self.tool.unwrap().supply.current_limit_ma * self.tool.unwrap().supply.potential_mv
                    / 1_000) as u64,
            ),
            ..operational_state
        }
    }

    /// The decision of an iteration of the outer loop.
    pub open spec fn decision(
        &self,
        persistent: Persistent,
        operational_state: OperationalState,
        now_ms: u64,
    ) -> Decision {
        decision_of(
            self.tool.unwrap(),
            operational_state.tool_is_off,
            effective_set_temperature(
                self.tool.unwrap().state != ToolState::Active,
                mdeg_of(persistent.stand_temperature_deg_c),
                self.operational_temperature_after(
                    persistent,
                    operational_state.set_temperature_is_pending,
                ),
            ),
            now_ms,
        )
    }

    /// Decides what this iteration of the outer loop does.
    ///
    /// Publishes the tool's name and placement state and the supply's power,
    /// takes the current margin from the configuration, and computes the
    /// effective set temperature.
    pub fn decide(
        &mut self,
        persistent: &Persistent,
        operational_state: &mut OperationalState,
        now_ms: u64,
    ) -> (r: Decision)
        requires
            old(self).wf(),
            old(self).tool.is_some(),
        ensures
            final(self).wf(),
            *final(operational_state) == old(self).published(*old(operational_state)),
            *final(self) == old(self).after_decision(*persistent, *old(operational_state)),
            r == old(self).decision(*persistent, *old(operational_state), now_ms),
    {
        let mut tool: Tool = self.tool.unwrap();
        operational_state.tool_state = Some(tool.state);
        operational_state.tool = Ok(tool.name());
        operational_state.negotiated_power_mw = Some(tool.supply.power_limit());
        tool.supply.current_margin_ma = persistent.current_margin_ma;
        self.tool = Some(tool);

        if !operational_state.set_temperature_is_pending {
            self.operational_temperature_mdeg = Some(
                (persistent.set_temperature_deg_c as i64) * 1_000,
            );
        }
        let stand_temperature: i64 = (persistent.stand_temperature_deg_c as i64) * 1_000;
        let set_temperature: Option<i64> = if tool.in_stand() {
            match self.operational_temperature_mdeg {
                Some(operational) => if operational < stand_temperature {
                    Some(operational)
                } else {
                    Some(stand_temperature)
                },
                None => Some(stand_temperature),
            }
        } else {
            self.operational_temperature_mdeg
        };
        let set_temperature_mdeg: i64 = match set_temperature {
            Some(set_temperature_mdeg) => set_temperature_mdeg,
            None => {
                return Decision::Skip;
            },
        };
        let status = Status {
            time_ms: now_ms,
            control_state: ControlState::Tool(
                match tool.state {
                    ToolState::Active => crate::protocol::ToolState::Active(
                        tool.get_temperature_pid_parameters(),
                    ),
                    ToolState::InStand(since_ms) => crate::protocol::ToolState::InStand(since_ms),
                    ToolState::Sleeping => crate::protocol::ToolState::Sleeping,
                },
            ),
        };
        let asleep: bool = match tool.state {
            ToolState::Sleeping => true,
            _ => false,
        };
        if operational_state.tool_is_off || asleep {
            Decision::Idle { set_temperature_mdeg, status }
        } else {
            Decision::Heat { set_temperature_mdeg, status }
        }
    }

    /// A power measurement, compensated with the idle power.
    pub open spec fn compensated(&self, power_measurement: ToolPowerMeasurement) -> ToolPowerMeasurement {
        ToolPowerMeasurement {
            current_ua: power_measurement.compensated_ua(self.idle_power) as u32,
            potential_uv: power_measurement.potential_uv,
        }
    }

    /// The control after the idle branch.
    pub open spec fn after_idle_step(&self) -> Control {
        Control {
            tool: Some(
                Tool {
                    temperature_pid: Pid { integral_term: 0, ..self.tool.unwrap().temperature_pid },
                    ..self.tool.unwrap()
                },
            ),
            tool_resources: self.heater_off(),
            remaining_cycles: 0,
            ..*self
        }
    }

    /// What the idle branch publishes.
    pub open spec fn idle_report(
        &self,
        power_measurement: ToolPowerMeasurement,
        set_temperature_mdeg: i64,
        now_ms: u64,
    ) -> IdleReport {
        IdleReport {
            measurement: Measurement {
                time_ms: now_ms,
                pid_state: None,
                set_temperature_mdeg: Some(set_temperature_mdeg),
                temperature_mdeg: self.tool.unwrap().temperature_mdeg,
            },
            power: self.compensated(power_measurement),
        }
    }

    /// The idle branch: the tool is off or asleep.
    ///
    /// The integral term of the temperature controller is reset, the power
    /// reading is compensated, and the heater stays off. The published
    /// measurement carries no controller terms.
    pub fn idle_step(
        &mut self,
        power_measurement: ToolPowerMeasurement,
        set_temperature_mdeg: i64,
        now_ms: u64,
    ) -> (r: IdleReport)
        requires
            old(self).wf(),
            old(self).tool.is_some(),
        ensures
            final(self).wf(),
            *final(self) == old(self).after_idle_step(),
            r == old(self).idle_report(power_measurement, set_temperature_mdeg, now_ms),
            final(self).tool_resources.duty_cycle == 0,
    {
        let mut tool: Tool = self.tool.unwrap();
        tool.temperature_pid.reset_integral_term();
        self.tool = Some(tool);
        self.tool_resources.set_duty_cycle_fully_off();
        self.remaining_cycles = 0;
        let mut power = power_measurement;
        power.compensate(&self.idle_power);
        IdleReport {
            measurement: Measurement {
                time_ms: now_ms,
                pid_state: None,
                set_temperature_mdeg: Some(set_temperature_mdeg),
                temperature_mdeg: tool.temperature_mdeg,
            },
            power,
        }
    }

    /// The control after the start of the active branch.
    pub open spec fn after_begin_heating(&self, set_temperature_mdeg: i64) -> Control {
        Control {
            tool: Some(self.tool.unwrap().after_temperature_control(set_temperature_mdeg)),
            tool_resources: self.heater_at(self.tool.unwrap().pwm_ratio),
            remaining_cycles: CURRENT_CONTROL_CYCLE_COUNT,
            ..*self
        }
    }

    /// The measurement that the active branch publishes.
    pub open spec fn heating_measurement(&self, set_temperature_mdeg: i64, now_ms: u64) -> Measurement {
        Measurement {
            time_ms: now_ms,
            pid_state: Some(self.tool.unwrap().temperature_output(set_temperature_mdeg)),
            set_temperature_mdeg: Some(set_temperature_mdeg),
            temperature_mdeg: self.tool.unwrap().temperature_mdeg,
        }
    }

    /// The active branch: runs one temperature control step and sets the
    /// duty cycle for the first iteration of the inner loop.
    pub fn begin_heating(&mut self, set_temperature_mdeg: i64, now_ms: u64) -> (r: Measurement)
        requires
            old(self).wf(),
            old(self).tool.is_some(),
        ensures
            final(self).wf(),
            *final(self) == old(self).after_begin_heating(set_temperature_mdeg),
            r == old(self).heating_measurement(set_temperature_mdeg, now_ms),
    {
        let mut tool: Tool = self.tool.unwrap();
        let measurement = tool.run_temperature_control(set_temperature_mdeg, now_ms);
        self.tool = Some(tool);
        self.remaining_cycles = CURRENT_CONTROL_CYCLE_COUNT;
        self.tool_resources.set_pwm_duty_cycle(tool.pwm_ratio());
        measurement
    }

    /// True if an event of the inner loop lets the loop go on: a
    /// measurement, with more than one iteration left.
    pub open spec fn inner_loop_goes_on(&self, event: CurrentLoopEvent) -> bool {
        event is Measured && self.remaining_cycles > 1
    }

    /// The control after an event of the inner loop.
    pub open spec fn after_current_loop_step(&self, event: CurrentLoopEvent) -> Control {
        match event {
            CurrentLoopEvent::Measured(power_measurement) if self.remaining_cycles > 0 => {
                let tool = self.tool.unwrap().after_current_control(
                    self.compensated(power_measurement),
                );
                if self.remaining_cycles > 1 {
                    Control {
                        tool: Some(tool),
                        tool_resources: self.heater_at(tool.pwm_ratio),
                        remaining_cycles: (self.remaining_cycles - 1) as u8,
                        ..*self
                    }
                } else {
                    Control {
                        tool: Some(tool),
                        tool_resources: self.heater_off(),
                        remaining_cycles: 0,
                        ..*self
                    }
                }
            },
            _ => Control { tool_resources: self.heater_off(), remaining_cycles: 0, ..*self },
        }
    }

    /// Ends one iteration of the inner loop.
    ///
    /// After a measurement the current control step runs on the compensated
    /// reading; if iterations are left, the duty cycle is set for the next
    /// one. After the last iteration, and as soon as the over-current
    /// interrupt fires, the heater is switched off and the inner loop is
    /// over: the iterations that were left are not run.
    pub fn current_loop_step(&mut self, event: CurrentLoopEvent) -> (r: CurrentLoopAction)
        requires
            old(self).wf(),
            old(self).tool.is_some(),
        ensures
            final(self).wf(),
            *final(self) == old(self).after_current_loop_step(event),
            r == (if old(self).inner_loop_goes_on(event) {
                CurrentLoopAction::Continue
            } else {
                CurrentLoopAction::Done
            }),
            r == CurrentLoopAction::Done <==> final(self).remaining_cycles == 0,
            r == CurrentLoopAction::Done ==> final(self).tool_resources.duty_cycle == 0,
            event is CurrentAlert ==> final(self).tool == old(self).tool,
    {
        match event {
            CurrentLoopEvent::Measured(power_measurement) => {
                if self.remaining_cycles == 0 {
                    self.tool_resources.set_duty_cycle_fully_off();
                    return CurrentLoopAction::Done;
                }
                let mut power = power_measurement;
                power.compensate(&self.idle_power);
                let mut tool: Tool = self.tool.unwrap();
                tool.run_current_control(&power);
                self.tool = Some(tool);
                self.remaining_cycles = self.remaining_cycles - 1;
                if self.remaining_cycles > 0 {
                    self.tool_resources.set_pwm_duty_cycle(tool.pwm_ratio());
                    CurrentLoopAction::Continue
                } else {
                    self.tool_resources.set_duty_cycle_fully_off();
                    CurrentLoopAction::Done
                }
            },
            CurrentLoopEvent::CurrentAlert => {
                self.remaining_cycles = 0;
                self.tool_resources.set_duty_cycle_fully_off();
                CurrentLoopAction::Done
            },
        }
    }

    /// The control after an error: no tool, the hardware at rest.
    pub open spec fn after_error(&self) -> Control {
        Control {
            tool: None,
            tool_resources: self.at_rest(),
            operational_temperature_mdeg: None,
            remaining_cycles: 0,
            phase: Phase::Failed,
            ..*self
        }
    }

    /// The operational state after an error: it shows the error, and the tool
    /// is switched off if the configuration says so.
    pub open spec fn error_published(
        error: Error,
        persistent: Persistent,
        operational_state: OperationalState,
    ) -> OperationalState {
        OperationalState {
            tool_state: None,
            tool: Err(error),
            tool_is_off: operational_state.tool_is_off || persistent.off_on_change,
            ..operational_state
        }
    }

    /// Ends a control session after an error.
    ///
    /// The heater is switched off and the tool is dropped, so that detection
    /// starts from scratch. The error is published in the operational state
    /// and as the returned status; if the configuration says so, the tool is
    /// switched off until the user switches it on again.
    pub fn handle_error(
        &mut self,
        error: Error,
        persistent: &Persistent,
        operational_state: &mut OperationalState,
        now_ms: u64,
    ) -> (r: Status)
        ensures
            final(self).wf(),
            *final(self) == old(self).after_error(),
            *final(operational_state) == Control::error_published(
                error,
                *persistent,
                *old(operational_state),
            ),
            r == (Status { time_ms: now_ms, control_state: ControlState::of_error(error) }),
    {
        self.tool = None;
        self.tool_resources.set_duty_cycle_fully_off();
        self.tool_resources.init();
        self.operational_temperature_mdeg = None;
        self.remaining_cycles = 0;
        self.phase = Phase::Failed;
        operational_state.tool_state = None;
        operational_state.tool = Err(error);
        operational_state.tool_is_off = operational_state.tool_is_off || persistent.off_on_change;
        Status { time_ms: now_ms, control_state: ControlState::from_error(error) }
    }

    /// The outcome of a step that ends the session with an error: the error
    /// is published, and the platform waits out the backoff time.
    pub open spec fn failed(
        &self,
        error: Error,
        persistent: Persistent,
        operational_state: OperationalState,
        now_ms: u64,
    ) -> (Control, OperationalState, Step) {
        (
            self.after_error(),
            Control::error_published(error, persistent, operational_state),
            Step {
                action: Action::Wait { ms: ERROR_BACKOFF_MS },
                status: Some(
                    Status { time_ms: now_ms, control_state: ControlState::of_error(error) },
                ),
                measurement: None,
            },
        )
    }

    /// The outcome of a step that starts a session: the hardware is at rest,
    /// and the idle power is measured.
    pub open spec fn restarted(&self, operational_state: OperationalState) -> (
        Control,
        OperationalState,
        Step,
    ) {
        (
            Control {
                tool_resources: self.at_rest(),
                remaining_cycles: 0,
                phase: Phase::Starting,
                ..*self
            },
            operational_state,
            quiet(Action::MeasurePower { then_wait_ms: 0 }),
        )
    }

    /// The outcome of the step that ends the detection phase: after the tip
    /// test the tool is detected and the branch of the iteration decided.
    pub open spec fn detected(
        &self,
        tool_measurement: RawToolMeasurement,
        tool_in_stand: bool,
        persistent: Persistent,
        operational_state: OperationalState,
        now_ms: u64,
    ) -> (Control, OperationalState, Step) {
        let detected = self.after_detection(
            tool_measurement,
            tool_in_stand,
            persistent.auto_sleep,
            now_ms,
        );
        match self.detection_result(tool_measurement) {
            Err(error) => detected.failed(error, persistent, operational_state, now_ms),
            Ok(_) => {
                let decided = detected.after_decision(persistent, operational_state);
                let published = detected.published(operational_state);
                match detected.decision(persistent, operational_state, now_ms) {
                    Decision::Skip => (
                        Control { phase: Phase::MeasuringTool, ..decided },
                        published,
                        quiet(measure_tool_action()),
                    ),
                    Decision::Idle { set_temperature_mdeg, status } => (
                        Control { phase: Phase::Idling { set_temperature_mdeg }, ..decided },
                        published,
                        Step {
                            action: Action::MeasurePower { then_wait_ms: LOOP_PERIOD_MS },
                            status: Some(status),
                            measurement: None,
                        },
                    ),
                    Decision::Heat { set_temperature_mdeg, status } => (
                        Control {
                            phase: Phase::Heating,
                            ..decided.after_begin_heating(set_temperature_mdeg)
                        },
                        published,
                        Step {
                            action: current_cycle_action(),
                            status: Some(status),
                            measurement: Some(
                                decided.heating_measurement(set_temperature_mdeg, now_ms),
                            ),
                        },
                    ),
                }
            },
        }
    }

    /// The outcome of a step of the control loop: the control and the
    /// operational state after it, and what the platform does and publishes.
    ///
    /// A session starts with the idle power. An iteration of the outer loop
    /// measures the tool, reads the stand input and tests for a tip, in this
    /// order; the first failure ends the session. Then the tool is detected
    /// and the branch decided. The idle branch measures the power and waits
    /// out the period. The active branch runs the inner loop until its
    /// iterations are done or the over-current interrupt fires. After an error
    /// and the backoff time a new session starts. An event that the phase
    /// does not wait for starts a new session, too.
    pub open spec fn after_step(
        &self,
        event: Event,
        persistent: Persistent,
        operational_state: OperationalState,
        now_ms: u64,
    ) -> (Control, OperationalState, Step) {
        match (self.phase, event) {
            (Phase::Starting, Event::Power(idle_power)) => (
                self.after_start(idle_power),
                operational_state,
                quiet(measure_tool_action()),
            ),
            (Phase::MeasuringTool, Event::ToolSamples { detect_value, temperature_value }) => {
                if detect_ratio_of(detect_value as int) > MAX_ADC_RATIO_PPM {
                    self.failed(Error::NoTool, persistent, operational_state, now_ms)
                } else {
                    (
                        Control {
                            phase: Phase::ReadingStand {
                                tool_measurement: RawToolMeasurement {
                                    detect_ratio_ppm: detect_ratio_of(detect_value as int) as u32,
                                    temperature_potential_uv: potential_of(
                                        temperature_value as int,
                                    ) as u32,
                                },
                            },
                            ..*self
                        },
                        operational_state,
                        quiet(Action::ReadStand),
                    )
                }
            },
            (Phase::ReadingStand { tool_measurement }, Event::Stand(tool_in_stand)) => (
                Control {
                    phase: Phase::TestingTip {
                        tool_measurement,
                        tool_in_stand,
                        test: TipTest {
                            peak_current_limit: self.tool_resources.peak_current_limit,
                            duty_cycle: self.tool_resources.duty_cycle,
                        },
                    },
                    tool_resources: ToolResources {
                        peak_current_limit: limit_setting(TIP_TEST_CURRENT_LIMIT_UA as int) as u16,
                        duty_cycle: duty_of(
                            TIP_TEST_PWM_RATIO as int,
                            self.tool_resources.max_duty_cycle as int,
                        ) as u16,
                        ..self.tool_resources
                    },
                    ..*self
                },
                operational_state,
                quiet(Action::AwaitAlert { timeout_us: TIP_TEST_TIMEOUT_US }),
            ),
            (
                Phase::TestingTip { tool_measurement, tool_in_stand, test },
                Event::TipTest(edge_within_timeout),
            ) => {
                let restored = Control {
                    tool_resources: ToolResources {
                        peak_current_limit: test.peak_current_limit,
                        duty_cycle: test.duty_cycle,
                        ..self.tool_resources
                    },
                    ..*self
                };
                if edge_within_timeout {
                    restored.detected(
                        tool_measurement,
                        tool_in_stand,
                        persistent,
                        operational_state,
                        now_ms,
                    )
                } else {
                    restored.failed(Error::NoTip, persistent, operational_state, now_ms)
                }
            },
            (Phase::Idling { set_temperature_mdeg }, Event::Power(power_measurement)) => (
                Control { phase: Phase::MeasuringTool, ..self.after_idle_step() },
                operational_state,
                Step {
                    action: measure_tool_action(),
                    status: None,
                    measurement: Some(
                        self.idle_report(power_measurement, set_temperature_mdeg, now_ms).measurement,
                    ),
                },
            ),
            (Phase::Heating, Event::Power(power_measurement)) => {
                let event = CurrentLoopEvent::Measured(power_measurement);
                if self.inner_loop_goes_on(event) {
                    (
                        self.after_current_loop_step(event),
                        operational_state,
                        quiet(current_cycle_action()),
                    )
                } else {
                    (
                        Control {
                            phase: Phase::MeasuringTool,
                            ..self.after_current_loop_step(event)
                        },
                        operational_state,
                        quiet(measure_tool_action()),
                    )
                }
            },
            (Phase::Heating, Event::CurrentAlert) => (
                Control {
                    phase: Phase::MeasuringTool,
                    ..self.after_current_loop_step(CurrentLoopEvent::CurrentAlert)
                },
                operational_state,
                quiet(measure_tool_action()),
            ),
            _ => self.restarted(operational_state),
        }
    }

    /// Ends the session with an error.
    fn fail(
        &mut self,
        error: Error,
        persistent: &Persistent,
        operational_state: &mut OperationalState,
        now_ms: u64,
    ) -> (r: Step)
        ensures
            (*final(self), *final(operational_state), r) == old(self).failed(
                error,
                *persistent,
                *old(operational_state),
                now_ms,
            ),
            final(self).wf(),
    {
        let status = self.handle_error(error, persistent, operational_state, now_ms);
        Step { action: Action::Wait { ms: ERROR_BACKOFF_MS }, status: Some(status), measurement: None }
    }

    /// Ends the detection phase: detects the tool and decides the branch.
    fn detect_and_decide(
        &mut self,
        tool_measurement: RawToolMeasurement,
        tool_in_stand: bool,
        persistent: &Persistent,
        operational_state: &mut OperationalState,
        now_ms: u64,
    ) -> (r: Step)
        requires
            old(self).wf(),
        ensures
            (*final(self), *final(operational_state), r) == old(self).detected(
                tool_measurement,
                tool_in_stand,
                *persistent,
                *old(operational_state),
                now_ms,
            ),
            final(self).wf(),
    {
        match self.detect_tool(tool_measurement, tool_in_stand, persistent, now_ms) {
            Ok(()) => {},
            Err(error) => {
                return self.fail(error, persistent, operational_state, now_ms);
            },
        }
        match self.decide(persistent, operational_state, now_ms) {
            Decision::Skip => {
                self.phase = Phase::MeasuringTool;
                Step {
                    action: Action::MeasureTool { settle_ms: SETTLING_TIME_MS },
                    status: None,
                    measurement: None,
                }
            },
            Decision::Idle { set_temperature_mdeg, status } => {
                self.phase = Phase::Idling { set_temperature_mdeg };
                Step {
                    action: Action::MeasurePower { then_wait_ms: LOOP_PERIOD_MS },
                    status: Some(status),
                    measurement: None,
                }
            },
            Decision::Heat { set_temperature_mdeg, status } => {
                let measurement = self.begin_heating(set_temperature_mdeg, now_ms);
                self.phase = Phase::Heating;
                Step {
                    action: Action::RunCurrentCycle {
                        measure_after_ms: CURRENT_LOOP_PERIOD_MS / 2,
                        period_ms: CURRENT_LOOP_PERIOD_MS,
                    },
                    status: Some(status),
                    measurement: Some(measurement),
                }
            },
        }
    }

    /// Ends an iteration of the inner loop and says how the loop goes on.
    fn inner_loop_event(&mut self, event: CurrentLoopEvent) -> (r: Step)
        requires
            old(self).wf(),
            old(self).phase is Heating,
        ensures
            final(self).wf(),
            old(self).inner_loop_goes_on(event) ==> *final(self) == old(
                self,
            ).after_current_loop_step(event) && r == quiet(current_cycle_action()),
            !old(self).inner_loop_goes_on(event) ==> *final(self) == (Control {
                phase: Phase::MeasuringTool,
                ..old(self).after_current_loop_step(event)
            }) && r == quiet(measure_tool_action()),
    {
        match self.current_loop_step(event) {
            CurrentLoopAction::Continue => Step {
                action: Action::RunCurrentCycle {
                    measure_after_ms: CURRENT_LOOP_PERIOD_MS / 2,
                    period_ms: CURRENT_LOOP_PERIOD_MS,
                },
                status: None,
                measurement: None,
            },
            CurrentLoopAction::Done => {
                self.phase = Phase::MeasuringTool;
                Step {
                    action: Action::MeasureTool { settle_ms: SETTLING_TIME_MS },
                    status: None,
                    measurement: None,
                }
            },
        }
    }

    /// Takes the event that the platform reports and decides what it does next.
    ///
    /// While the result's action is not an inner loop iteration, the heater
    /// is off, but for the pulse of the tip test.
    pub fn step(
        &mut self,
        event: Event,
        persistent: &Persistent,
        operational_state: &mut OperationalState,
        now_ms: u64,
    ) -> (r: Step)
        requires
            old(self).wf(),
        ensures
            (*final(self), *final(operational_state), r) == old(self).after_step(
                event,
                *persistent,
                *old(operational_state),
                now_ms,
            ),
            final(self).wf(),
            old(self).heater_guarded() ==> final(self).heater_guarded(),
            r.action is RunCurrentCycle <==> final(self).phase is Heating,
            r.action is AwaitAlert <==> final(self).phase is TestingTip,
            r.action is Wait <==> final(self).phase is Failed,
    {
        match (self.phase, event) {
            (Phase::Starting, Event::Power(idle_power)) => {
                self.start(idle_power);
                Step {
                    action: Action::MeasureTool { settle_ms: SETTLING_TIME_MS },
                    status: None,
                    measurement: None,
                }
            },
            (Phase::MeasuringTool, Event::ToolSamples { detect_value, temperature_value }) => {
                match measure_tool(detect_value, temperature_value) {
                    Ok(tool_measurement) => {
                        self.phase = Phase::ReadingStand { tool_measurement };
                        Step { action: Action::ReadStand, status: None, measurement: None }
                    },
                    Err(error) => self.fail(error, persistent, operational_state, now_ms),
                }
            },
            (Phase::ReadingStand { tool_measurement }, Event::Stand(tool_in_stand)) => {
                let test = self.tool_resources.begin_tip_test();
                self.phase = Phase::TestingTip { tool_measurement, tool_in_stand, test };
                Step {
                    action: Action::AwaitAlert { timeout_us: TIP_TEST_TIMEOUT_US },
                    status: None,
                    measurement: None,
                }
            },
            (
                Phase::TestingTip { tool_measurement, tool_in_stand, test },
                Event::TipTest(edge_within_timeout),
            ) => {
                match self.tool_resources.test_tip_current(test, edge_within_timeout) {
                    Ok(()) => self.detect_and_decide(
                        tool_measurement,
                        tool_in_stand,
                        persistent,
                        operational_state,
                        now_ms,
                    ),
                    Err(error) => self.fail(error, persistent, operational_state, now_ms),
                }
            },
            (Phase::Idling { set_temperature_mdeg }, Event::Power(power_measurement)) => {
                let report = self.idle_step(power_measurement, set_temperature_mdeg, now_ms);
                self.phase = Phase::MeasuringTool;
                Step {
                    action: Action::MeasureTool { settle_ms: SETTLING_TIME_MS },
                    status: None,
                    measurement: Some(report.measurement),
                }
            },
            (Phase::Heating, Event::Power(power_measurement)) => self.inner_loop_event(
                CurrentLoopEvent::Measured(power_measurement),
            ),
            (Phase::Heating, Event::CurrentAlert) => self.inner_loop_event(
                CurrentLoopEvent::CurrentAlert,
            ),
            _ => {
                self.tool_resources.set_duty_cycle_fully_off();
                self.tool_resources.init();
                self.remaining_cycles = 0;
                self.phase = Phase::Starting;
                Step {
                    action: Action::MeasurePower { then_wait_ms: 0 },
                    status: None,
                    measurement: None,
                }
            },
        }
    }
}

/// The safety interlock holds step by step: if the heater is guarded before
/// a step it is guarded after it, and then the heater is off whenever the
/// platform is told to do anything but run the inner loop or wait for the tip
/// test's edge. In particular it is off while an error is active and in the
/// idle branch.
pub proof fn lemma_heater_off_outside_heating(
    control: Control,
    event: Event,
    persistent: Persistent,
    operational_state: OperationalState,
    now_ms: u64,
)
    requires
        control.wf(),
        control.heater_guarded(),
    ensures
        ({
            let (next, _, step) = control.after_step(event, persistent, operational_state, now_ms);
            &&& next.heater_guarded()
            &&& !(step.action is RunCurrentCycle) && !(step.action is AwaitAlert)
                ==> next.tool_resources.duty_cycle == 0
            &&& step.action is Wait ==> next.tool.is_none()
        }),
{
}

/// The over-current interrupt ends the inner loop at once: whatever number of
/// iterations was left, none is run, the tool's controllers are not stepped,
/// the heater is off, and the next outer iteration starts.
pub proof fn lemma_alert_ends_inner_loop(
    control: Control,
    persistent: Persistent,
    operational_state: OperationalState,
    now_ms: u64,
)
    requires
        control.wf(),
        control.phase is Heating,
    ensures
        ({
            let (next, _, step) = control.after_step(
                Event::CurrentAlert,
                persistent,
                operational_state,
                now_ms,
            );
            &&& next.remaining_cycles == 0
            &&& next.tool_resources.duty_cycle == 0
            &&& next.tool == control.tool
            &&& next.phase == Phase::MeasuringTool
            &&& step == quiet(measure_tool_action())
        }),
{
}

/// The inner loop starts only after a detection phase that has passed in
/// full: the tip test saw its edge, the tool was detected, it is switched on,
/// and it is not asleep.
pub proof fn lemma_heating_needs_detection(
    control: Control,
    event: Event,
    persistent: Persistent,
    operational_state: OperationalState,
    now_ms: u64,
)
    requires
        control.wf(),
        !(control.phase is Heating),
    ensures
        ({
            let (next, _, step) = control.after_step(event, persistent, operational_state, now_ms);
            step.action is RunCurrentCycle ==> {
                &&& control.phase is TestingTip
                &&& event == Event::TipTest(true)
                &&& !operational_state.tool_is_off
                &&& next.tool.is_some()
                &&& next.tool.unwrap().state != ToolState::Sleeping
                &&& first_match(
                    supported_tools(),
                    control.phase->TestingTip_tool_measurement.detect_ratio_ppm as int,
                ) == Some(next.tool.unwrap().index as int)
            }
        }),
{
}

} // verus!
