//! A connected tool: its two cascaded controllers and its placement state.
//!
//! The temperature controller takes millidegrees and puts out a current in
//! microampere, which is the set point of the current controller. The current
//! controller takes microampere and puts out the heater's duty ratio in parts
//! per billion.

use vstd::prelude::*;
use crate::error::Error;
use crate::library::{first_match, properties_for, supported_tools, tools, ToolProperties};
use crate::pid::{ControlOutput, Pid, UNLIMITED};
use crate::protocol::Measurement;
use crate::sensors::{RawToolMeasurement, ToolPowerMeasurement};
use crate::supply::Supply;
use crate::AutoSleep;

verus! {

/// The period of the temperature control loop in ms.
pub const TEMPERATURE_CONTROL_LOOP_PERIOD_MS: u32 = 100;

/// The duty ratio that stands for a heater that is always on, in parts per billion.
pub const PWM_RATIO_ONE: i64 = 1_000_000_000;

/// Scale of the current loop's integral gain: the gain in parts per billion
/// per microampere is this times the heater resistance over the supply
/// potential, which is a fifth of their ratio per ampere.
pub const CURRENT_LOOP_GAIN_SCALE: u64 = 200;

/// The state of the tool.
#[derive(Debug, Clone, Copy, PartialEq, Eq, Structural)]
pub enum ToolState {
    /// The tool is active.
    Active,
    /// The tool was placed in its stand at the recorded time in ms.
    InStand(u64),
    /// The tool was automatically switched to sleep mode.
    Sleeping,
}

/// The placement state that follows from the stand input, the auto-sleep
/// policy and the time.
pub open spec fn next_tool_state(
    state: ToolState,
    in_stand: bool,
    auto_sleep: AutoSleep,
    now_ms: u64,
) -> ToolState {
    if !in_stand {
        ToolState::Active
    } else {
        match state {
            ToolState::Active => match auto_sleep {
                AutoSleep::AfterDurationS(0) => ToolState::Sleeping,
                _ => ToolState::InStand(now_ms),
            },
            ToolState::InStand(since_ms) => match auto_sleep {
                AutoSleep::Never => state,
                AutoSleep::AfterDurationS(duration_s) => if now_ms >= since_ms && now_ms - since_ms
                    >= duration_s * 1_000 {
                    ToolState::Sleeping
                } else {
                    state
                },
            },
            ToolState::Sleeping => ToolState::Sleeping,
        }
    }
}

/// The current limit in microampere of a tool on a supply: the lower of what
/// the tool's power rating allows at the supply's potential and of what the
/// supply can give after its margin.
pub open spec fn current_limit_of(properties: ToolProperties, supply: Supply) -> int {
    let tool_limit = properties.max_current_ua(supply.potential_mv as int);
    let supply_limit = supply.effective_limit_ma() * 1_000;
    if tool_limit < supply_limit {
        tool_limit
    } else {
        supply_limit
    }
}

/// The integral gain of the current loop for a heater on a supply; zero without a potential.
pub open spec fn current_loop_gain(properties: ToolProperties, supply: Supply) -> int {
    if supply.potential_mv == 0 {
        0
    } else {
        CURRENT_LOOP_GAIN_SCALE * properties.heater_resistance_mohm / (supply.potential_mv as int)
    }
}

/// True if a current set point is at the limit or zero: the integral term must not grow then.
pub open spec fn is_current_limited(current_limit: int, current_setpoint: int) -> bool {
    vstd::math::abs(current_setpoint) >= current_limit || current_setpoint == 0
}

/// True if a control output is not positive while its integral term pulls
/// down: a downward step of the set point would cause undershoot.
pub open spec fn undershoots(out: ControlOutput) -> bool {
    out.output <= 0 && out.i < 0
}

/// A temperature controller with the gains of a tool; the integral gain is
/// zero while the tool is current-limited.
pub open spec fn configured(
    pid: Pid,
    properties: ToolProperties,
    is_current_limited: bool,
    current_limit: i64,
) -> Pid {
    Pid {
        kp: properties.pid_parameters.p as i64,
        p_limit: UNLIMITED,
        kd: (properties.pid_parameters.d * TEMPERATURE_CONTROL_LOOP_PERIOD_MS) as i64,
        d_limit: UNLIMITED,
        ki: if is_current_limited {
            0
        } else {
            (properties.pid_parameters.i / TEMPERATURE_CONTROL_LOOP_PERIOD_MS) as i64
        },
        i_limit: current_limit,
        ..pid
    }
}

/// A controller whose integral term is reset if the output undershoots.
pub open spec fn settled(pid: Pid, out: ControlOutput) -> Pid {
    if undershoots(out) {
        Pid { integral_term: 0, ..pid }
    } else {
        pid
    }
}

/// A tool (soldering iron).
#[derive(Debug, Clone, Copy, PartialEq, Eq)]
pub struct Tool {
    /// The position of the tool in the table of supported tools: its identity.
    pub index: usize,
    /// Properties of the tool.
    pub properties: ToolProperties,
    /// The temperature control.
    pub temperature_pid: Pid,
    /// The current control.
    pub current_pid: Pid,
    /// The duty ratio of the heater switch in parts per billion.
    pub pwm_ratio: i64,
    /// The tool temperature in millidegrees; none if the reading was invalid.
    pub temperature_mdeg: Option<i64>,
    /// The tool supply's characteristics.
    pub supply: Supply,
    /// The state of the tool.
    pub state: ToolState,
}

impl Tool {
    /// Both controllers have non-negative limits, and the duty ratio is not negative.
    pub open spec fn wf(&self) -> bool {
        &&& self.temperature_pid.wf()
        &&& self.current_pid.wf()
        &&& self.pwm_ratio >= 0
    }

    /// The tool as it is right after detection: active, heater off, no
    /// temperature yet, the temperature controller configured for the tool,
    /// the current controller integrating with the gain for heater and supply.
    pub open spec fn initial(index: int, properties: ToolProperties, supply: Supply) -> Tool {
        Tool {
            index: index as usize,
            properties,
            temperature_pid: configured(
                Pid {
                    setpoint: 0,
                    output_limit: 0,
                    kp: 0,
                    ki: 0,
                    kd: 0,
                    p_limit: 0,
                    i_limit: 0,
                    d_limit: 0,
                    integral_term: 0,
                    prev_measurement: None,
                },
                properties,
                false,
                current_limit_of(properties, supply) as i64,
            ),
            current_pid: Pid {
                setpoint: 0,
                output_limit: PWM_RATIO_ONE,
                kp: 0,
                ki: current_loop_gain(properties, supply) as i64,
                kd: 0,
                p_limit: 0,
                i_limit: UNLIMITED,
                d_limit: 0,
                integral_term: 0,
                prev_measurement: None,
            },
            pwm_ratio: 0,
            temperature_mdeg: None,
            supply,
            state: ToolState::Active,
        }
    }

    /// Creates a new tool from a measurement, if the measured detection
    /// ratio matches a supported tool; the first match counts.
    pub fn new(tool_measurement: RawToolMeasurement, supply: Supply) -> (r: Result<Tool, Error>)
        ensures
            match first_match(supported_tools(), tool_measurement.detect_ratio_ppm as int) {
                Some(index) => r == Ok::<Tool, Error>(
                    Tool::initial(index, supported_tools()[index], supply),
                ) && r.unwrap().wf(),
                None => r == Err::<Tool, Error>(Error::UnknownTool),
            },
    {
        let table = tools();
        let index: usize = match Tool::detect(tool_measurement) {
            Ok(index) => index,
            Err(error) => {
                return Err(error);
            },
        };
        let properties: ToolProperties = table[index];
        let mut tool = Tool {
            index,
            properties,
            temperature_pid: Pid::new(0, 0),
            current_pid: Pid::new(0, PWM_RATIO_ONE),
            pwm_ratio: 0,
            temperature_mdeg: None,
            supply,
            state: ToolState::Active,
        };
        let current_limit: i64 = tool.current_limit_a();
        tool.configure_temperature_control(false, current_limit);
        let gain: i64 = if supply.potential_mv == 0 {
            0
        } else {
            (CURRENT_LOOP_GAIN_SCALE * (properties.heater_resistance_mohm as u64) / (
            supply.potential_mv as u64)) as i64
        };
        tool.current_pid.i(gain, UNLIMITED);
        Ok(tool)
    }

    /// If true, the tool is in its stand.
    pub fn in_stand(&self) -> (r: bool)
        ensures
            r == (self.state != ToolState::Active),
    {
        match self.state {
            ToolState::Active => false,
            _ => true,
        }
    }

    /// Updates the tool's state, based on whether it is currently in its
    /// stand, on the auto-sleep policy and on the time in ms.
    ///
    /// Out of the stand the tool is active. Entering the stand records the
    /// time, or puts the tool to sleep at once if the policy's duration is
    /// zero. In the stand the tool falls asleep once the duration has passed.
    pub fn update_tool_state(&mut self, in_stand: bool, auto_sleep: AutoSleep, now_ms: u64) -> (r:
        ToolState)
        ensures
            r == next_tool_state(old(self).state, in_stand, auto_sleep, now_ms),
            *final(self) == (Tool { state: r, ..*old(self) }),
    {
        if !in_stand {
            self.state = ToolState::Active;
        } else {
            match self.state {
                ToolState::Active => {
                    self.state = match auto_sleep {
                        AutoSleep::AfterDurationS(0) => ToolState::Sleeping,
                        _ => ToolState::InStand(now_ms),
                    };
                },
                ToolState::InStand(since_ms) => {
                    match auto_sleep {
                        AutoSleep::Never => {},
                        AutoSleep::AfterDurationS(duration_s) => {
                            if now_ms >= since_ms && now_ms - since_ms >= (duration_s as u64)
                                * 1_000 {
                                self.state = ToolState::Sleeping;
                            }
                        },
                    }
                },
                ToolState::Sleeping => {},
            }
        }
        self.state
    }

    /// The tool's name.
    pub fn name(&self) -> (r: &'static str)
        ensures
            r == self.properties.name,
    {
        self.properties.name
    }

    /// The tool's power limit in milliwatt: the lower of its own rating and
    /// of the supply's effective power limit.
    pub fn power_limit_w(&self) -> (r: u64)
        ensures
            r == vstd::math::min(
                self.properties.max_power_mw as int,
                self.supply.effective_limit_ma() * self.supply.potential_mv / 1_000,
            ),
    {
        let supply_limit: u64 = self.supply.effective_power_limit();
        if (self.properties.max_power_mw as u64) < supply_limit {
            self.properties.max_power_mw as u64
        } else {
            supply_limit
        }
    }

    /// The tool's current limit in microampere.
    pub open spec fn current_limit(&self) -> int {
        current_limit_of(self.properties, self.supply)
    }

    /// Calculates the tool's current limit in microampere, from the tool's
    /// maximum power, the supply's potential and the supply's effective
    /// current limit. It is never negative.
    pub fn current_limit_a(&self) -> (r: i64)
        ensures
            r == self.current_limit(),
            r >= 0,
    {
        let tool_limit: i64 = self.properties.max_current_a(self.supply.potential_mv);
        let supply_limit: i64 = self.supply.effective_current_limit();
        if tool_limit < supply_limit {
            tool_limit
        } else {
            supply_limit
        }
    }

    /// Detects a tool, based on a measurement: the position in the table of
    /// supported tools of the first tool that matches.
    pub fn detect(tool_measurement: RawToolMeasurement) -> (r: Result<usize, Error>)
        ensures
            match first_match(supported_tools(), tool_measurement.detect_ratio_ppm as int) {
                Some(index) => r == Ok::<usize, Error>(index as usize) && 0 <= index
                    < supported_tools().len(),
                None => r == Err::<usize, Error>(Error::UnknownTool),
            },
    {
        let table = tools();
        properties_for(table.as_slice(), tool_measurement.detect_ratio_ppm)
    }

    /// The tool after a measurement was taken in: with the temperature that
    /// the measurement stands for.
    pub open spec fn with_measurement(&self, tool_measurement: RawToolMeasurement) -> Tool {
        Tool { temperature_mdeg: tool_measurement.temperature_mdeg(self.properties), ..*self }
    }

    /// Calculates the tool temperature from a raw tool measurement.
    ///
    /// Checks for unexpected tool changes during the control cycle: if the
    /// measurement matches another tool than this one, the duty ratio is
    /// zeroed and the mismatch reported.
    pub fn detect_and_calculate_temperature(&mut self, tool_measurement: RawToolMeasurement) -> (r:
        Result<(), Error>)
        ensures
            match first_match(supported_tools(), tool_measurement.detect_ratio_ppm as int) {
                None => r == Err::<(), Error>(Error::UnknownTool) && *final(self) == *old(self),
                Some(index) => if index == old(self).index {
                    r == Ok::<(), Error>(()) && *final(self) == old(self).with_measurement(
                        tool_measurement,
                    )
                } else {
                    r == Err::<(), Error>(Error::ToolMismatch) && *final(self) == (Tool {
                        pwm_ratio: 0,
                        ..*old(self)
                    })
                },
            },
    {
        let index: usize = match Tool::detect(tool_measurement) {
            Ok(index) => index,
            Err(error) => {
                return Err(error);
            },
        };
        if index != self.index {
            self.pwm_ratio = 0;
            return Err(Error::ToolMismatch);
        }
        self.temperature_mdeg = tool_measurement.temperature(&self.properties);
        Ok(())
    }

    /// Configures the temperature control with the tool's gains.
    ///
    /// While the tool is current-limited the integral gain is zero, so that
    /// the integral term does not wind up.
    pub fn configure_temperature_control(&mut self, is_current_limited: bool, current_limit: i64)
        requires
            current_limit >= 0,
        ensures
            *final(self) == (Tool {
                temperature_pid: configured(
                    old(self).temperature_pid,
                    old(self).properties,
                    is_current_limited,
                    current_limit,
                ),
                ..*old(self)
            }),
    {
        let parameters = self.properties.pid_parameters;
        self.temperature_pid.p(parameters.p as i64, UNLIMITED);
        self.temperature_pid.d(
            (parameters.d as i64) * (TEMPERATURE_CONTROL_LOOP_PERIOD_MS as i64),
            UNLIMITED,
        );
        if is_current_limited {
            self.temperature_pid.i(0, current_limit);
        } else {
            self.temperature_pid.i(
                (parameters.i / TEMPERATURE_CONTROL_LOOP_PERIOD_MS) as i64,
                current_limit,
            );
        }
    }

    /// The measured temperature, or zero where there is none.
    pub open spec fn temperature_or_zero(&self) -> i64 {
        match self.temperature_mdeg {
            Some(temperature) => temperature,
            None => 0,
        }
    }

    /// The temperature controller as a control step evaluates it: limited to
    /// the current limit, and with a fresh integral term if the set point changes.
    pub open spec fn prepared_pid(&self, set_temperature_mdeg: i64) -> Pid {
        Pid {
            output_limit: self.current_limit() as i64,
            setpoint: set_temperature_mdeg,
            integral_term: if self.temperature_pid.setpoint != set_temperature_mdeg {
                0
            } else {
                self.temperature_pid.integral_term
            },
            ..self.temperature_pid
        }
    }

    /// The output of a temperature control step.
    pub open spec fn temperature_output(&self, set_temperature_mdeg: i64) -> ControlOutput {
        self.prepared_pid(set_temperature_mdeg).control_output(self.temperature_or_zero() as int)
    }

    /// True if a temperature control step ends current-limited.
    pub open spec fn ends_current_limited(&self, set_temperature_mdeg: i64) -> bool {
        is_current_limited(
            self.current_limit(),
            self.temperature_output(set_temperature_mdeg).output as int,
        )
    }

    /// The tool after a temperature control step.
    pub open spec fn after_temperature_control(&self, set_temperature_mdeg: i64) -> Tool {
        let out = self.temperature_output(set_temperature_mdeg);
        Tool {
            temperature_pid: settled(
                configured(
                    self.prepared_pid(set_temperature_mdeg).stepped(self.temperature_or_zero()),
                    self.properties,
                    self.ends_current_limited(set_temperature_mdeg),
                    self.current_limit() as i64,
                ),
                out,
            ),
            current_pid: Pid { setpoint: out.output, ..self.current_pid },
            ..*self
        }
    }

    /// Runs a temperature control step.
    ///
    /// The controller's output is limited to the tool's current limit. A
    /// changed set point resets the integral term. A missing temperature
    /// counts as zero degrees. The output becomes the set point of the current
    /// controller. If the output is at the limit or zero, the integral gain is
    /// zero until the next step. If the output undershoots, the integral term
    /// is reset.
    pub fn run_temperature_control(&mut self, set_temperature_mdeg: i64, now_ms: u64) -> (r:
        Measurement)
        requires
            old(self).wf(),
        ensures
            *final(self) == old(self).after_temperature_control(set_temperature_mdeg),
            final(self).wf(),
            r == (Measurement {
                time_ms: now_ms,
                pid_state: Some(old(self).temperature_output(set_temperature_mdeg)),
                set_temperature_mdeg: Some(set_temperature_mdeg),
                temperature_mdeg: old(self).temperature_mdeg,
            }),
            -old(self).current_limit() <= final(self).current_pid.setpoint <= old(
                self,
            ).current_limit(),
            final(self).temperature_pid.ki == (if old(self).ends_current_limited(
                set_temperature_mdeg,
            ) {
                0
            } else {
                (old(self).properties.pid_parameters.i / TEMPERATURE_CONTROL_LOOP_PERIOD_MS) as int
            }),
    {
        let current_limit: i64 = self.current_limit_a();
        self.temperature_pid.output_limit(current_limit);
        if self.temperature_pid.setpoint != set_temperature_mdeg {
            self.temperature_pid.reset_integral_term();
            self.temperature_pid.setpoint(set_temperature_mdeg);
        }
        let temperature: i64 = match self.temperature_mdeg {
            Some(temperature) => temperature,
            None => 0,
        };
        let control_output = self.temperature_pid.next_control_output(temperature);
        let current_setpoint: i64 = control_output.output;
        self.current_pid.setpoint(current_setpoint);

        let is_limited: bool = current_setpoint >= current_limit || current_setpoint <= -current_limit
            || current_setpoint == 0;
        self.configure_temperature_control(is_limited, current_limit);

        if control_output.output <= 0 && control_output.i < 0 {
            self.temperature_pid.reset_integral_term();
        }
        Measurement {
            time_ms: now_ms,
            pid_state: Some(control_output),
            set_temperature_mdeg: Some(set_temperature_mdeg),
            temperature_mdeg: self.temperature_mdeg,
        }
    }

    /// The duty ratio to use for driving the heater, in parts per billion.
    pub fn pwm_ratio(&self) -> (r: i64)
        ensures
            r == self.pwm_ratio,
    {
        self.pwm_ratio
    }

    /// The tool after a current control step.
    pub open spec fn after_current_control(&self, power_measurement: ToolPowerMeasurement) -> Tool {
        let out = self.current_pid.control_output(power_measurement.current_ua as int);
        Tool {
            current_pid: settled(self.current_pid.stepped(power_measurement.current_ua as i64), out),
            pwm_ratio: if out.output > 0 {
                out.output
            } else {
                0
            },
            ..*self
        }
    }

    /// Runs a current control step on a compensated power measurement.
    ///
    /// The controller's output becomes the duty ratio, floored at zero. If
    /// the output undershoots, the integral term is reset.
    pub fn run_current_control(&mut self, power_measurement: &ToolPowerMeasurement)
        requires
            old(self).wf(),
        ensures
            *final(self) == old(self).after_current_control(*power_measurement),
            final(self).wf(),
            0 <= final(self).pwm_ratio <= old(self).current_pid.output_limit,
    {
        let control_output = self.current_pid.next_control_output(
            power_measurement.current_ua as i64,
        );
        if control_output.output <= 0 && control_output.i < 0 {
            self.current_pid.reset_integral_term();
        }
        self.pwm_ratio = if control_output.output > 0 {
            control_output.output
        } else {
            0
        };
    }

    /// The gains of the temperature controller, as the tool's properties give them.
    pub fn get_temperature_pid_parameters(&self) -> (r: crate::library::PidParameters)
        ensures
            r == self.properties.pid_parameters,
    {
        self.properties.pid_parameters
    }
}

/// The current limit is never negative, and at most what the tool's power
/// rating allows and what the supply can give.
pub proof fn lemma_current_limit_bounds(properties: ToolProperties, supply: Supply)
    ensures
        0 <= current_limit_of(properties, supply),
        current_limit_of(properties, supply) <= properties.max_current_ua(
            supply.potential_mv as int,
        ),
        current_limit_of(properties, supply) <= supply.current_limit_ma * 1_000,
{
    if supply.potential_mv != 0 {
        assert(properties.max_power_mw * 1_000_000 / (supply.potential_mv as int) >= 0)
            by (nonlinear_arith)
            requires
                properties.max_power_mw >= 0,
                supply.potential_mv > 0,
        ;
    }
}

/// The current limit does not grow with the margin: of two supplies that
/// differ in the margin alone, the one with the larger margin gives a limit
/// that is not higher.
pub proof fn lemma_current_limit_monotonic(
    properties: ToolProperties,
    supply: Supply,
    larger_margin_ma: u16,
)
    requires
        supply.current_margin_ma <= larger_margin_ma,
    ensures
        current_limit_of(
            properties,
            Supply { current_margin_ma: larger_margin_ma, ..supply },
        ) <= current_limit_of(properties, supply),
{
}

/// Anti-windup: a temperature control step that starts with a zero integral
/// gain never moves the integral term away from zero.
pub proof fn lemma_limited_step_holds_integral(tool: Tool, set_temperature_mdeg: i64)
    requires
        tool.wf(),
        tool.temperature_pid.ki == 0,
    ensures
        vstd::math::abs(
            tool.after_temperature_control(set_temperature_mdeg).temperature_pid.integral_term as int,
        ) <= vstd::math::abs(tool.temperature_pid.integral_term as int),
{
    lemma_current_limit_bounds(tool.properties, tool.supply);
    let prepared = tool.prepared_pid(set_temperature_mdeg);
    crate::pid::lemma_zero_gain_holds_integral(prepared, tool.temperature_or_zero());
}

/// Anti-windup: once a temperature control step has ended current-limited,
/// the integral gain is zero, and the next step does not grow the integral
/// term, whatever its set point, and whatever the temperature, the supply
/// and the placement state have become in between. This holds step after
/// step for as long as the steps end current-limited.
pub proof fn lemma_anti_windup(
    tool: Tool,
    set_temperature_mdeg: i64,
    later: Tool,
    next_set_temperature_mdeg: i64,
)
    requires
        tool.wf(),
        tool.ends_current_limited(set_temperature_mdeg),
        later.wf(),
        later.temperature_pid == tool.after_temperature_control(
            set_temperature_mdeg,
        ).temperature_pid,
    ensures
        later.temperature_pid.ki == 0,
        vstd::math::abs(
            later.after_temperature_control(
                next_set_temperature_mdeg,
            ).temperature_pid.integral_term as int,
        ) <= vstd::math::abs(later.temperature_pid.integral_term as int),
{
    lemma_current_limit_bounds(tool.properties, tool.supply);
    lemma_limited_step_holds_integral(later, next_set_temperature_mdeg);
}

/// Releasing the limit resumes integration: after a temperature control step
/// that does not end current-limited, the integral gain is the tool's own,
/// scaled to the loop period, and the next step accumulates the error with it.
pub proof fn lemma_release_resumes_integration(
    tool: Tool,
    set_temperature_mdeg: i64,
    next_set_temperature_mdeg: i64,
)
    requires
        tool.wf(),
        !tool.ends_current_limited(set_temperature_mdeg),
    ensures
        ({
            let released = tool.after_temperature_control(set_temperature_mdeg);
            let prepared = released.prepared_pid(next_set_temperature_mdeg);
            &&& released.temperature_pid.ki == tool.properties.pid_parameters.i
                / TEMPERATURE_CONTROL_LOOP_PERIOD_MS
            &&& released.temperature_output(next_set_temperature_mdeg).i == crate::pid::saturate(
                prepared.i_limit as int,
                prepared.integral_term + (next_set_temperature_mdeg
                    - released.temperature_or_zero()) * released.temperature_pid.ki,
            )
        }),
{
    lemma_current_limit_bounds(tool.properties, tool.supply);
    let released = tool.after_temperature_control(set_temperature_mdeg);
    lemma_current_limit_bounds(released.properties, released.supply);
    crate::pid::lemma_output_within_limits(
        released.prepared_pid(next_set_temperature_mdeg),
        released.temperature_or_zero(),
    );
}

/// The duty ratio after a current control step is never negative, whatever
/// the controller puts out, and never above the controller's output limit.
pub proof fn lemma_pwm_ratio_not_negative(tool: Tool, power_measurement: ToolPowerMeasurement)
    requires
        tool.wf(),
    ensures
        0 <= tool.after_current_control(power_measurement).pwm_ratio
            <= tool.current_pid.output_limit,
{
    crate::pid::lemma_output_within_limits(tool.current_pid, power_measurement.current_ua as i64);
}

} // verus!
