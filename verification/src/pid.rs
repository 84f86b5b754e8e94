//! A fixed-point proportional-integral-derivative controller.
//!
//! All quantities are integers; the caller picks units such that the gains
//! are whole numbers. Each of the three terms and the total output is
//! saturated at its own symmetric limit.

use vstd::prelude::*;

verus! {

/// The highest limit: a term with this limit is, in effect, not limited.
pub const UNLIMITED: i64 = i64::MAX;

/// Saturates `value` at `-bound` and `bound`.
pub open spec fn saturate(bound: int, value: int) -> int {
    if value > bound {
        bound
    } else if value < -bound {
        -bound
    } else {
        value
    }
}

/// The terms of one controller step, and the total output.
#[derive(Debug, Clone, Copy, PartialEq, Eq, Structural)]
pub struct ControlOutput {
    /// Contribution of the proportional term.
    pub p: i64,
    /// Contribution of the integral term.
    pub i: i64,
    /// Contribution of the derivative term.
    pub d: i64,
    /// The saturated sum of the three terms.
    pub output: i64,
}

/// The controller: set point, gains, limits, and the state carried between steps.
#[derive(Debug, Clone, Copy, PartialEq, Eq)]
pub struct Pid {
    /// The set point to strive for.
    pub setpoint: i64,
    /// Limit of the total output.
    pub output_limit: i64,
    /// Proportional gain.
    pub kp: i64,
    /// Integral gain.
    pub ki: i64,
    /// Derivative gain.
    pub kd: i64,
    /// Limit of the proportional term.
    pub p_limit: i64,
    /// Limit of the integral term.
    pub i_limit: i64,
    /// Limit of the derivative term.
    pub d_limit: i64,
    /// The accumulated integral term.
    pub integral_term: i64,
    /// The measurement of the previous step, if there was one.
    pub prev_measurement: Option<i64>,
}

/// Saturates a wide intermediate value at a non-negative limit.
fn apply_limit(bound: i64, value: i128) -> (r: i64)
    requires
        bound >= 0,
    ensures
        r == saturate(bound as int, value as int),
{
    if value > bound as i128 {
        bound
    } else if value < -(bound as i128) {
        -bound
    } else {
        value as i64
    }
}

/// The product of two 64-bit factors, one of them a difference of two such values.
fn wide_product(difference: i128, gain: i64) -> (r: i128)
    requires
        -0x1_0000_0000_0000_0000 < difference < 0x1_0000_0000_0000_0000,
    ensures
        r == difference * gain,
        -0x7fff_ffff_ffff_ffff_8000_0000_0000_0000 <= r <= 0x7fff_ffff_ffff_ffff_8000_0000_0000_0000,
{
    assert(-0x7fff_ffff_ffff_ffff_8000_0000_0000_0000 <= difference * gain
        <= 0x7fff_ffff_ffff_ffff_8000_0000_0000_0000) by (nonlinear_arith)
        requires
            -0xffff_ffff_ffff_ffff <= difference <= 0xffff_ffff_ffff_ffff,
            -0x8000_0000_0000_0000 <= gain <= 0x8000_0000_0000_0000,
    ;
    difference * (gain as i128)
}

impl Pid {
    /// All four limits are non-negative.
    pub open spec fn wf(&self) -> bool {
        &&& self.output_limit >= 0
        &&& self.p_limit >= 0
        &&& self.i_limit >= 0
        &&& self.d_limit >= 0
    }

    /// The control error for a measurement.
    pub open spec fn error(&self, measurement: int) -> int {
        self.setpoint - measurement
    }

    /// The proportional term for a measurement.
    pub open spec fn p_term(&self, measurement: int) -> int {
        saturate(self.p_limit as int, self.error(measurement) * self.kp)
    }

    /// The integral term after a step with a measurement.
    pub open spec fn i_term(&self, measurement: int) -> int {
        saturate(
            self.i_limit as int,
            self.integral_term + self.error(measurement) * self.ki,
        )
    }

    /// The change of the measurement since the previous step; zero on the first step.
    pub open spec fn measurement_change(&self, measurement: int) -> int {
        match self.prev_measurement {
            Some(previous) => measurement - previous,
            None => 0,
        }
    }

    /// The derivative term for a measurement. It acts on the measurement, not on the error.
    pub open spec fn d_term(&self, measurement: int) -> int {
        saturate(self.d_limit as int, -self.measurement_change(measurement) * self.kd)
    }

    /// The total output of a step with a measurement.
    pub open spec fn output(&self, measurement: int) -> int {
        saturate(
            self.output_limit as int,
            self.p_term(measurement) + self.i_term(measurement) + self.d_term(measurement),
        )
    }

    /// The terms and the output of a step with a measurement.
    pub open spec fn control_output(&self, measurement: int) -> ControlOutput {
        ControlOutput {
            p: self.p_term(measurement) as i64,
            i: self.i_term(measurement) as i64,
            d: self.d_term(measurement) as i64,
            output: self.output(measurement) as i64,
        }
    }

    /// The controller after a step with a measurement.
    pub open spec fn stepped(&self, measurement: i64) -> Pid {
        Pid {
            integral_term: self.i_term(measurement as int) as i64,
            prev_measurement: Some(measurement),
            ..*self
        }
    }

    /// A controller with the given set point and output limit, all gains and
    /// term limits zero, and no history.
    pub fn new(setpoint: i64, output_limit: i64) -> (r: Pid)
        requires
            output_limit >= 0,
        ensures
            r == (Pid {
                setpoint,
                output_limit,
                kp: 0,
                ki: 0,
                kd: 0,
                p_limit: 0,
                i_limit: 0,
                d_limit: 0,
                integral_term: 0,
                prev_measurement: None,
            }),
            r.wf(),
    {
        Pid {
            setpoint,
            output_limit,
            kp: 0,
            ki: 0,
            kd: 0,
            p_limit: 0,
            i_limit: 0,
            d_limit: 0,
            integral_term: 0,
            prev_measurement: None,
        }
    }

    /// Sets the proportional gain and the limit of the proportional term.
    pub fn p(&mut self, gain: i64, limit: i64)
        requires
            limit >= 0,
        ensures
            *final(self) == (Pid { kp: gain, p_limit: limit, ..*old(self) }),
    {
        self.kp = gain;
        self.p_limit = limit;
    }

    /// Sets the integral gain and the limit of the integral term.
    pub fn i(&mut self, gain: i64, limit: i64)
        requires
            limit >= 0,
        ensures
            *final(self) == (Pid { ki: gain, i_limit: limit, ..*old(self) }),
    {
        self.ki = gain;
        self.i_limit = limit;
    }

    /// Sets the derivative gain and the limit of the derivative term.
    pub fn d(&mut self, gain: i64, limit: i64)
        requires
            limit >= 0,
        ensures
            *final(self) == (Pid { kd: gain, d_limit: limit, ..*old(self) }),
    {
        self.kd = gain;
        self.d_limit = limit;
    }

    /// Sets the set point.
    pub fn setpoint(&mut self, setpoint: i64)
        ensures
            *final(self) == (Pid { setpoint, ..*old(self) }),
    {
        self.setpoint = setpoint;
    }

    /// Sets the limit of the total output.
    pub fn output_limit(&mut self, limit: i64)
        requires
            limit >= 0,
        ensures
            *final(self) == (Pid { output_limit: limit, ..*old(self) }),
    {
        self.output_limit = limit;
    }

    /// Resets the integral term to zero.
    pub fn reset_integral_term(&mut self)
        ensures
            *final(self) == (Pid { integral_term: 0, ..*old(self) }),
    {
        self.integral_term = 0;
    }

    /// Takes a measurement and computes the next control output.
    ///
    /// The integral term accumulates the error times the integral gain and is
    /// saturated at its limit; the measurement is remembered for the
    /// derivative term of the next step.
    pub fn next_control_output(&mut self, measurement: i64) -> (out: ControlOutput)
        requires
            old(self).wf(),
        ensures
            *final(self) == old(self).stepped(measurement),
            out == old(self).control_output(measurement as int),
            out.p == old(self).p_term(measurement as int),
            out.i == old(self).i_term(measurement as int),
            out.d == old(self).d_term(measurement as int),
            out.output == old(self).output(measurement as int),
            final(self).wf(),
    {
        let error: i128 = self.setpoint as i128 - measurement as i128;
        let p: i64 = apply_limit(self.p_limit, wide_product(error, self.kp));
        let grown: i128 = self.integral_term as i128 + wide_product(error, self.ki);
        let i: i64 = apply_limit(self.i_limit, grown);
        let change: i128 = match self.prev_measurement {
            Some(previous) => measurement as i128 - previous as i128,
            None => 0i128,
        };
        let d: i64 = apply_limit(self.d_limit, wide_product(-change, self.kd));
        self.integral_term = i;
        self.prev_measurement = Some(measurement);
        let output: i64 = apply_limit(self.output_limit, p as i128 + i as i128 + d as i128);
        ControlOutput { p, i, d, output }
    }
}

/// With a zero integral gain a step does not move an integral term that lies
/// within its limit, and never moves one away from zero.
pub proof fn lemma_zero_gain_holds_integral(pid: Pid, measurement: i64)
    requires
        pid.wf(),
        pid.ki == 0,
    ensures
        vstd::math::abs(pid.stepped(measurement).integral_term as int) <= vstd::math::abs(
            pid.integral_term as int,
        ),
        -pid.i_limit <= pid.integral_term <= pid.i_limit ==> pid.stepped(measurement).integral_term
            == pid.integral_term,
{
    assert(pid.error(measurement as int) * 0 == 0) by (nonlinear_arith);
}

/// The output of a step lies within the output limit, and each term within its own.
pub proof fn lemma_output_within_limits(pid: Pid, measurement: i64)
    requires
        pid.wf(),
    ensures
        -pid.output_limit <= pid.output(measurement as int) <= pid.output_limit,
        -pid.p_limit <= pid.p_term(measurement as int) <= pid.p_limit,
        -pid.i_limit <= pid.i_term(measurement as int) <= pid.i_limit,
        -pid.d_limit <= pid.d_term(measurement as int) <= pid.d_limit,
{
}

} // verus!
