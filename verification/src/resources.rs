//! The settings of the heater's hardware: the duty cycle of the heater
//! switch and the peak current limit of the current monitor.
//!
//! The values kept here are what the platform layer writes to the timer and
//! to the converter that sets the limit; the tip test is run in two halves
//! around the platform's wait for the over-current edge.

use vstd::prelude::*;
use crate::error::Error;
use crate::tool::PWM_RATIO_ONE;

verus! {

/// Peak current limit for the tool in microampere.
pub const PEAK_CURRENT_LIMIT_UA: u32 = 10_000_000;

/// Peak current limit during the tip test in microampere.
pub const TIP_TEST_CURRENT_LIMIT_UA: u32 = 100_000;

/// Duty ratio of the tip test pulse in parts per billion.
pub const TIP_TEST_PWM_RATIO: i64 = 100_000_000;

/// How long the tip test waits for the over-current edge, in microseconds.
pub const TIP_TEST_TIMEOUT_US: u64 = 100;

/// Numerator of the limit setting per microampere: the full scale of the
/// 12-bit converter times the current monitor's gain of 0.2 V/A.
pub const LIMIT_NUMERATOR: u64 = 8_192;

/// Denominator of the limit setting: the converter's reference of 2.9 V,
/// brought to the scale of the numerator.
pub const LIMIT_DENOMINATOR: u64 = 29_000_000;

/// The converter setting for a peak current limit in microampere, rounded to
/// the nearest step and saturated at 16 bit.
pub open spec fn limit_setting(current_ua: int) -> int {
    let rounded = (LIMIT_NUMERATOR * current_ua + LIMIT_DENOMINATOR / 2) / (
    LIMIT_DENOMINATOR as int);
    if rounded > u16::MAX {
        u16::MAX as int
    } else {
        rounded
    }
}

/// The duty cycle for a duty ratio in parts per billion on a timer with the
/// given maximum; ratios below zero count as zero, ratios above one as one.
pub open spec fn duty_of(ratio: int, max_duty_cycle: int) -> int {
    if ratio <= 0 {
        0
    } else if ratio >= PWM_RATIO_ONE {
        max_duty_cycle
    } else {
        ratio * max_duty_cycle / (PWM_RATIO_ONE as int)
    }
}

/// What a tip test has to put back when it ends.
#[derive(Debug, Clone, Copy, PartialEq, Eq, Structural)]
pub struct TipTest {
    /// The peak current limit setting before the test.
    pub peak_current_limit: u16,
    /// The duty cycle before the test.
    pub duty_cycle: u16,
}

/// Settings of the heater's hardware.
#[derive(Debug, Clone, Copy, PartialEq, Eq, Structural)]
pub struct ToolResources {
    /// The setting of the converter that gives the peak current limit.
    pub peak_current_limit: u16,
    /// The duty cycle of the heater switch.
    pub duty_cycle: u16,
    /// The duty cycle at which the heater switch is always on.
    pub max_duty_cycle: u16,
}

impl ToolResources {
    /// The duty cycle never exceeds the timer's maximum.
    pub open spec fn wf(&self) -> bool {
        self.duty_cycle <= self.max_duty_cycle
    }

    /// The settings for a timer with the given maximum duty cycle: heater
    /// off, peak current limit at its operating value.
    pub fn new(max_duty_cycle: u16) -> (r: ToolResources)
        ensures
            r == (ToolResources {
                peak_current_limit: limit_setting(PEAK_CURRENT_LIMIT_UA as int) as u16,
                duty_cycle: 0,
                max_duty_cycle,
            }),
            r.wf(),
    {
        let mut resources = ToolResources { peak_current_limit: 0, duty_cycle: 0, max_duty_cycle };
        resources.init();
        resources
    }

    /// Initial setup: the peak current limit gets its operating value.
    pub fn init(&mut self)
        ensures
            *final(self) == (ToolResources {
                peak_current_limit: limit_setting(PEAK_CURRENT_LIMIT_UA as int) as u16,
                ..*old(self)
            }),
    {
        self.set_peak_current_limit(PEAK_CURRENT_LIMIT_UA);
    }

    /// Sets the duty cycle for a duty ratio in parts per billion.
    pub fn set_pwm_duty_cycle(&mut self, ratio: i64)
        ensures
            *final(self) == (ToolResources {
                duty_cycle: duty_of(ratio as int, old(self).max_duty_cycle as int) as u16,
                ..*old(self)
            }),
            final(self).wf(),
            ratio <= 0 ==> final(self).duty_cycle == 0,
    {
        if ratio <= 0 {
            self.duty_cycle = 0;
        } else if ratio >= PWM_RATIO_ONE {
            self.duty_cycle = self.max_duty_cycle;
        } else {
            let max: u64 = self.max_duty_cycle as u64;
            assert(ratio * max <= 1_000_000_000 * 0xffff) by (nonlinear_arith)
                requires
                    0 < ratio < 1_000_000_000,
                    0 <= max <= 0xffff,
            ;
            let scaled: u64 = ratio as u64 * max;
            assert(scaled / 1_000_000_000 <= max) by (nonlinear_arith)
                requires
                    scaled == ratio * max,
                    0 < ratio < 1_000_000_000,
                    0 <= max,
            ;
            self.duty_cycle = (scaled / (PWM_RATIO_ONE as u64)) as u16;
        }
    }

    /// Switches the heater off.
    pub fn set_duty_cycle_fully_off(&mut self)
        ensures
            *final(self) == (ToolResources { duty_cycle: 0, ..*old(self) }),
            final(self).wf(),
    {
        self.duty_cycle = 0;
    }

    /// Sets the peak current limit of the current monitor, for a current in microampere.
    pub fn set_peak_current_limit(&mut self, current_ua: u32)
        ensures
            *final(self) == (ToolResources {
                peak_current_limit: limit_setting(current_ua as int) as u16,
                ..*old(self)
            }),
    {
        let rounded: u64 = (LIMIT_NUMERATOR * (current_ua as u64) + LIMIT_DENOMINATOR / 2)
            / LIMIT_DENOMINATOR;
        self.peak_current_limit = if rounded > 0xffff {
            0xffff
        } else {
            rounded as u16
        };
    }

    /// Starts the tip test: lowers the peak current limit to the test value
    /// and sets the duty cycle of the test pulse. Returns what the end of the
    /// test puts back.
    ///
    /// The platform then waits for the over-current edge, no longer than the
    /// test's timeout, and ends the test with what it saw.
    pub fn begin_tip_test(&mut self) -> (test: TipTest)
        ensures
            test == (TipTest {
                peak_current_limit: old(self).peak_current_limit,
                duty_cycle: old(self).duty_cycle,
            }),
            *final(self) == (ToolResources {
                peak_current_limit: limit_setting(TIP_TEST_CURRENT_LIMIT_UA as int) as u16,
                duty_cycle: duty_of(TIP_TEST_PWM_RATIO as int, old(self).max_duty_cycle as int) as u16,
                ..*old(self)
            }),
    {
        let test = TipTest {
            peak_current_limit: self.peak_current_limit,
            duty_cycle: self.duty_cycle,
        };
        self.set_peak_current_limit(TIP_TEST_CURRENT_LIMIT_UA);
        self.set_pwm_duty_cycle(TIP_TEST_PWM_RATIO);
        test
    }

    /// Ends the tip test: puts the peak current limit and the duty cycle
    /// back, whatever the outcome. An over-current edge within the timeout
    /// shows a heater path of low resistance: a tip is present. Without it
    /// there is no tip.
    pub fn test_tip_current(&mut self, test: TipTest, edge_within_timeout: bool) -> (r: Result<
        (),
        Error,
    >)
        ensures
            *final(self) == (ToolResources {
                peak_current_limit: test.peak_current_limit,
                duty_cycle: test.duty_cycle,
                ..*old(self)
            }),
            edge_within_timeout ==> r == Ok::<(), Error>(()),
            !edge_within_timeout ==> r == Err::<(), Error>(Error::NoTip),
    {
        self.duty_cycle = test.duty_cycle;
        self.peak_current_limit = test.peak_current_limit;
        if !edge_within_timeout {
            return Err(Error::NoTip);
        }
        Ok(())
    }
}

} // verus!
