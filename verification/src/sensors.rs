//! Conversion of raw converter samples into physical quantities.
//!
//! Units: potentials in microvolt, currents in microampere, ratios in parts
//! per million, temperatures in thousandths of a degree Celsius.

use vstd::prelude::*;
use crate::error::Error;
use crate::library::ToolProperties;

verus! {

/// The highest sample value of the converter (16 bit).
pub const ADC_MAX: u64 = 65_535;

/// The reference potential of the converter in microvolt.
pub const VREFBUF_UV: u64 = 2_900_000;

/// The analog supply potential in microvolt.
pub const ANALOG_SUPPLY_UV: u64 = 3_300_000;

/// The potential in microvolt from which a sample counts as being at the upper limit.
pub const MAX_ADC_UV: u64 = 2_800_000;

/// The ratio in ppm between the upper limit of a sample and the analog supply potential.
pub const MAX_ADC_RATIO_PPM: u32 = 848_484;

/// The resistance of the current sense path in milliohm.
pub const CURRENT_SENSE_MOHM: u64 = 200;

/// The divider ratio of the bus potential input, in thousandths.
pub const VOLTAGE_DIVIDER_PERMILLE: u64 = 7_667;

/// The potential in microvolt that a sample value stands for.
pub open spec fn potential_of(value: int) -> int {
    VREFBUF_UV * value / (ADC_MAX as int)
}

/// The detection ratio in ppm that a sample value stands for.
pub open spec fn detect_ratio_of(value: int) -> int {
    potential_of(value) * 1_000_000 / (ANALOG_SUPPLY_UV as int)
}

/// The current in microampere that a sample value of the current sense input stands for.
pub open spec fn current_of(value: int) -> int {
    potential_of(value) * 1_000 / (CURRENT_SENSE_MOHM as int)
}

/// The bus potential in microvolt that a sample value of the divided input stands for.
pub open spec fn bus_potential_of(value: int) -> int {
    potential_of(value) * VOLTAGE_DIVIDER_PERMILLE / 1_000
}

/// Converts a sample value to the measured potential in microvolt.
pub fn adc_value_to_potential(value: u16) -> (r: u32)
    ensures
        r == potential_of(value as int),
        r <= VREFBUF_UV,
{
    (VREFBUF_UV * (value as u64) / ADC_MAX) as u32
}

/// A tool's raw measurements (detection and temperature).
#[derive(Debug, Clone, Copy, PartialEq, Eq, Structural)]
pub struct RawToolMeasurement {
    /// The detection ratio in ppm, by which a tool of the table is assigned.
    pub detect_ratio_ppm: u32,
    /// The amplified thermocouple potential in microvolt.
    pub temperature_potential_uv: u32,
}

impl RawToolMeasurement {
    /// The temperature that the measurement stands for, given a tool's
    /// properties; none where the potential is zero.
    pub open spec fn temperature_mdeg(&self, tool_properties: ToolProperties) -> Option<i64> {
        if self.temperature_potential_uv == 0 {
            None
        } else {
            Some(
                tool_properties.temperature_calibration.temperature_mdeg(
                    self.temperature_potential_uv as int,
                ) as i64,
            )
        }
    }

    /// Derives a tool's temperature, given its properties.
    ///
    /// A potential of zero gives no temperature: the hardware cannot measure
    /// negative thermocouple potentials and reports zero for them, as it does
    /// for a missing tip.
    pub fn temperature(&self, tool_properties: &ToolProperties) -> (r: Option<i64>)
        ensures
            r == self.temperature_mdeg(*tool_properties),
            r.is_some() <==> self.temperature_potential_uv > 0,
            r.is_some() ==> r.unwrap() == tool_properties.temperature_calibration.temperature_mdeg(
                self.temperature_potential_uv as int,
            ),
    {
        if self.temperature_potential_uv == 0 {
            return None;
        }
        Some(tool_properties.temperature_calibration.calc_temperature_c(self.temperature_potential_uv))
    }
}

/// A tool power measurement.
#[derive(Debug, Clone, Copy, PartialEq, Eq, Structural)]
pub struct ToolPowerMeasurement {
    /// The current through the tool in microampere.
    pub current_ua: u32,
    /// The supply potential in microvolt.
    pub potential_uv: u32,
}

impl ToolPowerMeasurement {
    /// The power in microwatt that the measurement stands for.
    pub open spec fn power_uw(&self) -> int {
        self.current_ua * self.potential_uv / 1_000_000
    }

    /// Calculates the tool's power dissipation in microwatt.
    pub fn power(&self) -> (r: u64)
        ensures
            r == self.power_uw(),
    {
        assert(self.current_ua * self.potential_uv <= 0xffff_ffff * 0xffff_ffff) by (nonlinear_arith)
            requires
                self.current_ua <= 0xffff_ffff,
                self.potential_uv <= 0xffff_ffff,
        ;
        (self.current_ua as u64) * (self.potential_uv as u64) / 1_000_000
    }

    /// The current left after the idle current is taken off, never below zero.
    pub open spec fn compensated_ua(&self, idle: ToolPowerMeasurement) -> int {
        if self.current_ua > idle.current_ua {
            self.current_ua - idle.current_ua
        } else {
            0
        }
    }

    /// Compensates the current with an idle power measurement: the idle
    /// current is subtracted, and the result is floored at zero.
    pub fn compensate(&mut self, idle: &ToolPowerMeasurement)
        ensures
            final(self).current_ua == old(self).compensated_ua(*idle),
            final(self).current_ua >= 0,
            final(self).current_ua <= old(self).current_ua,
            final(self).potential_uv == old(self).potential_uv,
    {
        self.current_ua = if self.current_ua > idle.current_ua {
            self.current_ua - idle.current_ua
        } else {
            0
        };
    }
}

/// Turns the two samples of a tool measurement (detection input,
/// thermocouple input) into a raw measurement.
///
/// Fails with `NoTool` if the detection ratio is above the highest
/// measurable ratio: the detection circuit is open.
pub fn measure_tool(detect_value: u16, temperature_value: u16) -> (r: Result<
    RawToolMeasurement,
    Error,
>)
    ensures
        detect_ratio_of(detect_value as int) > MAX_ADC_RATIO_PPM ==> r == Err::<
            RawToolMeasurement,
            Error,
        >(Error::NoTool),
        detect_ratio_of(detect_value as int) <= MAX_ADC_RATIO_PPM ==> r == Ok::<
            RawToolMeasurement,
            Error,
        >(
            RawToolMeasurement {
                detect_ratio_ppm: detect_ratio_of(detect_value as int) as u32,
                temperature_potential_uv: potential_of(temperature_value as int) as u32,
            },
        ),
{
    let detect_uv: u64 = adc_value_to_potential(detect_value) as u64;
    let detect_ratio_ppm: u32 = (detect_uv * 1_000_000 / ANALOG_SUPPLY_UV) as u32;
    let temperature_potential_uv: u32 = adc_value_to_potential(temperature_value);
    if detect_ratio_ppm > MAX_ADC_RATIO_PPM {
        Err(Error::NoTool)
    } else {
        Ok(RawToolMeasurement { detect_ratio_ppm, temperature_potential_uv })
    }
}

/// Turns the two samples of a power measurement (current sense input,
/// divided bus potential input) into a power measurement.
pub fn measure_tool_power(current_value: u16, voltage_value: u16) -> (r: ToolPowerMeasurement)
    ensures
        r.current_ua == current_of(current_value as int),
        r.potential_uv == bus_potential_of(voltage_value as int),
{
    let sense_uv: u64 = adc_value_to_potential(current_value) as u64;
    let divided_uv: u64 = adc_value_to_potential(voltage_value) as u64;
    ToolPowerMeasurement {
        current_ua: (sense_uv * 1_000 / CURRENT_SENSE_MOHM) as u32,
        potential_uv: (divided_uv * VOLTAGE_DIVIDER_PERMILLE / 1_000) as u32,
    }
}

} // verus!
