//! The table of supported tools (soldering irons) and the matching of a
//! measured detection ratio against it.
//!
//! Units: ratios in parts per million, potentials in microvolt or millivolt,
//! currents in microampere, temperatures in thousandths of a degree Celsius.

use vstd::prelude::*;
use crate::error::Error;

verus! {

/// Gain of the thermocouple amplifier.
pub const THERMOCOUPLE_GAIN: u64 = 221;

/// A measured detection ratio matches a tool if it is closer than this to the tool's own, in ppm.
pub const DETECTION_RATIO_ABS_TOLERANCE: u32 = 50_000;

/// Divisor of the quadratic calibration term.
pub const QUADRATIC_SCALE: u128 = 10_000_000_000;

/// Divisor of the linear calibration term.
pub const LINEAR_SCALE: u128 = 10_000;

/// Gains of the temperature controller.
#[derive(Debug, Clone, Copy, PartialEq, Eq, Structural)]
pub struct PidParameters {
    /// Proportional gain, in microampere per millidegree.
    pub p: u32,
    /// Integral gain, in microampere per millidegree; divided by the loop
    /// period in ms (rounded down) it is the gain of one step.
    pub i: u32,
    /// Derivative gain, in microampere per millidegree; times the loop period
    /// in ms it is the gain of one step.
    pub d: u32,
}

/// Quadratic mapping from thermocouple potential to temperature.
///
/// With `v` the thermocouple potential in tenths of a microvolt, the
/// temperature in millidegrees is
/// `quadratic * v * v / 10^10 + linear * v / 10^4 + constant`,
/// each quotient rounded towards zero.
#[derive(Debug, Clone, Copy, PartialEq, Eq, Structural)]
pub struct TemperatureCalibration {
    /// Quadratic coefficient.
    pub quadratic: i32,
    /// Linear coefficient.
    pub linear: i32,
    /// Constant term in millidegrees.
    pub constant: i32,
}

/// `coefficient * x / scale`, rounded towards zero.
pub open spec fn scaled_term(coefficient: int, x: int, scale: int) -> int {
    if coefficient >= 0 {
        coefficient * x / scale
    } else {
        -((-coefficient) * x / scale)
    }
}

/// The thermocouple potential in tenths of a microvolt, from the amplified potential in microvolt.
pub open spec fn thermocouple_potential(amplified_uv: int) -> int {
    amplified_uv * 10 / (THERMOCOUPLE_GAIN as int)
}

/// `coefficient * x / scale`, rounded towards zero, in machine integers.
fn scaled(coefficient: i32, x: u128, scale: u128) -> (r: i64)
    requires
        0 < scale <= 10_000_000_000,
        x <= scale * 4_000_000,
    ensures
        r == scaled_term(coefficient as int, x as int, scale as int),
        -8_589_934_592_000_000 <= r <= 8_589_934_592_000_000,
{
    let magnitude: u128 = if coefficient >= 0 {
        coefficient as u128
    } else {
        (-(coefficient as i64)) as u128
    };
    assert(magnitude * x <= 0x8000_0000 * 4_000_000 * scale) by (nonlinear_arith)
        requires
            magnitude <= 0x8000_0000,
            x <= scale * 4_000_000,
    ;
    assert(0x8000_0000 * 4_000_000 * scale <= 0x8000_0000 * 4_000_000 * 10_000_000_000)
        by (nonlinear_arith)
        requires
            scale <= 10_000_000_000,
    ;
    let product: u128 = magnitude * x;
    let quotient: u128 = product / scale;
    assert(quotient <= 0x8000_0000 * 4_000_000) by (nonlinear_arith)
        requires
            quotient == product / scale,
            product <= 0x8000_0000 * 4_000_000 * scale,
            scale > 0,
    ;
    if coefficient >= 0 {
        quotient as i64
    } else {
        -(quotient as i64)
    }
}

impl TemperatureCalibration {
    /// The temperature in millidegrees for an amplified thermocouple potential in microvolt.
    pub open spec fn temperature_mdeg(&self, amplified_uv: int) -> int {
        let v = thermocouple_potential(amplified_uv);
        scaled_term(self.quadratic as int, v * v, QUADRATIC_SCALE as int) + scaled_term(
            self.linear as int,
            v,
            LINEAR_SCALE as int,
        ) + self.constant
    }

    /// Calculates the temperature, in thousandths of a degree Celsius, from
    /// the amplified thermocouple potential in microvolt.
    pub fn calc_temperature_c(&self, tc_potential_uv: u32) -> (r: i64)
        ensures
            r == self.temperature_mdeg(tc_potential_uv as int),
    {
        let v: u128 = (tc_potential_uv as u128 * 10) / (THERMOCOUPLE_GAIN as u128);
        assert(v <= 200_000_000);
        assert(v * v <= 40_000_000_000_000_000) by (nonlinear_arith)
            requires
                v <= 200_000_000,
        ;
        assert(v <= LINEAR_SCALE * 4_000_000);
        let quadratic: i64 = scaled(self.quadratic, v * v, QUADRATIC_SCALE);
        let linear: i64 = scaled(self.linear, v, LINEAR_SCALE);
        quadratic + linear + self.constant as i64
    }
}

/// Properties of a tool (soldering iron).
#[derive(Debug, Clone, Copy, PartialEq, Eq)]
pub struct ToolProperties {
    /// The tool's name.
    pub name: &'static str,
    /// Maximum allowed tool power in milliwatt.
    pub max_power_mw: u32,
    /// Approximate heater resistance in milliohm.
    pub heater_resistance_mohm: u32,
    /// The detection ratio that tells tools apart, in ppm: the divider ratio
    /// of the tool's identification resistor against the station's pull-up.
    pub detect_ratio_ppm: u32,
    /// Temperature calibration.
    pub temperature_calibration: TemperatureCalibration,
    /// Gains of the temperature controller.
    pub pid_parameters: PidParameters,
}

impl ToolProperties {
    /// The highest current in microampere that the tool's power rating allows
    /// at a potential in millivolt; without a potential there is no bound.
    pub open spec fn max_current_ua(&self, potential_mv: int) -> int {
        if potential_mv == 0 {
            i64::MAX as int
        } else {
            self.max_power_mw * 1_000_000 / potential_mv
        }
    }

    /// Calculates the maximum supported current in microampere, based on the
    /// available potential in millivolt.
    pub fn max_current_a(&self, potential_mv: u32) -> (r: i64)
        ensures
            r == self.max_current_ua(potential_mv as int),
            r >= 0,
    {
        if potential_mv == 0 {
            i64::MAX
        } else {
            let power: u64 = self.max_power_mw as u64 * 1_000_000;
            (power / (potential_mv as u64)) as i64
        }
    }

    /// True if a measured detection ratio is within the tolerance of this tool's ratio.
    pub open spec fn matches(&self, detect_ratio_ppm: int) -> bool {
        vstd::math::abs(detect_ratio_ppm - self.detect_ratio_ppm) < DETECTION_RATIO_ABS_TOLERANCE
    }

    /// Tells whether a measured detection ratio is within the tolerance of this tool's ratio.
    pub fn is_match(&self, detect_ratio_ppm: u32) -> (r: bool)
        ensures
            r == self.matches(detect_ratio_ppm as int),
    {
        let distance: u32 = if detect_ratio_ppm >= self.detect_ratio_ppm {
            detect_ratio_ppm - self.detect_ratio_ppm
        } else {
            self.detect_ratio_ppm - detect_ratio_ppm
        };
        distance < DETECTION_RATIO_ABS_TOLERANCE
    }
}

/// The JBC T210 handle.
pub open spec fn jbc_t210() -> ToolProperties {
    ToolProperties {
        name: "JBC T210",
        max_power_mw: 60_000,
        heater_resistance_mohm: 2_000,
        detect_ratio_ppm: 0,
        temperature_calibration: TemperatureCalibration {
            quadratic: (-795_860i32),
            linear: 122_390,
            constant: 26_932,
        },
        pid_parameters: PidParameters { p: 40, i: 500, d: 0 },
    }
}

/// The JBC T245 handle.
pub open spec fn jbc_t245() -> ToolProperties {
    ToolProperties {
        name: "JBC T245",
        max_power_mw: 130_000,
        heater_resistance_mohm: 2_800,
        detect_ratio_ppm: 500_000,
        temperature_calibration: TemperatureCalibration {
            quadratic: (-6_972i32),
            linear: 37_855,
            constant: 30_614,
        },
        pid_parameters: PidParameters { p: 200, i: 500, d: 0 },
    }
}

/// The table of all supported tools, in matching order.
pub open spec fn supported_tools() -> Seq<ToolProperties> {
    seq![jbc_t210(), jbc_t245()]
}

/// The table of all supported tools, in matching order.
pub fn tools() -> (r: Vec<ToolProperties>)
    ensures
        r@ == supported_tools(),
        well_separated(r@),
{
    let mut table: Vec<ToolProperties> = Vec::new();
    table.push(
        ToolProperties {
            name: "JBC T210",
            max_power_mw: 60_000,
            heater_resistance_mohm: 2_000,
            detect_ratio_ppm: 0,
            temperature_calibration: TemperatureCalibration {
                quadratic: -795_860,
                linear: 122_390,
                constant: 26_932,
            },
            pid_parameters: PidParameters { p: 40, i: 500, d: 0 },
        },
    );
    table.push(
        ToolProperties {
            name: "JBC T245",
            max_power_mw: 130_000,
            heater_resistance_mohm: 2_800,
            detect_ratio_ppm: 500_000,
            temperature_calibration: TemperatureCalibration {
                quadratic: -6_972,
                linear: 37_855,
                constant: 30_614,
            },
            pid_parameters: PidParameters { p: 200, i: 500, d: 0 },
        },
    );
    assert(table@ =~= supported_tools());
    table
}

/// True if no entry before `index` matches the ratio.
pub open spec fn none_match_before(
    table: Seq<ToolProperties>,
    detect_ratio_ppm: int,
    index: int,
) -> bool {
    forall|j: int| 0 <= j < index ==> !(#[trigger] table[j]).matches(detect_ratio_ppm)
}

/// The index of the first entry of the table that matches the ratio, if any does.
pub open spec fn first_match(table: Seq<ToolProperties>, detect_ratio_ppm: int) -> Option<int> {
    if exists|i: int|
        0 <= i < table.len() && table[i].matches(detect_ratio_ppm) && none_match_before(
            table,
            detect_ratio_ppm,
            i,
        ) {
        Some(
            choose|i: int|
                0 <= i < table.len() && table[i].matches(detect_ratio_ppm) && none_match_before(
                    table,
                    detect_ratio_ppm,
                    i,
                ),
        )
    } else {
        None
    }
}

/// True if the detection ratios of any two entries are at least twice the
/// tolerance apart, so that no measured ratio can match both.
pub open spec fn well_separated(table: Seq<ToolProperties>) -> bool {
    forall|i: int, j: int|
        0 <= i < j < table.len() ==> vstd::math::abs(
            (#[trigger] table[i]).detect_ratio_ppm - (#[trigger] table[j]).detect_ratio_ppm,
        ) >= 2 * DETECTION_RATIO_ABS_TOLERANCE
}

/// Finds the first tool of the table whose detection ratio matches the
/// measured one; unknown if none does.
pub fn properties_for(table: &[ToolProperties], detect_ratio_ppm: u32) -> (r: Result<usize, Error>)
    ensures
        match r {
            Ok(index) => {
                &&& index < table@.len()
                &&& table@[index as int].matches(detect_ratio_ppm as int)
                &&& none_match_before(table@, detect_ratio_ppm as int, index as int)
                &&& first_match(table@, detect_ratio_ppm as int) == Some(index as int)
            },
            Err(error) => {
                &&& error == Error::UnknownTool
                &&& none_match_before(table@, detect_ratio_ppm as int, table@.len() as int)
                &&& first_match(table@, detect_ratio_ppm as int) == None::<int>
            },
        },
{
    let mut index: usize = 0;
    while index < table.len()
        invariant
            index <= table@.len(),
            none_match_before(table@, detect_ratio_ppm as int, index as int),
        decreases table@.len() - index,
    {
        if table[index].is_match(detect_ratio_ppm) {
            proof {
                lemma_first_match_is(table@, detect_ratio_ppm as int, index as int);
            }
            return Ok(index);
        }
        index += 1;
    }
    Err(Error::UnknownTool)
}

/// Two entries that both match with none matching before them are the same entry.
pub proof fn lemma_first_match_is(table: Seq<ToolProperties>, detect_ratio_ppm: int, index: int)
    requires
        0 <= index < table.len(),
        table[index].matches(detect_ratio_ppm),
        none_match_before(table, detect_ratio_ppm, index),
    ensures
        first_match(table, detect_ratio_ppm) == Some(index),
{
    let found = first_match(table, detect_ratio_ppm).unwrap();
    if found < index {
        assert(!table[found].matches(detect_ratio_ppm));
    } else if index < found {
        assert(!table[index].matches(detect_ratio_ppm));
    }
}

/// Detection is deterministic: in a table whose ratios are well separated at
/// most one entry matches a measured ratio, so the entry found is the only
/// one that matches.
pub proof fn lemma_match_is_unique(
    table: Seq<ToolProperties>,
    detect_ratio_ppm: int,
    i: int,
    j: int,
)
    requires
        well_separated(table),
        0 <= i < table.len(),
        0 <= j < table.len(),
        table[i].matches(detect_ratio_ppm),
        table[j].matches(detect_ratio_ppm),
    ensures
        i == j,
        first_match(table, detect_ratio_ppm) == Some(i),
{
    if i < j {
        assert(vstd::math::abs(table[i].detect_ratio_ppm - table[j].detect_ratio_ppm) >= 2
            * DETECTION_RATIO_ABS_TOLERANCE);
    } else if j < i {
        assert(vstd::math::abs(table[j].detect_ratio_ppm - table[i].detect_ratio_ppm) >= 2
            * DETECTION_RATIO_ABS_TOLERANCE);
    }
    assert forall|k: int| 0 <= k < i implies !(#[trigger] table[k]).matches(detect_ratio_ppm) by {
        if table[k].matches(detect_ratio_ppm) {
            assert(vstd::math::abs(table[k].detect_ratio_ppm - table[i].detect_ratio_ppm) >= 2
                * DETECTION_RATIO_ABS_TOLERANCE);
        }
    }
    lemma_first_match_is(table, detect_ratio_ppm, i);
}

/// The detection ratios of the supported tools are well separated.
pub proof fn lemma_supported_tools_well_separated()
    ensures
        well_separated(supported_tools()),
{
}

/// Detection among the supported tools is deterministic: a measured ratio
/// that matches a supported tool matches no other, and that tool is the one
/// found.
pub proof fn lemma_detection_deterministic(detect_ratio_ppm: int, i: int, j: int)
    requires
        0 <= i < supported_tools().len(),
        0 <= j < supported_tools().len(),
        supported_tools()[i].matches(detect_ratio_ppm),
        supported_tools()[j].matches(detect_ratio_ppm),
    ensures
        i == j,
        first_match(supported_tools(), detect_ratio_ppm) == Some(i),
{
    lemma_supported_tools_well_separated();
    lemma_match_is_unique(supported_tools(), detect_ratio_ppm, i, j);
}

} // verus!
