use loeti::error::Error;
use loeti::library::{
    properties_for, tools, PidParameters, TemperatureCalibration, ToolProperties,
    DETECTION_RATIO_ABS_TOLERANCE,
};

fn entry(name: &'static str, detect_ratio_ppm: u32) -> ToolProperties {
    ToolProperties {
        name,
        max_power_mw: 50_000,
        heater_resistance_mohm: 2_500,
        detect_ratio_ppm,
        temperature_calibration: TemperatureCalibration { quadratic: 0, linear: 0, constant: 20_000 },
        pid_parameters: PidParameters { p: 10, i: 100, d: 0 },
    }
}

#[test]
fn table_holds_the_two_handles_in_order() {
    let table = tools();
    assert_eq!(table.len(), 2);
    assert_eq!(table[0].name, "JBC T210");
    assert_eq!(table[0].max_power_mw, 60_000);
    assert_eq!(table[0].heater_resistance_mohm, 2_000);
    assert_eq!(table[0].detect_ratio_ppm, 0);
    assert_eq!(table[0].pid_parameters, PidParameters { p: 40, i: 500, d: 0 });
    assert_eq!(table[1].name, "JBC T245");
    assert_eq!(table[1].max_power_mw, 130_000);
    assert_eq!(table[1].heater_resistance_mohm, 2_800);
    assert_eq!(table[1].detect_ratio_ppm, 500_000);
    assert_eq!(table[1].pid_parameters, PidParameters { p: 200, i: 500, d: 0 });
}

#[test]
fn ratio_zero_matches_the_first_tool() {
    assert_eq!(properties_for(&tools(), 0), Ok(0));
}

#[test]
fn ratio_within_tolerance_matches() {
    let table = tools();
    assert_eq!(properties_for(&table, 49_999), Ok(0));
    assert_eq!(properties_for(&table, 450_001), Ok(1));
    assert_eq!(properties_for(&table, 500_000), Ok(1));
    assert_eq!(properties_for(&table, 549_999), Ok(1));
}

#[test]
fn ratio_at_tolerance_does_not_match() {
    let table = tools();
    assert_eq!(DETECTION_RATIO_ABS_TOLERANCE, 50_000);
    assert_eq!(properties_for(&table, 50_000), Err(Error::UnknownTool));
    assert_eq!(properties_for(&table, 450_000), Err(Error::UnknownTool));
    assert_eq!(properties_for(&table, 550_000), Err(Error::UnknownTool));
}

#[test]
fn ratio_between_tools_is_unknown() {
    let table = tools();
    assert_eq!(properties_for(&table, 250_000), Err(Error::UnknownTool));
    assert_eq!(properties_for(&table, 848_484), Err(Error::UnknownTool));
}

#[test]
fn empty_table_knows_no_tool() {
    let table: Vec<ToolProperties> = Vec::new();
    assert_eq!(properties_for(&table, 0), Err(Error::UnknownTool));
}

#[test]
fn overlapping_ratios_first_match_wins() {
    let table = vec![entry("a", 100_000), entry("b", 130_000), entry("c", 400_000)];
    assert_eq!(properties_for(&table, 120_000), Ok(0));
    assert_eq!(properties_for(&table, 149_999), Ok(0));
    assert_eq!(properties_for(&table, 150_000), Ok(1));
    assert_eq!(properties_for(&table, 60_000), Ok(0));
    let swapped = vec![entry("b", 130_000), entry("a", 100_000), entry("c", 400_000)];
    assert_eq!(properties_for(&swapped, 120_000), Ok(0));
    assert_eq!(swapped[0].name, "b");
}

#[test]
fn every_ratio_matches_at_most_one_supported_tool() {
    let table = tools();
    let mut ratio: u32 = 0;
    while ratio <= 1_000_000 {
        let matching = table.iter().filter(|tool| tool.is_match(ratio)).count();
        assert!(matching <= 1);
        match properties_for(&table, ratio) {
            Ok(index) => {
                assert_eq!(matching, 1);
                assert!(table[index].is_match(ratio));
            }
            Err(error) => {
                assert_eq!(error, Error::UnknownTool);
                assert_eq!(matching, 0);
            }
        }
        ratio += 1_000;
    }
}

#[test]
fn max_current_follows_power_and_potential() {
    let table = tools();
    assert_eq!(table[0].max_current_a(20_000), 3_000_000);
    assert_eq!(table[1].max_current_a(20_000), 6_500_000);
    assert_eq!(table[0].max_current_a(9_000), 6_666_666);
    assert_eq!(table[0].max_current_a(0), i64::MAX);
}

#[test]
fn calibration_gives_exact_temperatures() {
    let table = tools();
    let t210 = table[0].temperature_calibration;
    let t245 = table[1].temperature_calibration;
    assert_eq!(t210.calc_temperature_c(1_000_000), 417_780);
    assert_eq!(t210.calc_temperature_c(500_000), 263_092);
    assert_eq!(t210.calc_temperature_c(44), 26_944);
    assert_eq!(t210.calc_temperature_c(0), 26_932);
    assert_eq!(t245.calc_temperature_c(2_000_000), 367_481);
    assert_eq!(t245.calc_temperature_c(0), 30_614);
}

#[test]
fn calibration_is_total_at_the_extremes() {
    let extreme = TemperatureCalibration { quadratic: i32::MIN, linear: i32::MIN, constant: i32::MIN };
    assert!(extreme.calc_temperature_c(u32::MAX) < 0);
    let other = TemperatureCalibration { quadratic: i32::MAX, linear: i32::MAX, constant: i32::MAX };
    assert!(other.calc_temperature_c(u32::MAX) > 0);
}

#[test]
fn calibration_tracks_the_polynomial_in_floating_point() {
    let t210 = tools()[0].temperature_calibration;
    let mut potential_uv: u32 = 0;
    while potential_uv <= 2_900_000 {
        let v = potential_uv as f64 * 1e-6 / 221.0;
        let expected_c = -7.9586e6 * v * v + 1.2239e5 * v + 26.932;
        let got_c = t210.calc_temperature_c(potential_uv) as f64 / 1_000.0;
        assert!((got_c - expected_c).abs() < 0.05);
        potential_uv += 10_000;
    }
}
