use loeti::error::Error;
use loeti::library::{tools, PidParameters};
use loeti::pid::{ControlOutput, Pid, UNLIMITED};
use loeti::protocol::Measurement;
use loeti::sensors::{RawToolMeasurement, ToolPowerMeasurement};
use loeti::supply::Supply;
use loeti::tool::{Tool, ToolState, PWM_RATIO_ONE};
use loeti::AutoSleep;

fn measurement(detect_ratio_ppm: u32, temperature_potential_uv: u32) -> RawToolMeasurement {
    RawToolMeasurement { detect_ratio_ppm, temperature_potential_uv }
}

fn t210() -> Tool {
    Tool::new(measurement(0, 0), Supply::new(20_000, 3_000)).unwrap()
}

#[test]
fn new_tool_from_ratio_zero_is_the_first_tool() {
    let tool = Tool::new(measurement(0, 10_000), Supply::new(20_000, 3_000)).unwrap();
    assert_eq!(tool.name(), tools()[0].name);
    assert_eq!(tool.name(), "JBC T210");
    assert_eq!(tool.index, 0);
    assert_eq!(tool.state, ToolState::Active);
    assert_eq!(tool.pwm_ratio(), 0);
    assert_eq!(tool.temperature_mdeg, None);
    assert!(!tool.in_stand());
}

#[test]
fn new_tool_configures_both_controllers() {
    let tool = Tool::new(measurement(510_000, 0), Supply::new(20_000, 5_000)).unwrap();
    assert_eq!(tool.name(), "JBC T245");
    assert_eq!(tool.index, 1);
    assert_eq!(
        tool.temperature_pid,
        Pid {
            setpoint: 0,
            output_limit: 0,
            kp: 200,
            ki: 5,
            kd: 0,
            p_limit: UNLIMITED,
            i_limit: 5_000_000,
            d_limit: UNLIMITED,
            integral_term: 0,
            prev_measurement: None,
        }
    );
    assert_eq!(
        tool.current_pid,
        Pid {
            setpoint: 0,
            output_limit: PWM_RATIO_ONE,
            kp: 0,
            ki: 28,
            kd: 0,
            p_limit: 0,
            i_limit: UNLIMITED,
            d_limit: 0,
            integral_term: 0,
            prev_measurement: None,
        }
    );
    assert_eq!(tool.get_temperature_pid_parameters(), PidParameters { p: 200, i: 500, d: 0 });
}

#[test]
fn new_tool_without_potential_has_no_current_gain() {
    let tool = Tool::new(measurement(0, 0), Supply::new(0, 3_000)).unwrap();
    assert_eq!(tool.current_pid.ki, 0);
    assert_eq!(tool.current_limit_a(), 3_000_000);
}

#[test]
fn new_tool_fails_on_unknown_ratio() {
    assert_eq!(Tool::new(measurement(250_000, 0), Supply::new(20_000, 3_000)), Err(Error::UnknownTool));
    assert_eq!(Tool::detect(measurement(250_000, 0)), Err(Error::UnknownTool));
    assert_eq!(Tool::detect(measurement(20_000, 0)), Ok(0));
    assert_eq!(Tool::detect(measurement(480_000, 0)), Ok(1));
}

#[test]
fn stand_with_timeout_sleeps_after_the_duration() {
    let mut tool = t210();
    let policy = AutoSleep::AfterDurationS(600);
    assert_eq!(tool.update_tool_state(true, policy, 1_000), ToolState::InStand(1_000));
    assert!(tool.in_stand());
    assert_eq!(tool.update_tool_state(true, policy, 1_100), ToolState::InStand(1_000));
    assert_eq!(tool.update_tool_state(true, policy, 600_999), ToolState::InStand(1_000));
    assert_eq!(tool.update_tool_state(true, policy, 601_000), ToolState::Sleeping);
    assert_eq!(tool.update_tool_state(true, policy, 601_100), ToolState::Sleeping);
    assert!(tool.in_stand());
    assert_eq!(tool.update_tool_state(false, policy, 601_200), ToolState::Active);
    assert_eq!(tool.state, ToolState::Active);
}

#[test]
fn stand_with_zero_duration_sleeps_at_once() {
    let mut tool = t210();
    assert_eq!(tool.update_tool_state(true, AutoSleep::AfterDurationS(0), 5), ToolState::Sleeping);
}

#[test]
fn stand_without_timeout_never_sleeps() {
    let mut tool = t210();
    assert_eq!(tool.update_tool_state(true, AutoSleep::Never, 5), ToolState::InStand(5));
    assert_eq!(tool.update_tool_state(true, AutoSleep::Never, u64::MAX), ToolState::InStand(5));
}

#[test]
fn stand_does_not_sleep_if_time_runs_backwards() {
    let mut tool = t210();
    let policy = AutoSleep::AfterDurationS(1);
    assert_eq!(tool.update_tool_state(true, policy, 5_000), ToolState::InStand(5_000));
    assert_eq!(tool.update_tool_state(true, policy, 10), ToolState::InStand(5_000));
    assert_eq!(tool.update_tool_state(true, policy, 6_000), ToolState::Sleeping);
}

#[test]
fn current_limit_is_the_lower_of_tool_and_supply() {
    let mut tool = t210();
    assert_eq!(tool.current_limit_a(), 3_000_000);
    tool.supply.current_margin_ma = 200;
    assert_eq!(tool.current_limit_a(), 2_800_000);
    tool.supply = Supply { current_limit_ma: 5_000, current_margin_ma: 200, potential_mv: 20_000 };
    assert_eq!(tool.current_limit_a(), 3_000_000);
    tool.supply = Supply { current_limit_ma: 5_000, current_margin_ma: 200, potential_mv: 9_000 };
    assert_eq!(tool.current_limit_a(), 4_800_000);
}

#[test]
fn current_limit_does_not_grow_with_the_margin() {
    let mut tool = t210();
    let mut previous = i64::MAX;
    let mut margin: u16 = 0;
    loop {
        tool.supply.current_margin_ma = margin;
        let limit = tool.current_limit_a();
        assert!(limit <= previous);
        assert!(limit >= 0);
        assert!(limit <= 3_000_000);
        assert!(limit <= tool.properties.max_current_a(tool.supply.potential_mv));
        previous = limit;
        if margin > 3_500 {
            break;
        }
        margin += 100;
    }
    assert_eq!(previous, 0);
}

#[test]
fn power_limit_is_the_lower_of_tool_and_supply() {
    let mut tool = t210();
    assert_eq!(tool.power_limit_w(), 60_000);
    tool.supply = Supply { current_limit_ma: 2_000, current_margin_ma: 500, potential_mv: 20_000 };
    assert_eq!(tool.power_limit_w(), 30_000);
    assert_eq!(tool.supply.power_limit(), 40_000);
    assert_eq!(tool.supply.effective_power_limit(), 30_000);
    assert_eq!(tool.supply.effective_current_limit(), 1_500_000);
}

#[test]
fn temperature_is_taken_from_the_measurement() {
    let mut tool = t210();
    assert_eq!(tool.detect_and_calculate_temperature(measurement(10_000, 1_000_000)), Ok(()));
    assert_eq!(tool.temperature_mdeg, Some(417_780));
    assert_eq!(tool.detect_and_calculate_temperature(measurement(10_000, 0)), Ok(()));
    assert_eq!(tool.temperature_mdeg, None);
}

#[test]
fn another_tool_is_a_mismatch() {
    let mut tool = t210();
    tool.pwm_ratio = 500;
    tool.temperature_mdeg = Some(1);
    assert_eq!(
        tool.detect_and_calculate_temperature(measurement(500_000, 1_000_000)),
        Err(Error::ToolMismatch)
    );
    assert_eq!(tool.pwm_ratio(), 0);
    assert_eq!(tool.temperature_mdeg, Some(1));
    assert_eq!(
        tool.detect_and_calculate_temperature(measurement(700_000, 1_000_000)),
        Err(Error::UnknownTool)
    );
}

#[test]
fn first_temperature_step_gives_a_positive_current_within_the_limit() {
    let mut tool = t210();
    tool.temperature_mdeg = Some(20_000);
    let limit = tool.current_limit_a();
    let record = tool.run_temperature_control(350_000, 77);
    let current_setpoint = tool.current_pid.setpoint;
    assert!(current_setpoint > 0);
    assert!(current_setpoint <= limit);
    assert_eq!(current_setpoint, 3_000_000);
    assert_eq!(
        record,
        Measurement {
            time_ms: 77,
            pid_state: Some(ControlOutput { p: 13_200_000, i: 1_650_000, d: 0, output: 3_000_000 }),
            set_temperature_mdeg: Some(350_000),
            temperature_mdeg: Some(20_000),
        }
    );
}

#[test]
fn missing_temperature_counts_as_zero_degrees() {
    let mut tool = t210();
    let record = tool.run_temperature_control(50_000, 0);
    assert_eq!(record.temperature_mdeg, None);
    assert_eq!(
        record.pid_state,
        Some(ControlOutput { p: 2_000_000, i: 250_000, d: 0, output: 2_250_000 })
    );
    assert_eq!(tool.temperature_pid.prev_measurement, Some(0));
}

#[test]
fn current_limited_steps_do_not_grow_the_integral_term() {
    let mut tool = t210();
    tool.temperature_mdeg = Some(20_000);
    tool.run_temperature_control(350_000, 0);
    assert_eq!(tool.temperature_pid.ki, 0);
    assert_eq!(tool.temperature_pid.integral_term, 1_650_000);
    for step in 0..20u64 {
        tool.temperature_mdeg = Some(20_000 + 1_000 * step as i64);
        let record = tool.run_temperature_control(350_000, step);
        assert_eq!(record.pid_state.unwrap().output, 3_000_000);
        assert_eq!(tool.temperature_pid.ki, 0);
        assert_eq!(tool.temperature_pid.integral_term, 1_650_000);
    }
}

#[test]
fn releasing_the_limit_resumes_integration() {
    let mut tool = t210();
    tool.temperature_mdeg = Some(20_000);
    tool.run_temperature_control(350_000, 0);
    assert_eq!(tool.temperature_pid.ki, 0);
    tool.temperature_mdeg = Some(349_000);
    let record = tool.run_temperature_control(350_000, 1);
    assert_eq!(
        record.pid_state,
        Some(ControlOutput { p: 40_000, i: 1_650_000, d: 0, output: 1_690_000 })
    );
    assert_eq!(tool.temperature_pid.ki, 5);
    let record = tool.run_temperature_control(350_000, 2);
    assert_eq!(
        record.pid_state,
        Some(ControlOutput { p: 40_000, i: 1_655_000, d: 0, output: 1_695_000 })
    );
    assert_eq!(tool.temperature_pid.integral_term, 1_655_000);
}

#[test]
fn zero_output_counts_as_current_limited() {
    let mut tool = t210();
    tool.temperature_mdeg = Some(350_000);
    let record = tool.run_temperature_control(350_000, 0);
    assert_eq!(record.pid_state.unwrap().output, 0);
    assert_eq!(tool.temperature_pid.ki, 0);
}

#[test]
fn changed_setpoint_resets_the_integral_term() {
    let mut tool = t210();
    tool.temperature_mdeg = Some(349_000);
    tool.run_temperature_control(350_000, 0);
    assert_eq!(tool.temperature_pid.integral_term, 5_000);
    let record = tool.run_temperature_control(351_000, 1);
    assert_eq!(record.pid_state.unwrap().i, 10_000);
    assert_eq!(tool.temperature_pid.setpoint, 351_000);
}

#[test]
fn undershoot_resets_the_integral_term() {
    let mut tool = t210();
    tool.temperature_mdeg = Some(349_000);
    tool.run_temperature_control(350_000, 0);
    assert_eq!(tool.temperature_pid.ki, 5);
    let record = tool.run_temperature_control(100_000, 1);
    assert_eq!(
        record.pid_state,
        Some(ControlOutput { p: -9_960_000, i: -1_245_000, d: 0, output: -3_000_000 })
    );
    assert_eq!(tool.temperature_pid.integral_term, 0);
    assert_eq!(tool.temperature_pid.ki, 0);
    assert_eq!(tool.current_pid.setpoint, -3_000_000);
}

#[test]
fn temperature_step_follows_a_changed_margin() {
    let mut tool = t210();
    tool.temperature_mdeg = Some(20_000);
    tool.supply.current_margin_ma = 1_000;
    let record = tool.run_temperature_control(350_000, 0);
    assert_eq!(record.pid_state.unwrap().output, 2_000_000);
    assert_eq!(tool.temperature_pid.output_limit, 2_000_000);
    assert_eq!(tool.temperature_pid.i_limit, 2_000_000);
}

#[test]
fn current_step_integrates_towards_the_setpoint() {
    let mut tool = t210();
    tool.temperature_mdeg = Some(20_000);
    tool.run_temperature_control(350_000, 0);
    tool.run_current_control(&ToolPowerMeasurement { current_ua: 0, potential_uv: 0 });
    assert_eq!(tool.pwm_ratio(), 60_000_000);
    tool.run_current_control(&ToolPowerMeasurement { current_ua: 1_000_000, potential_uv: 0 });
    assert_eq!(tool.pwm_ratio(), 100_000_000);
    assert_eq!(tool.current_pid.integral_term, 100_000_000);
}

#[test]
fn current_step_never_yields_a_negative_ratio() {
    let mut tool = t210();
    tool.run_current_control(&ToolPowerMeasurement { current_ua: 5_000_000, potential_uv: 0 });
    assert_eq!(tool.pwm_ratio(), 0);
    assert_eq!(tool.current_pid.integral_term, 0);
    tool.run_current_control(&ToolPowerMeasurement { current_ua: u32::MAX, potential_uv: 0 });
    assert_eq!(tool.pwm_ratio(), 0);
    tool.current_pid.setpoint = i64::MIN;
    tool.run_current_control(&ToolPowerMeasurement { current_ua: u32::MAX, potential_uv: 0 });
    assert_eq!(tool.pwm_ratio(), 0);
}

#[test]
fn current_step_saturates_at_full_duty() {
    let mut tool = t210();
    tool.current_pid.setpoint = i64::MAX;
    tool.run_current_control(&ToolPowerMeasurement { current_ua: 0, potential_uv: 0 });
    assert_eq!(tool.pwm_ratio(), PWM_RATIO_ONE);
}
