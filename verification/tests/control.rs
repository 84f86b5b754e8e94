use loeti::control::{
    Control, CurrentLoopAction, CurrentLoopEvent, Decision, CURRENT_CONTROL_CYCLE_COUNT,
    CURRENT_LOOP_PERIOD_MS, LOOP_PERIOD_MS,
};
use loeti::display::{show_error, show_idle_message, show_message, DisplayUpdate};
use loeti::error::Error;
use loeti::library::PidParameters;
use loeti::protocol::{ControlState, Measurement, Status};
use loeti::resources::{TipTest, ToolResources};
use loeti::sensors::{RawToolMeasurement, ToolPowerMeasurement};
use loeti::supply::Supply;
use loeti::tool::ToolState;
use loeti::{AutoSleep, MenuState, OperationalState, Persistent};

fn raw(detect_ratio_ppm: u32, temperature_potential_uv: u32) -> RawToolMeasurement {
    RawToolMeasurement { detect_ratio_ppm, temperature_potential_uv }
}

fn power(current_ua: u32) -> ToolPowerMeasurement {
    ToolPowerMeasurement { current_ua, potential_uv: 20_000_000 }
}

fn switched_on() -> OperationalState {
    let mut state = OperationalState::default();
    state.tool_is_off = false;
    state
}

fn heating_control() -> (Control, Persistent, OperationalState) {
    let mut control = Control::new(ToolResources::new(1_000), Supply::new(20_000, 3_000));
    control.start(power(30_000));
    let persistent = Persistent::default();
    let mut state = switched_on();
    assert_eq!(control.detect_tool(raw(0, 500_000), false, &persistent, 10), Ok(()));
    match control.decide(&persistent, &mut state, 10) {
        Decision::Heat { set_temperature_mdeg, .. } => assert_eq!(set_temperature_mdeg, 300_000),
        other => panic!("unexpected decision {:?}", other),
    }
    (control, persistent, state)
}

#[test]
fn persistent_defaults() {
    assert_eq!(
        Persistent::default(),
        Persistent {
            stand_temperature_deg_c: 180,
            set_temperature_deg_c: 300,
            current_margin_ma: 200,
            auto_sleep: AutoSleep::AfterDurationS(600),
            display_is_rotated: false,
            off_on_power: false,
            off_on_change: false,
        }
    );
}

#[test]
fn operational_state_defaults() {
    assert_eq!(
        OperationalState::default(),
        OperationalState {
            menu_state: MenuState { is_open: false, toggle_pending: false },
            tool: Err(Error::NoTool),
            tool_state: None,
            tool_is_off: true,
            set_temperature_is_pending: false,
            negotiated_power_mw: None,
        }
    );
}

#[test]
fn resources_start_with_heater_off_and_operating_limit() {
    let resources = ToolResources::new(1_000);
    assert_eq!(
        resources,
        ToolResources { peak_current_limit: 2_825, duty_cycle: 0, max_duty_cycle: 1_000 }
    );
}

#[test]
fn peak_current_limit_is_rounded_to_the_nearest_step() {
    let mut resources = ToolResources::new(1_000);
    resources.set_peak_current_limit(100_000);
    assert_eq!(resources.peak_current_limit, 28);
    resources.set_peak_current_limit(0);
    assert_eq!(resources.peak_current_limit, 0);
    resources.set_peak_current_limit(1_771);
    assert_eq!(resources.peak_current_limit, 1);
    resources.set_peak_current_limit(1_770);
    assert_eq!(resources.peak_current_limit, 0);
    resources.set_peak_current_limit(u32::MAX);
    assert_eq!(resources.peak_current_limit, u16::MAX);
}

#[test]
fn duty_cycle_follows_the_ratio() {
    let mut resources = ToolResources::new(1_000);
    resources.set_pwm_duty_cycle(60_000_000);
    assert_eq!(resources.duty_cycle, 60);
    resources.set_pwm_duty_cycle(999_999_999);
    assert_eq!(resources.duty_cycle, 999);
    resources.set_pwm_duty_cycle(1_000_000_000);
    assert_eq!(resources.duty_cycle, 1_000);
    resources.set_pwm_duty_cycle(i64::MAX);
    assert_eq!(resources.duty_cycle, 1_000);
    resources.set_pwm_duty_cycle(-5);
    assert_eq!(resources.duty_cycle, 0);
    resources.set_pwm_duty_cycle(500_000_000);
    resources.set_duty_cycle_fully_off();
    assert_eq!(resources.duty_cycle, 0);
}

#[test]
fn tip_test_without_edge_reports_no_tip_and_restores() {
    let mut resources = ToolResources::new(1_000);
    let before = resources;
    let test = resources.begin_tip_test();
    assert_eq!(test, TipTest { peak_current_limit: 2_825, duty_cycle: 0 });
    assert_eq!(
        resources,
        ToolResources { peak_current_limit: 28, duty_cycle: 100, max_duty_cycle: 1_000 }
    );
    assert_eq!(resources.test_tip_current(test, false), Err(Error::NoTip));
    assert_eq!(resources, before);
}

#[test]
fn tip_test_with_edge_succeeds_and_restores() {
    let mut resources = ToolResources::new(2_000);
    resources.set_pwm_duty_cycle(250_000_000);
    resources.set_peak_current_limit(5_000_000);
    let before = resources;
    assert_eq!(before.duty_cycle, 500);
    assert_eq!(before.peak_current_limit, 1_412);
    let test = resources.begin_tip_test();
    assert_eq!(resources.duty_cycle, 200);
    assert_eq!(resources.peak_current_limit, 28);
    assert_eq!(resources.test_tip_current(test, true), Ok(()));
    assert_eq!(resources, before);
}

#[test]
fn detection_creates_the_tool_once() {
    let mut control = Control::new(ToolResources::new(1_000), Supply::new(20_000, 3_000));
    let persistent = Persistent::default();
    assert_eq!(control.tool, None);
    assert_eq!(control.detect_tool(raw(0, 1_000_000), true, &persistent, 50), Ok(()));
    let tool = control.tool.unwrap();
    assert_eq!(tool.name(), "JBC T210");
    assert_eq!(tool.temperature_mdeg, Some(417_780));
    assert_eq!(tool.state, ToolState::InStand(50));
    assert_eq!(control.detect_tool(raw(0, 500_000), true, &persistent, 150), Ok(()));
    let tool = control.tool.unwrap();
    assert_eq!(tool.temperature_mdeg, Some(263_092));
    assert_eq!(tool.state, ToolState::InStand(50));
}

#[test]
fn detection_fails_on_unknown_tool() {
    let mut control = Control::new(ToolResources::new(1_000), Supply::new(20_000, 3_000));
    let persistent = Persistent::default();
    assert_eq!(control.detect_tool(raw(300_000, 0), false, &persistent, 0), Err(Error::UnknownTool));
    assert_eq!(control.tool, None);
}

#[test]
fn detection_of_another_tool_is_a_mismatch_and_switches_off() {
    let (mut control, persistent, _) = heating_control();
    control.begin_heating(300_000, 10);
    control.current_loop_step(CurrentLoopEvent::Measured(power(30_000)));
    assert!(control.tool_resources.duty_cycle > 0);
    assert_eq!(
        control.detect_tool(raw(500_000, 500_000), false, &persistent, 110),
        Err(Error::ToolMismatch)
    );
    assert_eq!(control.tool_resources.duty_cycle, 0);
    assert_eq!(control.tool.unwrap().pwm_ratio(), 0);
    assert_eq!(control.tool.unwrap().name(), "JBC T210");
}

#[test]
fn decision_publishes_name_state_and_margin() {
    let mut control = Control::new(ToolResources::new(1_000), Supply::new(20_000, 3_000));
    let persistent = Persistent::default();
    let mut state = switched_on();
    control.detect_tool(raw(0, 500_000), false, &persistent, 10).unwrap();
    let decision = control.decide(&persistent, &mut state, 11);
    assert_eq!(
        decision,
        Decision::Heat {
            set_temperature_mdeg: 300_000,
            status: Status {
                time_ms: 11,
                control_state: ControlState::Tool(loeti::protocol::ToolState::Active(
                    PidParameters { p: 40, i: 500, d: 0 }
                )),
            },
        }
    );
    assert_eq!(state.tool, Ok("JBC T210"));
    assert_eq!(state.tool_state, Some(ToolState::Active));
    assert_eq!(state.negotiated_power_mw, Some(60_000));
    assert_eq!(control.tool.unwrap().supply.current_margin_ma, 200);
    assert_eq!(control.tool.unwrap().current_limit_a(), 2_800_000);
    assert_eq!(control.operational_temperature_mdeg, Some(300_000));
}

#[test]
fn decision_in_the_stand_uses_the_lower_temperature() {
    let mut control = Control::new(ToolResources::new(1_000), Supply::new(20_000, 3_000));
    let mut persistent = Persistent::default();
    let mut state = switched_on();
    control.detect_tool(raw(0, 500_000), true, &persistent, 10).unwrap();
    match control.decide(&persistent, &mut state, 10) {
        Decision::Heat { set_temperature_mdeg, status } => {
            assert_eq!(set_temperature_mdeg, 180_000);
            assert_eq!(
                status.control_state,
                ControlState::Tool(loeti::protocol::ToolState::InStand(10))
            );
        }
        other => panic!("unexpected decision {:?}", other),
    }
    persistent.set_temperature_deg_c = 150;
    match control.decide(&persistent, &mut state, 10) {
        Decision::Heat { set_temperature_mdeg, .. } => assert_eq!(set_temperature_mdeg, 150_000),
        other => panic!("unexpected decision {:?}", other),
    }
}

#[test]
fn decision_keeps_the_temperature_while_a_new_one_is_pending() {
    let mut control = Control::new(ToolResources::new(1_000), Supply::new(20_000, 3_000));
    let mut persistent = Persistent::default();
    let mut state = switched_on();
    state.set_temperature_is_pending = true;
    control.detect_tool(raw(0, 500_000), false, &persistent, 10).unwrap();
    assert_eq!(control.decide(&persistent, &mut state, 10), Decision::Skip);
    assert_eq!(state.tool, Ok("JBC T210"));
    state.set_temperature_is_pending = false;
    control.decide(&persistent, &mut state, 10);
    state.set_temperature_is_pending = true;
    persistent.set_temperature_deg_c = 400;
    match control.decide(&persistent, &mut state, 10) {
        Decision::Heat { set_temperature_mdeg, .. } => assert_eq!(set_temperature_mdeg, 300_000),
        other => panic!("unexpected decision {:?}", other),
    }
}

#[test]
fn decision_is_idle_when_off_or_asleep() {
    let mut control = Control::new(ToolResources::new(1_000), Supply::new(20_000, 3_000));
    let mut persistent = Persistent::default();
    let mut state = OperationalState::default();
    control.detect_tool(raw(0, 500_000), false, &persistent, 10).unwrap();
    match control.decide(&persistent, &mut state, 10) {
        Decision::Idle { set_temperature_mdeg, .. } => assert_eq!(set_temperature_mdeg, 300_000),
        other => panic!("unexpected decision {:?}", other),
    }
    state.tool_is_off = false;
    persistent.auto_sleep = AutoSleep::AfterDurationS(0);
    control.detect_tool(raw(0, 500_000), true, &persistent, 20).unwrap();
    match control.decide(&persistent, &mut state, 20) {
        Decision::Idle { set_temperature_mdeg, status } => {
            assert_eq!(set_temperature_mdeg, 180_000);
            assert_eq!(
                status,
                Status {
                    time_ms: 20,
                    control_state: ControlState::Tool(loeti::protocol::ToolState::Sleeping),
                }
            );
        }
        other => panic!("unexpected decision {:?}", other),
    }
    assert_eq!(state.tool_state, Some(ToolState::Sleeping));
}

#[test]
fn idle_step_does_not_drive_the_heater() {
    let (mut control, _, _) = heating_control();
    control.begin_heating(300_000, 10);
    assert!(control.tool.unwrap().temperature_pid.integral_term != 0);
    let report = control.idle_step(power(1_030_000), 300_000, 120);
    assert_eq!(
        report.measurement,
        Measurement {
            time_ms: 120,
            pid_state: None,
            set_temperature_mdeg: Some(300_000),
            temperature_mdeg: Some(263_092),
        }
    );
    assert_eq!(report.power, power(1_000_000));
    assert_eq!(control.tool.unwrap().temperature_pid.integral_term, 0);
    assert_eq!(control.tool_resources.duty_cycle, 0);
    assert_eq!(control.remaining_cycles, 0);
}

#[test]
fn inner_loop_runs_all_iterations_without_alert() {
    assert_eq!(CURRENT_CONTROL_CYCLE_COUNT, 5);
    assert_eq!(LOOP_PERIOD_MS, 100);
    assert_eq!(CURRENT_LOOP_PERIOD_MS, 20);
    let (mut control, _, _) = heating_control();
    let record = control.begin_heating(300_000, 10);
    assert_eq!(record.pid_state.unwrap().output, 1_660_860);
    assert_eq!(control.remaining_cycles, 5);
    assert_eq!(control.tool_resources.duty_cycle, 0);
    let expected_duty: [u16; 4] = [33, 66, 99, 132];
    for duty in expected_duty {
        let action = control.current_loop_step(CurrentLoopEvent::Measured(power(30_000)));
        assert_eq!(action, CurrentLoopAction::Continue);
        assert_eq!(control.tool_resources.duty_cycle, duty);
    }
    let action = control.current_loop_step(CurrentLoopEvent::Measured(power(30_000)));
    assert_eq!(action, CurrentLoopAction::Done);
    assert_eq!(control.tool_resources.duty_cycle, 0);
    assert_eq!(control.remaining_cycles, 0);
    assert_eq!(control.tool.unwrap().pwm_ratio(), 166_086_000);
}

#[test]
fn over_current_alert_skips_the_remaining_iterations() {
    let (mut control, _, _) = heating_control();
    control.begin_heating(300_000, 10);
    let action = control.current_loop_step(CurrentLoopEvent::Measured(power(30_000)));
    assert_eq!(action, CurrentLoopAction::Continue);
    assert_eq!(control.remaining_cycles, 4);
    assert_eq!(control.tool_resources.duty_cycle, 33);
    let tool_before = control.tool;
    let action = control.current_loop_step(CurrentLoopEvent::CurrentAlert);
    assert_eq!(action, CurrentLoopAction::Done);
    assert_eq!(control.remaining_cycles, 0);
    assert_eq!(control.tool_resources.duty_cycle, 0);
    assert_eq!(control.tool, tool_before);
    let action = control.current_loop_step(CurrentLoopEvent::Measured(power(30_000)));
    assert_eq!(action, CurrentLoopAction::Done);
    assert_eq!(control.tool, tool_before);
    assert_eq!(control.tool_resources.duty_cycle, 0);
}

#[test]
fn inner_loop_compensates_the_idle_current() {
    let (mut control, _, _) = heating_control();
    control.begin_heating(300_000, 10);
    control.current_loop_step(CurrentLoopEvent::Measured(power(1_030_000)));
    assert_eq!(control.tool.unwrap().current_pid.prev_measurement, Some(1_000_000));
    control.current_loop_step(CurrentLoopEvent::Measured(power(10_000)));
    assert_eq!(control.tool.unwrap().current_pid.prev_measurement, Some(0));
}

#[test]
fn error_ends_the_session() {
    let (mut control, mut persistent, mut state) = heating_control();
    control.begin_heating(300_000, 10);
    control.current_loop_step(CurrentLoopEvent::Measured(power(30_000)));
    let status = control.handle_error(Error::NoTip, &persistent, &mut state, 500);
    assert_eq!(status, Status { time_ms: 500, control_state: ControlState::NoTip });
    assert_eq!(control.tool, None);
    assert_eq!(control.tool_resources.duty_cycle, 0);
    assert_eq!(control.tool_resources.peak_current_limit, 2_825);
    assert_eq!(control.remaining_cycles, 0);
    assert_eq!(state.tool, Err(Error::NoTip));
    assert_eq!(state.tool_state, None);
    assert!(!state.tool_is_off);
    persistent.off_on_change = true;
    let status = control.handle_error(Error::ToolMismatch, &persistent, &mut state, 600);
    assert_eq!(status.control_state, ControlState::ToolMismatch);
    assert!(state.tool_is_off);
    persistent.off_on_change = false;
    control.handle_error(Error::NoTool, &persistent, &mut state, 700);
    assert!(state.tool_is_off);
    assert_eq!(state.tool, Err(Error::NoTool));
}

#[test]
fn errors_map_to_control_states() {
    assert_eq!(ControlState::from_error(Error::NoTool), ControlState::NoTool);
    assert_eq!(ControlState::from_error(Error::NoTip), ControlState::NoTip);
    assert_eq!(ControlState::from_error(Error::UnknownTool), ControlState::UnknownTool);
    assert_eq!(ControlState::from_error(Error::ToolMismatch), ControlState::ToolMismatch);
}

#[test]
fn messages_for_the_display() {
    assert_eq!(
        show_message("JBC T210"),
        DisplayUpdate { message: "JBC T210", blank_power: false, blank_temperature: false }
    );
    assert_eq!(
        show_idle_message("No tool"),
        DisplayUpdate { message: "No tool", blank_power: true, blank_temperature: true }
    );
    assert_eq!(show_error(Error::NoTool), show_idle_message("No tool"));
    assert_eq!(show_error(Error::NoTip), show_idle_message("No tip"));
    assert_eq!(show_error(Error::UnknownTool), show_idle_message("Unknown"));
    assert_eq!(show_error(Error::ToolMismatch), show_idle_message(""));
}
