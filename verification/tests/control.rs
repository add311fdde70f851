//! PID control, duty-cycle scheduling, the climate loop and the pin
//! registry.

use fermentation_core::actuator::set_state;
use fermentation_core::actuator::turn_off_heating;
use fermentation_core::actuator::turn_on_heating;
use fermentation_core::actuator::turn_on_humidifier;
use fermentation_core::actuator::turn_on_led;
use fermentation_core::climate::ActuationPlan;
use fermentation_core::climate::LoopConfig;
use fermentation_core::climate::LoopState;
use fermentation_core::climate::actuation_plan;
use fermentation_core::duty::SATURATION_PERMILLE;
use fermentation_core::duty::duty_times;
use fermentation_core::duty::on_fraction_permille;
use fermentation_core::pid::PidState;
use fermentation_core::pid::clamp_i64;
use fermentation_core::pins::PinRegistry;
use fermentation_core::pins::PinRole;
use fermentation_core::pins::pin_number;

#[test]
fn pid_output_is_clamped_for_large_errors() {
    // Setpoint 30.0, measured 0.0, the controller's stock gains.
    let mut pid = PidState::new(300, 3500, 9, 1000, 100000);
    let out = pid.next_control_output(0);
    assert_eq!(out, 100000);
    assert!(out.abs() <= 100000);
}

#[test]
fn pid_output_is_clamped_for_any_gain_configuration() {
    for (p, i, d) in [(1000000000i64, 0i64, 0i64), (0, 1000000000, 0), (0, 0, 1000000000), (7, -9, 3)] {
        let mut pid = PidState::new(300, p, i, d, 100000);
        for measured in [-10000i64, 0, 300, 10000] {
            let out = pid.next_control_output(measured);
            assert!(out.abs() <= 100000);
        }
    }
}

#[test]
fn pid_integrator_is_clamped_by_anti_windup() {
    let mut pid = PidState::new(300, 0, 1000000, 0, 100000);
    for _ in 0..50 {
        let out = pid.next_control_output(0);
        assert!(out.abs() <= 100000);
        assert!(pid.integral_accumulator.abs() <= 100000);
    }
    assert_eq!(pid.integral_accumulator, 100000);
}

#[test]
fn pid_computes_the_textbook_terms() {
    let mut pid = PidState::new(300, 100, 50, 10, 100000);
    // error 300: p = 30000, i = 15000, d = 3000.
    let out = pid.next_control_output(0);
    assert_eq!(out, 48000);
    assert_eq!(pid.integral_accumulator, 15000);
    assert_eq!(pid.previous_error, 300);
    // error 300 again: p = 30000, i = 30000, d = 0.
    let out2 = pid.next_control_output(0);
    assert_eq!(out2, 60000);
}

#[test]
fn clamp_is_symmetric() {
    assert_eq!(clamp_i64(150, 100), 100);
    assert_eq!(clamp_i64(-150, 100), -100);
    assert_eq!(clamp_i64(99, 100), 99);
}

#[test]
fn negative_output_maps_to_fraction_zero() {
    assert_eq!(on_fraction_permille(-1, 100000), 0);
    assert_eq!(on_fraction_permille(-100000, 100000), 0);
    assert_eq!(on_fraction_permille(0, 100000), 0);
}

#[test]
fn fraction_is_always_within_bounds() {
    for out in [-200000i64, -1, 0, 1, 30000, 99999, 100000, 200000] {
        let f = on_fraction_permille(out, 100000);
        assert!(f <= 1000);
    }
    assert_eq!(on_fraction_permille(200000, 100000), 1000);
    assert_eq!(on_fraction_permille(30000, 100000), 300);
}

#[test]
fn duty_windows_recombine_exactly() {
    // cycle 10 s at fraction 0.3: on 3 s, off 7 s.
    let (on_ms, off_ms) = duty_times(300, 10000);
    assert_eq!(on_ms, 3000);
    assert_eq!(off_ms, 7000);
    assert_eq!(on_ms + off_ms, 10000);
    for f in [0u32, 1, 333, 500, 995, 1000] {
        for cycle in [0u64, 1, 1000, 10000, 86400000] {
            let (on, off) = duty_times(f, cycle);
            assert_eq!(on + off, cycle);
        }
    }
}

#[test]
fn saturated_fraction_leaves_the_actuator_on() {
    let plan = actuation_plan(995, 10000, SATURATION_PERMILLE);
    assert!(plan.turn_on);
    assert!(!plan.turn_off_after);
    let plan = actuation_plan(994, 10000, SATURATION_PERMILLE);
    assert!(plan.turn_on);
    assert!(plan.turn_off_after);
    let plan = actuation_plan(0, 10000, SATURATION_PERMILLE);
    assert!(!plan.turn_on);
}

#[test]
fn steady_error_trends_the_temperature_loop_upward() {
    // Active project targets 25.0 C / 70.0 %RH; the sensor reports a
    // steady 20.0 C / 70.0 %RH.
    let cfg = LoopConfig { cycle_ms: 1000, saturation_permille: SATURATION_PERMILLE };
    let temp_pid = PidState::new(250, 100, 50, 0, 100000);
    let hum_pid = PidState::new(700, 100, 50, 0, 100000);
    let mut temp_loop = LoopState::new(temp_pid, &cfg);
    let mut hum_loop = LoopState::new(hum_pid, &cfg);
    let mut last_on_ms = 0u64;
    for tick in 0..10 {
        let temp_plan = temp_loop.tick(&cfg, Some(200));
        let hum_plan = hum_loop.tick(&cfg, Some(700));
        // The humidity loop sits at its setpoint and commands nothing.
        assert!(!hum_plan.turn_on);
        assert_eq!(hum_plan.on_ms, 0);
        // The temperature loop's on-window grows with the integral.
        assert!(temp_plan.turn_on);
        assert!(temp_plan.on_ms >= last_on_ms);
        if tick > 0 {
            assert!(temp_plan.on_ms > last_on_ms);
        }
        last_on_ms = temp_plan.on_ms;
    }
}

#[test]
fn failed_acquisition_retains_the_previous_plan() {
    let cfg = LoopConfig { cycle_ms: 10000, saturation_permille: SATURATION_PERMILLE };
    let pid = PidState::new(300, 3500, 9, 1000, 100000);
    let mut state = LoopState::new(pid, &cfg);
    let plan = state.tick(&cfg, Some(0));
    assert!(plan.turn_on);
    let repeated = state.tick(&cfg, None);
    assert_eq!(repeated, plan);
    let repeated_again = state.tick(&cfg, None);
    assert_eq!(repeated_again, plan);
}

#[test]
fn fresh_loop_commands_nothing() {
    let cfg = LoopConfig { cycle_ms: 10000, saturation_permille: SATURATION_PERMILLE };
    let pid = PidState::new(300, 3500, 9, 1000, 100000);
    let state = LoopState::new(pid, &cfg);
    assert_eq!(
        state.last_plan,
        ActuationPlan { turn_on: false, on_ms: 0, turn_off_after: true, off_ms: 10000 }
    );
}

#[test]
fn pin_numbers_are_mutually_distinct() {
    let roles = [
        PinRole::Sensor,
        PinRole::Heater,
        PinRole::Humidifier,
        PinRole::Indicator1,
        PinRole::Indicator2,
        PinRole::Indicator3,
    ];
    for (i, a) in roles.iter().enumerate() {
        for (j, b) in roles.iter().enumerate() {
            if i != j {
                assert_ne!(pin_number(*a), pin_number(*b));
            }
        }
    }
}

#[test]
fn a_held_lock_cannot_be_acquired_again() {
    let mut reg = PinRegistry::new();
    assert!(reg.try_acquire(PinRole::Sensor));
    assert!(!reg.try_acquire(PinRole::Sensor));
    // Another role is untouched by the contention.
    assert!(reg.try_acquire(PinRole::Heater));
    reg.release(PinRole::Sensor);
    assert!(reg.try_acquire(PinRole::Sensor));
}

#[test]
fn actuator_commands_leave_the_pin_in_the_commanded_state() {
    let mut reg = PinRegistry::new();
    let cmd = turn_on_heating(&mut reg);
    assert_eq!(cmd.pin, pin_number(PinRole::Heater));
    assert!(cmd.level);
    assert!(reg.heater.level);
    assert!(!reg.heater.held);
    let cmd = turn_off_heating(&mut reg);
    assert!(!cmd.level);
    assert!(!reg.heater.level);
    let cmd = turn_on_humidifier(&mut reg);
    assert_eq!(cmd.pin, pin_number(PinRole::Humidifier));
    assert!(reg.humidifier.level);
}

#[test]
fn led_commands_follow_the_one_based_index() {
    let mut reg = PinRegistry::new();
    let cmd = turn_on_led(&mut reg, 1).unwrap();
    assert_eq!(cmd.pin, pin_number(PinRole::Indicator1));
    let cmd = turn_on_led(&mut reg, 3).unwrap();
    assert_eq!(cmd.pin, pin_number(PinRole::Indicator3));
    assert!(turn_on_led(&mut reg, 0).is_none());
    assert!(turn_on_led(&mut reg, 4).is_none());
}

#[test]
fn set_state_serializes_through_the_guard() {
    let mut reg = PinRegistry::new();
    let cmd = set_state(&mut reg, PinRole::Humidifier, true);
    assert_eq!(cmd.pin, 17);
    assert!(reg.humidifier.level);
    // A sensor transaction can hold its own lock while actuators move.
    assert!(reg.try_acquire(PinRole::Sensor));
    let cmd = set_state(&mut reg, PinRole::Heater, true);
    assert!(cmd.level);
    reg.release(PinRole::Sensor);
}
