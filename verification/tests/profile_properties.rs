//! Further checks of the solver and evaluator: exact micro-unit values,
//! phase ordering, endpoint exactness, direction invariance, and edge cases.

use s_curve::{
    s_curve_generator, Derivative, SCurveConstraints, SCurveInput, SCurveStartConditions,
    SCurveTimeIntervals,
};

fn input_units(
    max_jerk: i64,
    max_acceleration: i64,
    max_velocity: i64,
    q0: i64,
    q1: i64,
    v0: i64,
    v1: i64,
) -> SCurveInput {
    SCurveInput {
        constraints: SCurveConstraints { max_jerk, max_acceleration, max_velocity },
        start_conditions: SCurveStartConditions { q0, q1, v0, v1 },
    }
}

fn ordering_holds(times: &SCurveTimeIntervals) -> bool {
    0 <= times.t_j1
        && 2 * times.t_j1 <= times.t_a
        && 0 <= times.t_j2
        && 2 * times.t_j2 <= times.t_d
        && 0 <= times.t_v
}

#[test]
fn exact_interval_values() {
    let input = input_units(30_000_000, 10_000_000, 5_000_000, 0, 10_000_000, 1_000_000, 0);
    let times = input.calc_intervals();
    assert_eq!(times.t_j1, 333_333);
    assert_eq!(times.t_a, 733_333);
    assert_eq!(times.t_j2, 333_333);
    assert_eq!(times.t_d, 833_333);
    assert_eq!(times.t_v, 1_143_335);
    assert_eq!(times.total_duration(), 733_333 + 833_333 + 1_143_335);
}

#[test]
fn phase_ordering_across_inputs() {
    let cases = [
        input_units(30_000_000, 10_000_000, 5_000_000, 0, 10_000_000, 1_000_000, 0),
        input_units(3_000_000, 2_000_000, 3_000_000, 10_000_000, 0, 1_000_000, 0),
        input_units(30_000, 2_000_000, 3_000_000, 10_000_000, 0, 0, 0),
        input_units(3_000_000, 2_000_000, 3_000_000, 0, 10_000_000, 3_000_000, 3_000_000),
        input_units(3_000_000, 2_000_000, 3_000_000, 0, 0, 2_000_000, -2_000_000),
        input_units(1, 1, 1, 0, 4_000_000_000_000_000_000, 0, 0),
    ];
    for input in cases.iter() {
        let times = input.calc_intervals();
        assert!(ordering_holds(&times));
    }
}

#[test]
fn endpoint_exactness_forward() {
    let input = input_units(3_000_000, 2_000_000, 3_000_000, 0, 10_000_000, 1_000_000, 0);
    let (params, pos) = s_curve_generator(&input, Derivative::Position);
    let total = params.time_intervals.total_duration();
    assert_eq!(pos.eval(0), 0);
    assert_eq!(pos.eval(total), 10_000_000);
    assert_eq!(pos.eval(total + 5_000_000), 10_000_000);
    assert_eq!(pos.eval(-3_000_000), 0);
    let (_, vel) = s_curve_generator(&input, Derivative::Velocity);
    assert_eq!(vel.eval(0), 1_000_000);
    assert_eq!(vel.eval(total), 0);
    assert_eq!(vel.eval(total + 1), 0);
    let (_, acc) = s_curve_generator(&input, Derivative::Acceleration);
    assert_eq!(acc.eval(total), 0);
}

#[test]
fn endpoint_exactness_reverse() {
    let input = input_units(3_000_000, 2_000_000, 3_000_000, 10_000_000, 0, 0, -1_000_000);
    let (params, pos) = s_curve_generator(&input, Derivative::Position);
    let total = params.time_intervals.total_duration();
    assert_eq!(pos.eval(0), 10_000_000);
    assert_eq!(pos.eval(total), 0);
    let (_, vel) = s_curve_generator(&input, Derivative::Velocity);
    assert_eq!(vel.eval(0), 0);
    assert_eq!(vel.eval(total), -1_000_000);
}

#[test]
fn direction_invariance_exact() {
    let fwd = input_units(3_000_000, 2_000_000, 3_000_000, 0, 10_000_000, -1_000_000, 0);
    let rev = input_units(3_000_000, 2_000_000, 3_000_000, 10_000_000, 0, 1_000_000, 0);
    let tf = fwd.calc_intervals();
    let tr = rev.calc_intervals();
    assert_eq!(tf.t_j1, tr.t_j1);
    assert_eq!(tf.t_a, tr.t_a);
    assert_eq!(tf.t_j2, tr.t_j2);
    assert_eq!(tf.t_d, tr.t_d);
    assert_eq!(tf.t_v, tr.t_v);
}

#[test]
fn translation_invariance_exact() {
    let near = input_units(3_000_000, 2_000_000, 3_000_000, 0, 10_000_000, 1_000_000, 0);
    let far = input_units(
        3_000_000,
        2_000_000,
        3_000_000,
        50_000_000,
        60_000_000,
        1_000_000,
        0,
    );
    let tn = near.calc_intervals();
    let tf = far.calc_intervals();
    assert_eq!(tn.t_j1, tf.t_j1);
    assert_eq!(tn.t_a, tf.t_a);
    assert_eq!(tn.t_v, tf.t_v);
    assert_eq!(tn.t_d, tf.t_d);
}

#[test]
fn zero_move_has_zero_duration() {
    let input = input_units(3_000_000, 2_000_000, 3_000_000, 0, 0, 0, 0);
    let times = input.calc_intervals();
    assert_eq!(times.total_duration(), 0);
}

#[test]
fn start_above_velocity_limit_collapses_accel_phase() {
    let input = input_units(30_000_000, 10_000_000, 5_000_000, 0, 10_000_000, 7_000_000, 0);
    let times = input.calc_intervals();
    assert_eq!(times.t_j1, 0);
    assert_eq!(times.t_a, 0);
    assert!(ordering_holds(&times));
}

#[test]
fn constraints_validity_check() {
    let good = SCurveConstraints {
        max_jerk: 3_000_000,
        max_acceleration: 2_000_000,
        max_velocity: 3_000_000,
    };
    assert!(good.is_valid());
    let bad = SCurveConstraints { max_jerk: 0, max_acceleration: 2_000_000, max_velocity: 3_000_000 };
    assert!(!bad.is_valid());
}
