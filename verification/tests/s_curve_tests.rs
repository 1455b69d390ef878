//! The original behaviour checks of the profile generator, expressed over
//! the fixed-point representation: one micro-unit is a millionth of the
//! physical unit, so 10.0 becomes 10_000_000.

use s_curve::{
    s_curve_generator, Derivative, SCurveConstraints, SCurveInput, SCurveStartConditions,
};

/// Physical value to micro-units.
fn fx(x: f64) -> i64 {
    (x * 1e6).round() as i64
}

/// Micro-units back to a physical value.
fn fl(x: i64) -> f64 {
    x as f64 / 1e6
}

fn input(
    max_jerk: f64,
    max_acceleration: f64,
    max_velocity: f64,
    q0: f64,
    q1: f64,
    v0: f64,
    v1: f64,
) -> SCurveInput {
    SCurveInput {
        constraints: SCurveConstraints {
            max_jerk: fx(max_jerk),
            max_acceleration: fx(max_acceleration),
            max_velocity: fx(max_velocity),
        },
        start_conditions: SCurveStartConditions {
            q0: fx(q0),
            q1: fx(q1),
            v0: fx(v0),
            v1: fx(v1),
        },
    }
}

fn test_continuous(input: &SCurveInput, d: Derivative, constraining_param: f64) -> bool {
    let near_equal = |a: f64, b: f64, epsilon: f64| f64::abs(a - b) < epsilon;
    let (params, s_curve) = s_curve_generator(input, d);
    let total = fl(params.time_intervals.total_duration());
    let mut p0 = fl(s_curve.eval(0));
    let datapoints = 1000;
    let margin = 100;
    let divisor = datapoints as f64;
    let e = constraining_param * 1.1 * total / divisor;
    for i in 0 - margin..(datapoints + 1) + margin {
        let p1 = fl(s_curve.eval(fx(i as f64 * total / divisor)));
        if near_equal(p0, p1, e) {
            p0 = p1;
        } else {
            println!("Out of limits, {p0}, {p1}, difference lim {e}");
            return false;
        }
    }
    return true;
}

fn test_continuous_pva(input: &SCurveInput) -> bool {
    if !test_continuous(input, Derivative::Position, fl(input.constraints.max_velocity)) {
        println!("Position not continuous");
        return false;
    }
    if !test_continuous(
        input,
        Derivative::Velocity,
        fl(input.constraints.max_acceleration),
    ) {
        println!("Velocity not continuous");
        return false;
    }
    if !test_continuous(input, Derivative::Acceleration, fl(input.constraints.max_jerk)) {
        println!("Acceleration not continuous");
        return false;
    }
    return true;
}

#[test]
fn timings_3_9() {
    let input = input(30., 10.0, 5., 0., 10., 1., 0.);
    let times = input.calc_intervals();
    let near_equal = |a: f64, b: f64, epsilon: f64| f64::abs(a - b) < epsilon;
    assert!(near_equal(fl(times.t_a), 0.7333, 0.001));
    assert!(near_equal(fl(times.t_v), 1.1433, 0.001));
    assert!(near_equal(fl(times.t_d), 0.8333, 0.001));
    assert!(near_equal(fl(times.t_j1), 0.333, 0.001));
    assert!(near_equal(fl(times.t_j2), 0.333, 0.001));
}

#[test]
fn timings_3_10() {
    let input = input(30., 10.0, 10., 0., 10., 1., 0.);
    let times = input.calc_intervals();
    let near_equal = |a: f64, b: f64, epsilon: f64| f64::abs(a - b) < epsilon;
    assert!(near_equal(fl(times.t_a), 1.0747, 0.001));
    assert!(near_equal(fl(times.t_v), 0., 0.001));
    assert!(near_equal(fl(times.t_d), 1.1747, 0.001));
    assert!(near_equal(fl(times.t_j1), 0.333, 0.001));
    assert!(near_equal(fl(times.t_j2), 0.333, 0.001));
}

#[test]
fn timings_3_11() {
    let input = input(30., 10.0, 10., 0., 10., 7., 0.);
    let times = input.calc_intervals();
    let near_equal = |a: f64, b: f64, epsilon: f64| f64::abs(a - b) < epsilon;
    assert!(near_equal(fl(times.t_a), 0.4666, 0.001));
    assert!(near_equal(fl(times.t_v), 0., 0.001));
    assert!(near_equal(fl(times.t_d), 1.4718, 0.001));
    assert!(near_equal(fl(times.t_j1), 0.2312, 0.001));
    assert!(near_equal(fl(times.t_j2), 0.2321, 0.001));
}

#[test]
fn timings_3_12() {
    let input = input(30., 10.0, 10., 0., 10., 7.5, 0.);
    let times = input.calc_intervals();
    let near_equal = |a: f64, b: f64, epsilon: f64| f64::abs(a - b) < epsilon;
    assert!(near_equal(fl(times.t_a), 0., 0.001));
    assert!(near_equal(fl(times.t_v), 0., 0.001));
    assert!(near_equal(fl(times.t_d), 2.6667, 0.001));
    assert!(near_equal(fl(times.t_j1), 0., 0.001));
    assert!(near_equal(fl(times.t_j2), 0.0973, 0.001));
}

#[test]
fn simple_curve() {
    let input = input(30., 10.0, 5., 0., 10., 1., 0.);
    let s_curve_tmp = s_curve_generator(&input, Derivative::Position);
    let s_curve = s_curve_tmp.1;
    let params = s_curve_tmp.0;
    for i in 0..101 {
        println!(
            "{}",
            fl(s_curve.eval(fx(i as f64 * fl(params.time_intervals.total_duration()) / 100.)))
        );
    }
}

#[test]
fn simple_curve_reverse() {
    let input = input(3., 2.0, 3., 10., 0., 0., 0.);
    let times = input.calc_intervals();
    assert!(f64::abs(fl(times.total_duration()) - 5.5) < 0.001);
}

#[test]
fn simple_curve_reverse_no_phase_3() {
    let input = input(3., 2.0, 3., 5., 0., 0., 0.);
    let times = input.calc_intervals();
    assert!(f64::abs(fl(times.total_duration()) - 3.8984532382775527) < 0.001);
}

#[test]
fn test_is_a_min_not_reached() {
    let input = input(0.03, 2.0, 3., 10., 0., 0., 0.);
    assert!(test_continuous_pva(&input));
}

#[test]
fn test_is_max_acceleration_not_reached() {
    let input = input(3., 2.0, 3., 1., 0., 0., 0.);
    assert!(test_continuous_pva(&input));
}

#[test]
fn vlim_move_pos_v0_right_direction() {
    let input = input(3., 2.0, 3., 0., 10., 1., 0.);
    let times = input.calc_intervals();
    let params = s_curve::SCurveParameters::new(&times, &input);
    assert!(f64::abs(fl(params.v_lim) - 3.0) < 0.001);
}

#[test]
fn vlim_move_pos_v0_wrong_direction() {
    let input = input(3., 2.0, 3., 0., 10., -1., 0.);
    let times = input.calc_intervals();
    let params = s_curve::SCurveParameters::new(&times, &input);
    assert!(f64::abs(fl(params.v_lim) - 3.0) < 0.001);
}

#[test]
fn vlim_move_neg_v0_right_direction() {
    let input = input(3., 2.0, 3., 10., 0., -1., 0.);
    let times = input.calc_intervals();
    let params = s_curve::SCurveParameters::new(&times, &input);
    assert!(f64::abs(fl(params.v_lim) - 3.0) < 0.001);
}

#[test]
fn vlim_move_neg_v0_wrong_direction() {
    let input = input(3., 2.0, 3., 10., 0., 1., 0.);
    let times = input.calc_intervals();
    let params = s_curve::SCurveParameters::new(&times, &input);
    assert!(f64::abs(fl(params.v_lim) - 3.0) < 0.001);
}

#[test]
fn t_v_pos_move_v0_wrong_direction() {
    let input = input(3., 2.0, 3., 0., 10., -1., 0.);
    let times = input.calc_intervals();
    assert!(f64::abs(fl(times.t_v) - 1.3611111111111114) < 0.001);
}

#[test]
fn t_v_neg_move_v0_wrong_direction() {
    let input = input(3., 2.0, 3., 10., 0., 1., 0.);
    let times = input.calc_intervals();
    assert!(f64::abs(fl(times.t_v) - 1.3611111111111114) < 0.001);
}

#[test]
fn pos_move_v0_wrong_direction() {
    let input = input(3., 2.0, 3., 0., 10., -1., 0.);
    let times = input.calc_intervals();
    assert!(f64::abs(fl(times.total_duration()) - 6.194444444444445) < 0.001);
}

#[test]
fn neg_move_v0_wrong_direction() {
    let input = input(3., 2.0, 3., 10., 0., 1., 0.);
    let times = input.calc_intervals();
    assert!(f64::abs(fl(times.total_duration()) - 6.194444444444445) < 0.001);
}

#[test]
fn continuous_simple() {
    let input = input(3., 2.0, 3., 0., 10., 0., 0.);
    assert!(test_continuous_pva(&input));
}

#[test]
fn continuous_no_accel_pos() {
    let input = input(3., 2.0, 3., 0., 10., 3., 3.);
    assert!(test_continuous_pva(&input));
}

#[test]
fn continuous_no_accel_neg() {
    let input = input(3., 2.0, 3., 10., 0., -3., -3.);
    assert!(test_continuous_pva(&input));
}

#[test]
fn continuous_pos_start_at_max_vel() {
    let input = input(3., 2.0, 3., 0., 10., 3., 0.);
    assert!(test_continuous_pva(&input));
}

#[test]
fn continuous_neg_start_at_max_vel() {
    let input = input(3., 2.0, 3., 10., 0., -3., 0.);
    assert!(test_continuous_pva(&input));
}

#[test]
fn continuous_nonzero_v1() {
    let input = input(3., 2.0, 3., 0., 10., 0., 1.);
    assert!(test_continuous_pva(&input));
}

#[test]
fn continuous_neg_nonzero_v1() {
    let input = input(3., 2.0, 3., 10., 0., 0., -1.);
    assert!(test_continuous_pva(&input));
}

#[test]
fn continuous_neg_nonzero_v1_wrongdirection() {
    let input = input(3., 2.0, 3., 10., 0., 0., 1.);
    assert!(test_continuous_pva(&input));
}

#[test]
fn continuous_nonzero_v1_wrongdirection() {
    let input = input(3., 2.0, 3., 0., 10., 0., -1.);
    assert!(test_continuous_pva(&input));
}

#[test]
fn continuous_nonzero_v0() {
    let input = input(3., 2.0, 3., 0., 10., 1., 0.);
    assert!(test_continuous_pva(&input));
}

#[test]
fn continuous_nonzero_v0_wrongdir() {
    let input = input(3., 2.0, 3., 0., 10., 1., 0.);
    assert!(test_continuous_pva(&input));
}

#[test]
fn continuous_negative() {
    let input = input(3., 2.0, 3., 10., 0., 0., 0.);
    assert!(test_continuous_pva(&input));
}

#[test]
fn continuous_negative_nonzero_v0() {
    let input = input(3., 2.0, 3., 10., 0., -1., 0.);
    assert!(test_continuous_pva(&input));
}

#[test]
fn continuous_negative_nonzero_v0_wrong_direction() {
    let input = input(3., 2.0, 3., 10., 0., 1., 0.);
    assert!(test_continuous_pva(&input));
}
