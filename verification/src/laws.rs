//! Laws of the library, stated once for all moves and proved.

use vstd::prelude::*;

verus! {

use crate::curve::{
    acc_poly_s, chained, eval_s, is_built_for, phase_links, phase_of, pos_poly_s, vel_poly_s,
    SCurve,
};
use crate::fixed::{fx_mul_s, sat_i, LIM};
use crate::solver::solve_s;
use crate::types::{Derivative, SCurveConstraints, SCurveInput, SCurveStartConditions};

/// Continuity across phase boundaries: in an evaluator whose phases are
/// chained, the position, velocity and acceleration a phase reaches at the
/// end of its duration are exactly the values the next phase reports at its
/// local time zero.  No interior phase boundary has a jump.
pub proof fn lemma_phase_continuity(s: SCurve, k: int)
    requires
        chained(s),
        0 <= k < 6,
    ensures
        pos_poly_s(phase_of(s, k + 1), 0) == pos_poly_s(phase_of(s, k), phase_of(s, k).dur as int),
        vel_poly_s(phase_of(s, k + 1), 0) == vel_poly_s(phase_of(s, k), phase_of(s, k).dur as int),
        acc_poly_s(phase_of(s, k + 1), 0) == acc_poly_s(phase_of(s, k), phase_of(s, k).dur as int),
{
    assert(phase_links(s, k));
    let prev = phase_of(s, k);
    let next = phase_of(s, k + 1);
    assert(next.p as int == pos_poly_s(prev, prev.dur as int));
    assert(next.v as int == vel_poly_s(prev, prev.dur as int));
    assert(next.a as int == acc_poly_s(prev, prev.dur as int));
    lemma_poly_at_zero(next);
}

/// At local time zero a phase reports exactly its start state.
pub proof fn lemma_poly_at_zero(ph: crate::curve::Phase)
    requires
        -LIM <= ph.p && ph.p <= LIM,
        -LIM <= ph.v && ph.v <= LIM,
        -LIM <= ph.a && ph.a <= LIM,
    ensures
        pos_poly_s(ph, 0) == ph.p as int,
        vel_poly_s(ph, 0) == ph.v as int,
        acc_poly_s(ph, 0) == ph.a as int,
{
    assert((ph.jerk as int) * 0 == 0);
    assert((ph.a as int) * 0 == 0);
    assert((ph.v as int) * 0 == 0);
    assert(0int / 1_000_000 == 0);
    assert(0int / 2 == 0);
    assert(0int / 6 == 0);
}

/// Direction invariance: reversing a move, that is swapping the two
/// positions and negating the two velocities, yields exactly the same solved
/// durations, because both moves map onto the same canonical problem.
pub proof fn lemma_direction_invariance(
    c: SCurveConstraints,
    b1: SCurveStartConditions,
    b2: SCurveStartConditions,
)
    requires
        c.valid(),
        b2.q0 == b1.q1,
        b2.q1 == b1.q0,
        b2.v0 as int == -(b1.v0 as int),
        b2.v1 as int == -(b1.v1 as int),
    ensures
        solve_s(c, b1) == solve_s(c, b2),
{
    assert(crate::solver::h_s(b1) == crate::solver::h_s(b2));
    assert(crate::solver::v0c_s(b1) == crate::solver::v0c_s(b2));
    assert(crate::solver::v1c_s(b1) == crate::solver::v1c_s(b2));
}

/// Translation invariance: shifting both positions by the same offset leaves
/// the solved durations unchanged, since only the displacement enters the
/// solve.
pub proof fn lemma_translation_invariance(
    c: SCurveConstraints,
    b1: SCurveStartConditions,
    b2: SCurveStartConditions,
    d: int,
)
    requires
        c.valid(),
        b2.q0 as int == b1.q0 + d,
        b2.q1 as int == b1.q1 + d,
        b2.v0 == b1.v0,
        b2.v1 == b1.v1,
    ensures
        solve_s(c, b1) == solve_s(c, b2),
{
    assert(crate::solver::h_s(b1) == crate::solver::h_s(b2));
    assert(crate::solver::v0c_s(b1) == crate::solver::v0c_s(b2));
    assert(crate::solver::v1c_s(b1) == crate::solver::v1c_s(b2));
}

/// What a phase that still carries the start state reports at its local
/// time zero: the start position, the start velocity, or a zero
/// acceleration, depending on the requested derivative.
proof fn lemma_report_start(s: SCurve, ph: crate::curve::Phase, b: SCurveStartConditions)
    requires
        s.q0 == b.q0,
        s.sigma as int == crate::solver::sign_s(b),
        ph.p == 0,
        ph.a == 0,
        ph.v as int == crate::solver::v0c_s(b),
        -LIM <= b.q0 && b.q0 <= LIM,
        -LIM <= b.v0 && b.v0 <= LIM,
    ensures
        s.order == Derivative::Position ==> crate::curve::report_s(s, ph, 0) == b.q0 as int,
        s.order == Derivative::Velocity ==> crate::curve::report_s(s, ph, 0) == b.v0 as int,
        s.order == Derivative::Acceleration ==> crate::curve::report_s(s, ph, 0) == 0,
{
    lemma_poly_at_zero(ph);
}

/// Endpoint exactness: the evaluator of a built move reports the start
/// position and the start velocity at time zero, and the end position, the
/// end velocity and a zero acceleration from the total duration on.  The
/// interval bounds required here are exactly what `calc_intervals` ensures
/// of every solved move.
pub proof fn lemma_endpoint_exactness(s: SCurve, input: SCurveInput, d: Derivative)
    requires
        input.constraints.valid(),
        is_built_for(s, input, d),
        -LIM <= input.start_conditions.q0 && input.start_conditions.q0 <= LIM,
        -LIM <= input.start_conditions.v0 && input.start_conditions.v0 <= LIM,
        ({
            let iv = solve_s(input.constraints, input.start_conditions);
            &&& 0 <= iv.0 && iv.0 <= iv.1 / 2
            &&& 0 <= iv.2 && iv.2 <= iv.3 / 2
            &&& 0 <= iv.4 && iv.4 <= LIM
            &&& iv.1 <= LIM
            &&& iv.3 <= LIM
        }),
    ensures
        d == Derivative::Position ==> eval_s(s, s.total as int) == input.start_conditions.q1 as int,
        d == Derivative::Velocity ==> eval_s(s, s.total as int) == input.start_conditions.v1 as int,
        d == Derivative::Acceleration ==> eval_s(s, s.total as int) == 0,
        d == Derivative::Position && s.total > 0 ==> eval_s(s, 0)
            == input.start_conditions.q0 as int,
        d == Derivative::Velocity && s.total > 0 ==> eval_s(s, 0)
            == input.start_conditions.v0 as int,
        d == Derivative::Acceleration && s.total > 0 ==> eval_s(s, 0) == 0,
{
    let b = input.start_conditions;
    let v0c = crate::solver::v0c_s(b);
    if s.total > 0 {
        let c1 = s.ph0.dur as int;
        let c2 = sat_i(c1 + s.ph1.dur);
        let c3 = sat_i(c2 + s.ph2.dur);
        let c4 = sat_i(c3 + s.ph3.dur);
        let c5 = sat_i(c4 + s.ph4.dur);
        let c6 = sat_i(c5 + s.ph5.dur);
        if 0 < c1 {
            lemma_report_start(s, s.ph0, b);
        } else {
            assert(phase_links(s, 0));
            lemma_poly_at_zero(s.ph0);
            assert(s.ph1.p == 0 && s.ph1.v as int == v0c && s.ph1.a == 0);
            if 0 < c2 {
                lemma_report_start(s, s.ph1, b);
            } else {
                assert(phase_links(s, 1));
                lemma_poly_at_zero(s.ph1);
                assert(s.ph2.p == 0 && s.ph2.v as int == v0c && s.ph2.a == 0);
                if 0 < c3 {
                    lemma_report_start(s, s.ph2, b);
                } else {
                    assert(phase_links(s, 2));
                    lemma_poly_at_zero(s.ph2);
                    assert(s.ph3.p == 0 && s.ph3.v as int == v0c && s.ph3.a == 0);
                    if 0 < c4 {
                        lemma_report_start(s, s.ph3, b);
                    } else {
                        assert(phase_links(s, 3));
                        lemma_poly_at_zero(s.ph3);
                        assert(s.ph4.p == 0 && s.ph4.v as int == v0c && s.ph4.a == 0);
                        if 0 < c5 {
                            lemma_report_start(s, s.ph4, b);
                        } else {
                            assert(phase_links(s, 4));
                            lemma_poly_at_zero(s.ph4);
                            assert(s.ph5.p == 0 && s.ph5.v as int == v0c && s.ph5.a == 0);
                            if 0 < c6 {
                                lemma_report_start(s, s.ph5, b);
                            } else {
                                assert(phase_links(s, 5));
                                lemma_poly_at_zero(s.ph5);
                                assert(s.ph6.p == 0 && s.ph6.v as int == v0c && s.ph6.a == 0);
                                lemma_report_start(s, s.ph6, b);
                            }
                        }
                    }
                }
            }
        }
    }
}

/// The peak velocity clamps to the configured limit: whenever the move is
/// long enough for the solver to accept the velocity-limit timing, and the
/// canonical start velocity does not already exceed the limit, the derived
/// peak velocity stays at or below the configured maximum.  The two interval
/// hypotheses exclude only the representation's edge: an acceleration phase
/// at the saturation bound or a jerk ramp that rounding pushed past half of
/// its phase.
pub proof fn lemma_velocity_peak_clamped(c: SCurveConstraints, b: SCurveStartConditions)
    requires
        c.valid(),
        crate::solver::v0c_s(b) <= c.max_velocity,
        c.max_velocity - crate::solver::v0c_s(b) <= LIM,
        crate::solver::velocity_reached_s(c, b),
        ({
            let acc = crate::solver::ramp_s(
                c.max_jerk as int,
                c.max_acceleration as int,
                c.max_velocity as int,
                crate::solver::v0c_s(b),
            );
            acc.0 <= acc.1 / 2 && acc.1 < LIM
        }),
    ensures
        crate::params::v_lim_s(
            c.max_jerk as int,
            crate::solver::v0c_s(b),
            solve_s(c, b).0,
            solve_s(c, b).1,
        ) <= c.max_velocity as int,
{
    let j = c.max_jerk as int;
    let a = c.max_acceleration as int;
    let vm = c.max_velocity as int;
    let v0c = crate::solver::v0c_s(b);
    let sc = crate::fixed::SCALE as int;
    let acc = crate::solver::ramp_s(j, a, vm, v0c);
    let tj1 = acc.0;
    let ta = acc.1;
    if v0c >= vm {
        assert(solve_s(c, b).0 == 0 && solve_s(c, b).1 == 0);
        assert(fx_mul_s(j, 0) == sat_i((j * 0) / sc));
        assert(j * 0 == 0);
    } else {
        let dv = sat_i(vm - v0c);
        assert(dv == vm - v0c);
        vstd::arithmetic::div_mod::lemma_div_pos_is_pos(a * sc, j);
        vstd::arithmetic::mul::lemma_mul_nonnegative(a, sc);
        if fx_mul_s(dv, j) >= fx_mul_s(a, a) {
            // trapezoidal ramp: the peak acceleration is held over the time
            // the velocity difference asks for
            let q = crate::fixed::fx_div_s(dv, a);
            vstd::arithmetic::mul::lemma_mul_nonnegative(dv, sc);
            vstd::arithmetic::div_mod::lemma_div_pos_is_pos(dv * sc, a);
            assert(tj1 == sat_i((a * sc) / j));
            assert(0 <= tj1);
            assert(0 <= q);
            assert(ta == sat_i(tj1 + q));
            assert(ta == tj1 + q);
            assert(solve_s(c, b).0 == tj1 && solve_s(c, b).1 == ta);
            let alim = fx_mul_s(j, tj1);
            vstd::arithmetic::mul::lemma_mul_nonnegative(j, tj1);
            vstd::arithmetic::div_mod::lemma_div_pos_is_pos(j * tj1, sc);
            assert(0 <= alim);
            // alim <= a
            assert(tj1 <= (a * sc) / j);
            vstd::arithmetic::mul::lemma_mul_inequality(tj1, (a * sc) / j, j);
            assert(tj1 * j == j * tj1) by (nonlinear_arith);
            assert(((a * sc) / j) * j == j * ((a * sc) / j)) by (nonlinear_arith);
            crate::fixed::lemma_div_mul_le(a * sc, j);
            assert(j * tj1 <= a * sc);
            vstd::arithmetic::div_mod::lemma_div_is_ordered(j * tj1, a * sc, sc);
            vstd::arithmetic::div_mod::lemma_div_multiples_vanish(a, sc);
            assert(sc * a == a * sc) by (nonlinear_arith);
            assert((j * tj1) / sc <= a);
            assert(alim <= a);
            // gain <= dv
            let gain = fx_mul_s(alim, sat_i(ta - tj1));
            assert(sat_i(ta - tj1) == q);
            vstd::arithmetic::mul::lemma_mul_inequality(alim, a, q);
            assert(alim * q <= a * q);
            vstd::arithmetic::mul::lemma_mul_nonnegative(alim, q);
            assert(q <= (dv * sc) / a);
            vstd::arithmetic::mul::lemma_mul_inequality(q, (dv * sc) / a, a);
            assert(q * a == a * q) by (nonlinear_arith);
            assert(((dv * sc) / a) * a == a * ((dv * sc) / a)) by (nonlinear_arith);
            crate::fixed::lemma_div_mul_le(dv * sc, a);
            assert(a * q <= dv * sc);
            vstd::arithmetic::div_mod::lemma_div_is_ordered(alim * q, dv * sc, sc);
            vstd::arithmetic::div_mod::lemma_div_multiples_vanish(dv, sc);
            assert(sc * dv == dv * sc) by (nonlinear_arith);
            vstd::arithmetic::div_mod::lemma_div_pos_is_pos(alim * q, sc);
            assert((alim * q) / sc <= dv);
            assert(gain <= dv);
            assert(0 <= gain);
            assert(crate::params::v_lim_s(j, v0c, tj1, ta) <= vm);
        } else {
            // triangular ramp: the whole gain comes from the jerk ramp
            let qd = crate::fixed::fx_div_s(dv, j);
            vstd::arithmetic::mul::lemma_mul_nonnegative(dv, sc);
            vstd::arithmetic::div_mod::lemma_div_pos_is_pos(dv * sc, j);
            assert(0 <= qd);
            let tj = crate::fixed::fx_sqrt_s(qd);
            vstd::arithmetic::mul::lemma_mul_nonnegative(qd, sc);
            crate::fixed::lemma_sqrt_exists(qd * sc);
            assert(crate::fixed::is_sqrt_floor(qd * sc, tj));
            assert(0 <= tj);
            assert(tj * tj <= qd * sc);
            assert(tj1 == tj);
            assert(ta == sat_i(tj + tj));
            assert(ta == tj + tj);
            assert(solve_s(c, b).0 == tj && solve_s(c, b).1 == ta);
            assert(sat_i(ta - tj) == tj);
            let alim = fx_mul_s(j, tj);
            vstd::arithmetic::mul::lemma_mul_nonnegative(j, tj);
            vstd::arithmetic::div_mod::lemma_div_pos_is_pos(j * tj, sc);
            assert(0 <= alim);
            let gain = fx_mul_s(alim, tj);
            // gain <= ((j * tj) / sc) * tj / sc <= (j * tj * tj) / sc / sc
            crate::fixed::lemma_mul_div_le(j * tj, tj, sc);
            assert(alim <= (j * tj) / sc);
            vstd::arithmetic::mul::lemma_mul_inequality(alim, (j * tj) / sc, tj);
            assert(alim * tj <= ((j * tj) / sc) * tj);
            assert(((j * tj) / sc) * tj <= ((j * tj) * tj) / sc);
            // (j * tj * tj) <= j * (qd * sc)
            vstd::arithmetic::mul::lemma_mul_inequality(tj * tj, qd * sc, j);
            assert((tj * tj) * j == (j * tj) * tj) by (nonlinear_arith);
            assert((qd * sc) * j == j * (qd * sc)) by (nonlinear_arith);
            assert((j * tj) * tj <= j * (qd * sc));
            vstd::arithmetic::div_mod::lemma_div_is_ordered((j * tj) * tj, j * (qd * sc), sc);
            assert(j * (qd * sc) == (j * qd) * sc) by (nonlinear_arith);
            vstd::arithmetic::div_mod::lemma_div_multiples_vanish(j * qd, sc);
            assert(sc * (j * qd) == (j * qd) * sc) by (nonlinear_arith);
            assert(((j * tj) * tj) / sc <= j * qd);
            // j * qd <= dv * sc, so the gain stays below dv
            assert(qd <= (dv * sc) / j);
            vstd::arithmetic::mul::lemma_mul_inequality(qd, (dv * sc) / j, j);
            assert(qd * j == j * qd) by (nonlinear_arith);
            assert(((dv * sc) / j) * j == j * ((dv * sc) / j)) by (nonlinear_arith);
            crate::fixed::lemma_div_mul_le(dv * sc, j);
            assert(j * qd <= dv * sc);
            vstd::arithmetic::div_mod::lemma_div_is_ordered(alim * tj, dv * sc, sc);
            vstd::arithmetic::mul::lemma_mul_nonnegative(alim, tj);
            vstd::arithmetic::div_mod::lemma_div_pos_is_pos(alim * tj, sc);
            vstd::arithmetic::div_mod::lemma_div_multiples_vanish(dv, sc);
            assert(sc * dv == dv * sc) by (nonlinear_arith);
            assert((alim * tj) / sc <= dv);
            assert(gain <= dv);
            assert(0 <= gain);
            assert(crate::params::v_lim_s(j, v0c, tj1, ta) <= vm);
        }
    }
}

} // verus!
