//! The trajectory evaluator: a stateless value built once per move that maps
//! an elapsed time to the position, velocity or acceleration at that instant.
//!
//! The profile is held as seven consecutive phases, each with a constant
//! jerk, a duration, and the state at its start.  The state at the start of
//! a phase is by construction the state its predecessor reaches at the end
//! of its own duration, so the reported quantities meet across every phase
//! boundary.  Outside the profile the evaluator clamps: before the start it
//! reports the start state, from the total duration on it reports the end
//! position and velocity of the move exactly.

use vstd::prelude::*;

verus! {

use crate::fixed::{fx_mul, fx_mul_s, half, sat_add, sat_i, sat_neg, sat_scale, sat_sub, sixth};
use crate::params::SCurveParameters;
use crate::solver::{as_tuple, sign_s, solve_s, v0c_s};
use crate::types::{Derivative, SCurveInput, SCurveTimeIntervals};

/// One phase: constant jerk, duration, and the state at its start, all in
/// the canonical frame.
#[derive(Clone, Copy, Debug)]
pub struct Phase {
    pub dur: i64,
    pub jerk: i64,
    pub p: i64,
    pub v: i64,
    pub a: i64,
}

/// Acceleration inside a phase, at local time `t`.
pub open spec fn acc_poly_s(ph: Phase, t: int) -> int {
    sat_i(ph.a + fx_mul_s(ph.jerk as int, t))
}

/// Velocity inside a phase, at local time `t`.
pub open spec fn vel_poly_s(ph: Phase, t: int) -> int {
    sat_i(ph.v + sat_i(fx_mul_s(ph.a as int, t) + fx_mul_s(fx_mul_s(ph.jerk as int, t), t) / 2))
}

/// Position inside a phase, at local time `t`.
pub open spec fn pos_poly_s(ph: Phase, t: int) -> int {
    sat_i(
        ph.p + sat_i(
            sat_i(fx_mul_s(ph.v as int, t) + fx_mul_s(fx_mul_s(ph.a as int, t), t) / 2) + fx_mul_s(
                fx_mul_s(fx_mul_s(ph.jerk as int, t), t),
                t,
            ) / 6,
        ),
    )
}

fn acc_poly(ph: &Phase, t: i64) -> (r: i64)
    ensures
        r as int == acc_poly_s(*ph, t as int),
{
    sat_add(ph.a, fx_mul(ph.jerk, t))
}

fn vel_poly(ph: &Phase, t: i64) -> (r: i64)
    ensures
        r as int == vel_poly_s(*ph, t as int),
{
    sat_add(ph.v, sat_add(fx_mul(ph.a, t), half(fx_mul(fx_mul(ph.jerk, t), t))))
}

fn pos_poly(ph: &Phase, t: i64) -> (r: i64)
    ensures
        r as int == pos_poly_s(*ph, t as int),
{
    sat_add(
        ph.p,
        sat_add(
            sat_add(fx_mul(ph.v, t), half(fx_mul(fx_mul(ph.a, t), t))),
            sixth(fx_mul(fx_mul(fx_mul(ph.jerk, t), t), t)),
        ),
    )
}

/// The phase that follows `prev`: it starts in the state `prev` reaches at
/// the end of its duration.
fn next_phase(prev: &Phase, jerk: i64, dur: i64) -> (r: Phase)
    ensures
        r.dur == dur,
        r.jerk == jerk,
        r.p as int == pos_poly_s(*prev, prev.dur as int),
        r.v as int == vel_poly_s(*prev, prev.dur as int),
        r.a as int == acc_poly_s(*prev, prev.dur as int),
{
    Phase {
        dur,
        jerk,
        p: pos_poly(prev, prev.dur),
        v: vel_poly(prev, prev.dur),
        a: acc_poly(prev, prev.dur),
    }
}

/// The evaluator: the solved profile of one move, sampled at any instant.
#[derive(Clone, Copy, Debug)]
pub struct SCurve {
    pub order: Derivative,
    pub sigma: i64,
    pub q0: i64,
    pub q1: i64,
    pub v0: i64,
    pub v1: i64,
    pub total: i64,
    pub ph0: Phase,
    pub ph1: Phase,
    pub ph2: Phase,
    pub ph3: Phase,
    pub ph4: Phase,
    pub ph5: Phase,
    pub ph6: Phase,
}

/// The phases of `s`, by index.
pub open spec fn phase_of(s: SCurve, k: int) -> Phase {
    if k <= 0 {
        s.ph0
    } else if k == 1 {
        s.ph1
    } else if k == 2 {
        s.ph2
    } else if k == 3 {
        s.ph3
    } else if k == 4 {
        s.ph4
    } else if k == 5 {
        s.ph5
    } else {
        s.ph6
    }
}

/// Phase `k + 1` starts in the state phase `k` reaches at the end of its
/// duration.
pub open spec fn phase_links(s: SCurve, k: int) -> bool {
    let prev = phase_of(s, k);
    let next = phase_of(s, k + 1);
    &&& next.p as int == pos_poly_s(prev, prev.dur as int)
    &&& next.v as int == vel_poly_s(prev, prev.dur as int)
    &&& next.a as int == acc_poly_s(prev, prev.dur as int)
}

/// Each phase starts in the state its predecessor ends in, and the first
/// phase starts at the origin of the canonical frame with zero acceleration.
pub open spec fn chained(s: SCurve) -> bool {
    &&& s.ph0.p == 0
    &&& s.ph0.a == 0
    &&& forall|k: int| 0 <= k < 6 ==> #[trigger] phase_links(s, k)
}

/// Map a canonical value back to the real frame.
pub open spec fn unflip_s(sigma: int, x: int) -> int {
    if sigma < 0 {
        sat_i(-x)
    } else {
        x
    }
}

/// The value the evaluator reports inside a phase at local time `t`.
pub open spec fn report_s(s: SCurve, ph: Phase, t: int) -> int {
    match s.order {
        Derivative::Position => sat_i(s.q0 + unflip_s(s.sigma as int, pos_poly_s(ph, t))),
        Derivative::Velocity => unflip_s(s.sigma as int, vel_poly_s(ph, t)),
        Derivative::Acceleration => unflip_s(s.sigma as int, acc_poly_s(ph, t)),
    }
}

/// The exact value reported from the total duration on.
pub open spec fn end_value_s(s: SCurve) -> int {
    match s.order {
        Derivative::Position => s.q1 as int,
        Derivative::Velocity => s.v1 as int,
        Derivative::Acceleration => 0,
    }
}

/// Model of `eval`: clamp the time into the profile, find the phase, and
/// report the requested derivative there.
pub open spec fn eval_s(s: SCurve, t: int) -> int {
    if t >= s.total {
        end_value_s(s)
    } else {
        let tc = if t < 0 {
            0
        } else {
            t
        };
        let c1 = s.ph0.dur as int;
        let c2 = sat_i(c1 + s.ph1.dur);
        let c3 = sat_i(c2 + s.ph2.dur);
        let c4 = sat_i(c3 + s.ph3.dur);
        let c5 = sat_i(c4 + s.ph4.dur);
        let c6 = sat_i(c5 + s.ph5.dur);
        if tc < c1 {
            report_s(s, s.ph0, tc)
        } else if tc < c2 {
            report_s(s, s.ph1, sat_i(tc - c1))
        } else if tc < c3 {
            report_s(s, s.ph2, sat_i(tc - c2))
        } else if tc < c4 {
            report_s(s, s.ph3, sat_i(tc - c3))
        } else if tc < c5 {
            report_s(s, s.ph4, sat_i(tc - c4))
        } else if tc < c6 {
            report_s(s, s.ph5, sat_i(tc - c5))
        } else {
            report_s(s, s.ph6, sat_i(tc - c6))
        }
    }
}

impl SCurve {
    fn report(&self, ph: &Phase, t: i64) -> (r: i64)
        ensures
            r as int == report_s(*self, *ph, t as int),
    {
        match self.order {
            Derivative::Position => {
                let x = pos_poly(ph, t);
                let fx = if self.sigma < 0 {
                    sat_neg(x)
                } else {
                    x
                };
                sat_add(self.q0, fx)
            },
            Derivative::Velocity => {
                let x = vel_poly(ph, t);
                if self.sigma < 0 {
                    sat_neg(x)
                } else {
                    x
                }
            },
            Derivative::Acceleration => {
                let x = acc_poly(ph, t);
                if self.sigma < 0 {
                    sat_neg(x)
                } else {
                    x
                }
            },
        }
    }

    /// Sample the profile at elapsed time `t`.  Callable at any instant in
    /// any order: times before the start report the start state, times from
    /// the total duration on report the end state of the move exactly.
    pub fn eval(&self, t: i64) -> (r: i64)
        ensures
            r as int == eval_s(*self, t as int),
    {
        if t >= self.total {
            match self.order {
                Derivative::Position => self.q1,
                Derivative::Velocity => self.v1,
                Derivative::Acceleration => 0,
            }
        } else {
            let tc = if t < 0 {
                0
            } else {
                t
            };
            let c1 = self.ph0.dur;
            let c2 = sat_add(c1, self.ph1.dur);
            let c3 = sat_add(c2, self.ph2.dur);
            let c4 = sat_add(c3, self.ph3.dur);
            let c5 = sat_add(c4, self.ph4.dur);
            let c6 = sat_add(c5, self.ph5.dur);
            if tc < c1 {
                self.report(&self.ph0, tc)
            } else if tc < c2 {
                self.report(&self.ph1, sat_sub(tc, c1))
            } else if tc < c3 {
                self.report(&self.ph2, sat_sub(tc, c2))
            } else if tc < c4 {
                self.report(&self.ph3, sat_sub(tc, c3))
            } else if tc < c5 {
                self.report(&self.ph4, sat_sub(tc, c4))
            } else if tc < c6 {
                self.report(&self.ph5, sat_sub(tc, c5))
            } else {
                self.report(&self.ph6, sat_sub(tc, c6))
            }
        }
    }
}

/// Ties a built evaluator to the move it was built for: the frame fields
/// come from the boundary conditions, the first phase starts at the start
/// velocity, the phase durations and jerks come from the solved intervals,
/// and the phases are chained.
pub open spec fn is_built_for(s: SCurve, input: SCurveInput, d: Derivative) -> bool {
    let c = input.constraints;
    let b = input.start_conditions;
    let iv = solve_s(c, b);
    &&& s.order == d
    &&& s.sigma as int == sign_s(b)
    &&& s.q0 == b.q0
    &&& s.q1 == b.q1
    &&& s.v0 == b.v0
    &&& s.v1 == b.v1
    &&& chained(s)
    &&& s.ph0.v as int == v0c_s(b)
    &&& s.ph0.dur as int == iv.0
    &&& s.ph1.dur as int == sat_i(iv.1 - sat_i(iv.0 * 2))
    &&& s.ph2.dur as int == iv.0
    &&& s.ph3.dur as int == iv.4
    &&& s.ph4.dur as int == iv.2
    &&& s.ph5.dur as int == sat_i(iv.3 - sat_i(iv.2 * 2))
    &&& s.ph6.dur as int == iv.2
    &&& s.ph0.jerk == c.max_jerk
    &&& s.ph1.jerk == 0
    &&& s.ph2.jerk as int == sat_i(-(c.max_jerk as int))
    &&& s.ph3.jerk == 0
    &&& s.ph4.jerk as int == sat_i(-(c.max_jerk as int))
    &&& s.ph5.jerk == 0
    &&& s.ph6.jerk == c.max_jerk
    &&& s.total as int == sat_i(sat_i(iv.1 + iv.4) + iv.3)
}

fn build_curve(input: &SCurveInput, times: &SCurveTimeIntervals, d: Derivative) -> (s: SCurve)
    requires
        input.constraints.valid(),
        as_tuple(*times) == solve_s(input.constraints, input.start_conditions),
    ensures
        is_built_for(s, *input, d),
{
    let b = &input.start_conditions;
    let sigma = if b.q1 > b.q0 {
        1i64
    } else if b.q1 < b.q0 {
        -1i64
    } else if b.v0 > 0 {
        1i64
    } else if b.v0 < 0 {
        -1i64
    } else if b.v1 > 0 {
        1i64
    } else if b.v1 < 0 {
        -1i64
    } else {
        1i64
    };
    let v0c = crate::solver::canonical_v0(b);
    let j = input.constraints.max_jerk;
    let jn = sat_neg(j);
    let d1 = sat_sub(times.t_a, sat_scale(times.t_j1, 2));
    let d5 = sat_sub(times.t_d, sat_scale(times.t_j2, 2));
    let ph0 = Phase { dur: times.t_j1, jerk: j, p: 0, v: v0c, a: 0 };
    let ph1 = next_phase(&ph0, 0, d1);
    let ph2 = next_phase(&ph1, jn, times.t_j1);
    let ph3 = next_phase(&ph2, 0, times.t_v);
    let ph4 = next_phase(&ph3, jn, times.t_j2);
    let ph5 = next_phase(&ph4, 0, d5);
    let ph6 = next_phase(&ph5, j, times.t_j2);
    let total = times.total_duration();
    SCurve {
        order: d,
        sigma,
        q0: b.q0,
        q1: b.q1,
        v0: b.v0,
        v1: b.v1,
        total,
        ph0,
        ph1,
        ph2,
        ph3,
        ph4,
        ph5,
        ph6,
    }
}

/// Solve a move and build its evaluator: the derived parameters and the
/// profile, sampled at any instant through `SCurve::eval`.
pub fn s_curve_generator(input: &SCurveInput, derivative: Derivative) -> (r: (
    SCurveParameters,
    SCurve,
))
    requires
        input.constraints.valid(),
    ensures
        as_tuple(r.0.time_intervals) == solve_s(input.constraints, input.start_conditions),
        r.0.time_intervals.wf(),
        is_built_for(r.1, *input, derivative),
{
    let times = input.calc_intervals();
    let params = SCurveParameters::new(&times, input);
    let curve = build_curve(input, &times, derivative);
    (params, curve)
}

} // verus!
