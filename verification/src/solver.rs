//! The interval solver: boundary conditions and limits in, durations of the
//! up to seven motion phases out.
//!
//! The move is first mapped onto the canonical non-negative-displacement
//! problem by the direction sign.  Each of the acceleration and deceleration
//! phases either saturates the acceleration limit (trapezoidal ramp) or stays
//! triangular.  If the displacement leaves room, the constant-velocity time
//! closes the balance; otherwise the peak velocity is re-solved with the
//! constant-velocity time pinned to zero, lowering the acceleration ceiling
//! step by step until both ramps fit inside their phases.

use vstd::prelude::*;

verus! {

use crate::fixed::{
    clamp64, floor_div_i128, fx_div, fx_div_s, fx_mul, fx_mul_s, fx_sqrt, fx_sqrt_s, half, sat_add,
    sat_i, sat_neg, sat_scale, sat_sub, LIM, SCALE,
};
use crate::types::{SCurveConstraints, SCurveInput, SCurveStartConditions, SCurveTimeIntervals};
use vstd::arithmetic::div_mod::lemma_div_pos_is_pos;
use vstd::arithmetic::mul::lemma_mul_nonnegative;

/// Orientation of the canonical solve: the sign of the displacement, or of
/// the first non-zero boundary velocity when the displacement is zero.
pub open spec fn sign_s(b: SCurveStartConditions) -> int {
    if b.q1 > b.q0 {
        1
    } else if b.q1 < b.q0 {
        -1
    } else if b.v0 > 0 {
        1
    } else if b.v0 < 0 {
        -1
    } else if b.v1 > 0 {
        1
    } else if b.v1 < 0 {
        -1
    } else {
        1
    }
}

/// Map a signed quantity into the canonical frame of `b`.
pub open spec fn flip_s(b: SCurveStartConditions, x: int) -> int {
    if sign_s(b) >= 0 {
        sat_i(x)
    } else {
        sat_i(-sat_i(x))
    }
}

/// Canonical displacement, non-negative.
pub open spec fn h_s(b: SCurveStartConditions) -> int {
    flip_s(b, b.q1 - b.q0)
}

/// Canonical start velocity.
pub open spec fn v0c_s(b: SCurveStartConditions) -> int {
    flip_s(b, b.v0 as int)
}

/// Canonical end velocity.
pub open spec fn v1c_s(b: SCurveStartConditions) -> int {
    flip_s(b, b.v1 as int)
}

/// Model of one ramp phase toward the target velocity `vmax` starting from
/// `vs`: the jerk ramp time and the whole phase time.  The phase collapses
/// when there is nothing to gain; it saturates the acceleration limit when
/// the velocity gain times the jerk reaches the squared limit, and stays
/// triangular otherwise.
pub open spec fn ramp_s(j: int, a: int, vmax: int, vs: int) -> (int, int)
    recommends
        1 <= j,
        1 <= a,
{
    if vs >= vmax {
        (0, 0)
    } else {
        let dv = sat_i(vmax - vs);
        if fx_mul_s(dv, j) >= fx_mul_s(a, a) {
            let tj = fx_div_s(a, j);
            (tj, sat_i(tj + fx_div_s(dv, a)))
        } else {
            let tj = fx_sqrt_s(fx_div_s(dv, j));
            (tj, sat_i(tj + tj))
        }
    }
}

/// Model of the constant-velocity time closing the displacement balance.
pub open spec fn tv_time_s(h: int, vmax: int, v0c: int, v1c: int, ta: int, td: int) -> int
    recommends
        1 <= vmax,
{
    let base = fx_div_s(h, vmax);
    let fa = sat_i(SCALE + fx_div_s(v0c, vmax));
    let fd = sat_i(SCALE + fx_div_s(v1c, vmax));
    sat_i(sat_i(base - fx_mul_s(ta, fa) / 2) - fx_mul_s(td, fd) / 2)
}

/// Clamp into `[0, LIM]`.
pub open spec fn clamp0_s(x: int) -> int {
    if x < 0 {
        0
    } else if x > LIM {
        LIM as int
    } else {
        x
    }
}

/// Clamp into `[0, hi]`.
pub open spec fn clamp_to_s(x: int, hi: int) -> int {
    if x < 0 {
        0
    } else if x > hi {
        hi
    } else {
        x
    }
}

/// Final quantization guard of a solved timing set: phase times are clamped
/// into the band and each jerk ramp to half of its phase, which moves a value
/// only when rounding pushed it past a boundary it mathematically meets.
pub open spec fn norm_s(tj1: int, ta: int, tj2: int, td: int, tv: int) -> (
    int,
    int,
    int,
    int,
    int,
) {
    let ta2 = clamp0_s(ta);
    let td2 = clamp0_s(td);
    let tv2 = clamp0_s(tv);
    (clamp_to_s(tj1, ta2 / 2), ta2, clamp_to_s(tj2, td2 / 2), td2, tv2)
}

/// Model of the re-solve of a move too short to reach the velocity limit:
/// the constant-velocity time is zero, both jerk ramps tentatively saturate
/// the acceleration ceiling `a`, and the common peak velocity is taken from
/// the discriminant of the displacement balance.  A phase solved to a
/// negative duration collapses, with the other phase carrying the whole
/// displacement as a triangular profile; when a ramp does not fit inside its
/// phase the ceiling is lowered by one per cent and the solve repeats.
pub open spec fn resolve_s(j: int, a: int, h: int, v0c: int, v1c: int) -> (
    int,
    int,
    int,
    int,
    int,
)
    recommends
        1 <= j,
    decreases a,
    via resolve_s_dec
{
    if a < 1 {
        norm_s(0, 0, 0, 0, 0)
    } else {
        let tj = fx_div_s(a, j);
        let asq = fx_mul_s(a, a);
        let aj = fx_div_s(asq, j);
        let t1 = fx_mul_s(asq, fx_mul_s(tj, tj));
        let sumsq = sat_i(fx_mul_s(v0c, v0c) + fx_mul_s(v1c, v1c));
        let t2 = sat_i(sumsq * 2);
        let vsum = sat_i(v0c + v1c);
        let tj2x = sat_i(tj * 2);
        let inner = sat_i(sat_i(h * 4) - fx_mul_s(tj2x, vsum));
        let t3 = fx_mul_s(a, inner);
        let delta = sat_i(sat_i(t1 + t2) + t3);
        let deltac = if delta < 0 {
            0
        } else {
            delta
        };
        let sq = fx_sqrt_s(deltac);
        let a2 = sat_i(a * 2);
        let num_a = sat_i(sat_i(aj - sat_i(v0c * 2)) + sq);
        let num_d = sat_i(sat_i(aj - sat_i(v1c * 2)) + sq);
        let ta = fx_div_s(num_a, a2);
        let td = fx_div_s(num_d, a2);
        if ta < 0 {
            resolve_collapsed_s(j, h, v0c, v1c, false)
        } else if td < 0 {
            resolve_collapsed_s(j, h, v0c, v1c, true)
        } else if ta >= tj2x && td >= tj2x {
            norm_s(tj, ta, tj, td, 0)
        } else {
            let an = (99 * a) / 100;
            if an < 1 {
                norm_s(tj, ta, tj, td, 0)
            } else {
                resolve_s(j, an, h, v0c, v1c)
            }
        }
    }
}

#[via_fn]
proof fn resolve_s_dec(j: int, a: int, h: int, v0c: int, v1c: int) {
    if a >= 1 {
        crate::fixed::lemma_div_bracket(99 * a, 100, (99 * a) / 100);
    }
}

/// Model of the collapsed case of the re-solve: one phase vanishes and the
/// other covers the displacement with a triangular ramp between the two
/// boundary velocities.  `accel_only` tells which phase survives.
pub open spec fn resolve_collapsed_s(j: int, h: int, v0c: int, v1c: int, accel_only: bool) -> (
    int,
    int,
    int,
    int,
    int,
)
    recommends
        1 <= j,
{
    let vsum = sat_i(v0c + v1c);
    if vsum >= 1 {
        let tp = fx_div_s(sat_i(h * 2), vsum);
        let jh = fx_mul_s(j, h);
        let jh2 = fx_mul_s(jh, h);
        let w = fx_mul_s(fx_mul_s(vsum, vsum), sat_i(v1c - v0c));
        let rad0 = if accel_only {
            fx_mul_s(j, sat_i(jh2 - w))
        } else {
            fx_mul_s(j, sat_i(jh2 + w))
        };
        let rad = if rad0 < 0 {
            0
        } else {
            rad0
        };
        let den = fx_mul_s(j, vsum);
        if den >= 1 {
            let tjr = fx_div_s(sat_i(jh - fx_sqrt_s(rad)), den);
            if accel_only {
                norm_s(tjr, tp, 0, 0, 0)
            } else {
                norm_s(0, 0, tjr, tp, 0)
            }
        } else {
            norm_s(0, 0, 0, 0, 0)
        }
    } else {
        norm_s(0, 0, 0, 0, 0)
    }
}

/// The move is long enough: with both ramps sized for the velocity limit,
/// the displacement still leaves a non-negative constant-velocity time.
pub open spec fn velocity_reached_s(c: SCurveConstraints, b: SCurveStartConditions) -> bool {
    let acc = ramp_s(c.max_jerk as int, c.max_acceleration as int, c.max_velocity as int, v0c_s(b));
    let dec = ramp_s(c.max_jerk as int, c.max_acceleration as int, c.max_velocity as int, v1c_s(b));
    tv_time_s(h_s(b), c.max_velocity as int, v0c_s(b), v1c_s(b), acc.1, dec.1) >= 0
}

/// Model of the whole solve.
pub open spec fn solve_s(c: SCurveConstraints, b: SCurveStartConditions) -> (
    int,
    int,
    int,
    int,
    int,
)
    recommends
        c.valid(),
{
    let h = h_s(b);
    let v0c = v0c_s(b);
    let v1c = v1c_s(b);
    let acc = ramp_s(c.max_jerk as int, c.max_acceleration as int, c.max_velocity as int, v0c);
    let dec = ramp_s(c.max_jerk as int, c.max_acceleration as int, c.max_velocity as int, v1c);
    let tv = tv_time_s(h, c.max_velocity as int, v0c, v1c, acc.1, dec.1);
    if tv >= 0 {
        norm_s(acc.0, acc.1, dec.0, dec.1, tv)
    } else {
        resolve_s(c.max_jerk as int, c.max_acceleration as int, h, v0c, v1c)
    }
}

/// The five solved durations of a timing set, as one spec value.
pub open spec fn as_tuple(iv: SCurveTimeIntervals) -> (int, int, int, int, int) {
    (iv.t_j1 as int, iv.t_a as int, iv.t_j2 as int, iv.t_d as int, iv.t_v as int)
}

fn direction_sign(b: &SCurveStartConditions) -> (s: i64)
    ensures
        s as int == sign_s(*b),
        s == 1 || s == -1,
{
    if b.q1 > b.q0 {
        1
    } else if b.q1 < b.q0 {
        -1
    } else if b.v0 > 0 {
        1
    } else if b.v0 < 0 {
        -1
    } else if b.v1 > 0 {
        1
    } else if b.v1 < 0 {
        -1
    } else {
        1
    }
}

/// Canonical start velocity, as the solver sees it.
pub fn canonical_v0(b: &SCurveStartConditions) -> (r: i64)
    ensures
        r as int == v0c_s(*b),
{
    let s = direction_sign(b);
    let v0 = clamp64(b.v0);
    if s < 0 {
        sat_neg(v0)
    } else {
        v0
    }
}

fn canon(b: &SCurveStartConditions) -> (r: (i64, i64, i64))
    ensures
        r.0 as int == h_s(*b),
        r.1 as int == v0c_s(*b),
        r.2 as int == v1c_s(*b),
{
    let s = direction_sign(b);
    let d = sat_sub(b.q1, b.q0);
    let v0 = clamp64(b.v0);
    let v1 = clamp64(b.v1);
    if s < 0 {
        (sat_neg(d), sat_neg(v0), sat_neg(v1))
    } else {
        (d, v0, v1)
    }
}

fn ramp(j: i64, a: i64, vmax: i64, vs: i64) -> (r: (i64, i64))
    requires
        1 <= j,
        1 <= a,
    ensures
        r.0 as int == ramp_s(j as int, a as int, vmax as int, vs as int).0,
        r.1 as int == ramp_s(j as int, a as int, vmax as int, vs as int).1,
{
    if vs >= vmax {
        (0, 0)
    } else {
        let dv = sat_sub(vmax, vs);
        let p1 = fx_mul(dv, j);
        let p2 = fx_mul(a, a);
        if p1 >= p2 {
            let tj = fx_div(a, j);
            (tj, sat_add(tj, fx_div(dv, a)))
        } else {
            let q = fx_div(dv, j);
            proof {
                lemma_mul_nonnegative(dv as int, SCALE as int);
                lemma_div_pos_is_pos((dv as int) * (SCALE as int), j as int);
            }
            let tj = fx_sqrt(q);
            (tj, sat_add(tj, tj))
        }
    }
}

fn tv_time(h: i64, vmax: i64, v0c: i64, v1c: i64, ta: i64, td: i64) -> (r: i64)
    requires
        1 <= vmax,
    ensures
        r as int == tv_time_s(h as int, vmax as int, v0c as int, v1c as int, ta as int, td as int),
{
    let base = fx_div(h, vmax);
    let fa = sat_add(SCALE, fx_div(v0c, vmax));
    let fd = sat_add(SCALE, fx_div(v1c, vmax));
    let t1 = half(fx_mul(ta, fa));
    let t2 = half(fx_mul(td, fd));
    sat_sub(sat_sub(base, t1), t2)
}

fn clamp0(x: i64) -> (r: i64)
    ensures
        r as int == clamp0_s(x as int),
{
    if x < 0 {
        0
    } else if x > LIM {
        LIM
    } else {
        x
    }
}

fn clamp_to(x: i64, hi: i64) -> (r: i64)
    requires
        hi >= 0,
    ensures
        r as int == clamp_to_s(x as int, hi as int),
{
    if x < 0 {
        0
    } else if x > hi {
        hi
    } else {
        x
    }
}

fn norm(tj1: i64, ta: i64, tj2: i64, td: i64, tv: i64) -> (r: SCurveTimeIntervals)
    ensures
        as_tuple(r) == norm_s(tj1 as int, ta as int, tj2 as int, td as int, tv as int),
        r.wf(),
{
    let ta2 = clamp0(ta);
    let td2 = clamp0(td);
    let tv2 = clamp0(tv);
    let ha = half(ta2);
    let hd = half(td2);
    proof {
        lemma_div_pos_is_pos(ta2 as int, 2);
        lemma_div_pos_is_pos(td2 as int, 2);
    }
    SCurveTimeIntervals {
        t_j1: clamp_to(tj1, ha),
        t_a: ta2,
        t_j2: clamp_to(tj2, hd),
        t_d: td2,
        t_v: tv2,
    }
}

fn resolve(j: i64, a: i64, h: i64, v0c: i64, v1c: i64) -> (r: SCurveTimeIntervals)
    requires
        1 <= j,
        1 <= a,
    ensures
        as_tuple(r) == resolve_s(j as int, a as int, h as int, v0c as int, v1c as int),
        r.wf(),
    decreases a,
{
    let tj = fx_div(a, j);
    let asq = fx_mul(a, a);
    let aj = fx_div(asq, j);
    let t1 = fx_mul(asq, fx_mul(tj, tj));
    let sumsq = sat_add(fx_mul(v0c, v0c), fx_mul(v1c, v1c));
    let t2 = sat_scale(sumsq, 2);
    let vsum = sat_add(v0c, v1c);
    let tj2x = sat_scale(tj, 2);
    let inner = sat_sub(sat_scale(h, 4), fx_mul(tj2x, vsum));
    let t3 = fx_mul(a, inner);
    let delta = sat_add(sat_add(t1, t2), t3);
    let deltac = if delta < 0 {
        0
    } else {
        delta
    };
    let sq = fx_sqrt(deltac);
    let a2 = sat_scale(a, 2);
    let num_a = sat_add(sat_sub(aj, sat_scale(v0c, 2)), sq);
    let num_d = sat_add(sat_sub(aj, sat_scale(v1c, 2)), sq);
    let ta = fx_div(num_a, a2);
    let td = fx_div(num_d, a2);
    if ta < 0 {
        resolve_collapsed(j, h, v0c, v1c, false)
    } else if td < 0 {
        resolve_collapsed(j, h, v0c, v1c, true)
    } else if ta >= tj2x && td >= tj2x {
        norm(tj, ta, tj, td, 0)
    } else {
        let an_wide = floor_div_i128(99 * (a as i128), 100);
        let an = an_wide as i64;
        if an < 1 {
            norm(tj, ta, tj, td, 0)
        } else {
            resolve(j, an, h, v0c, v1c)
        }
    }
}

fn resolve_collapsed(j: i64, h: i64, v0c: i64, v1c: i64, accel_only: bool) -> (r:
    SCurveTimeIntervals)
    requires
        1 <= j,
    ensures
        as_tuple(r) == resolve_collapsed_s(
            j as int,
            h as int,
            v0c as int,
            v1c as int,
            accel_only,
        ),
        r.wf(),
{
    let vsum = sat_add(v0c, v1c);
    if vsum >= 1 {
        let tp = fx_div(sat_scale(h, 2), vsum);
        let jh = fx_mul(j, h);
        let jh2 = fx_mul(jh, h);
        let w = fx_mul(fx_mul(vsum, vsum), sat_sub(v1c, v0c));
        let rad0 = if accel_only {
            fx_mul(j, sat_sub(jh2, w))
        } else {
            fx_mul(j, sat_add(jh2, w))
        };
        let rad = if rad0 < 0 {
            0
        } else {
            rad0
        };
        let den = fx_mul(j, vsum);
        if den >= 1 {
            let tjr = fx_div(sat_sub(jh, fx_sqrt(rad)), den);
            if accel_only {
                norm(tjr, tp, 0, 0, 0)
            } else {
                norm(0, 0, tjr, tp, 0)
            }
        } else {
            norm(0, 0, 0, 0, 0)
        }
    } else {
        norm(0, 0, 0, 0, 0)
    }
}

impl SCurveInput {
    /// Solve the durations of the motion phases for this move.  The result
    /// is exactly the model `solve_s`, and it is well-formed: no duration is
    /// negative and no jerk ramp exceeds half of its phase.
    pub fn calc_intervals(&self) -> (r: SCurveTimeIntervals)
        requires
            self.constraints.valid(),
        ensures
            as_tuple(r) == solve_s(self.constraints, self.start_conditions),
            r.wf(),
    {
        let cn = canon(&self.start_conditions);
        let h = cn.0;
        let v0c = cn.1;
        let v1c = cn.2;
        let j = self.constraints.max_jerk;
        let am = self.constraints.max_acceleration;
        let vm = self.constraints.max_velocity;
        let acc = ramp(j, am, vm, v0c);
        let dec = ramp(j, am, vm, v1c);
        let tv = tv_time(h, vm, v0c, v1c, acc.1, dec.1);
        if tv >= 0 {
            norm(acc.0, acc.1, dec.0, dec.1, tv)
        } else {
            resolve(j, am, h, v0c, v1c)
        }
    }
}

} // verus!
