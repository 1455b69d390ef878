//! Derived parameters of a solved move: the peak velocity and the peak
//! acceleration magnitudes the profile actually reaches, recomputed from the
//! solved durations rather than read off the configured limits, since a short
//! move may stay below them.

use vstd::prelude::*;

verus! {

use crate::fixed::{fx_mul, fx_mul_s, sat_add, sat_i, sat_sub};
use crate::solver::v0c_s;
use crate::types::{SCurveInput, SCurveStartConditions, SCurveTimeIntervals};

/// Peak acceleration magnitude reached in a jerk ramp of duration `tj`.
pub open spec fn a_lim_s(j: int, tj: int) -> int {
    fx_mul_s(j, tj)
}

/// Velocity actually attained at the end of the acceleration phase, in the
/// canonical frame: the start velocity plus the ramp's peak acceleration
/// held over the phase beyond the ramp time.
pub open spec fn v_lim_s(j: int, v0c: int, tj1: int, ta: int) -> int {
    sat_i(v0c + fx_mul_s(a_lim_s(j, tj1), sat_i(ta - tj1)))
}

/// Realized peaks of a solved move, together with what produced them.
#[derive(Clone, Copy, Debug)]
pub struct SCurveParameters {
    pub time_intervals: SCurveTimeIntervals,
    pub j_max: i64,
    pub a_lim_a: i64,
    pub a_lim_d: i64,
    pub v_lim: i64,
    pub conditions: SCurveStartConditions,
}

impl SCurveParameters {
    /// Derive the realized peaks from the solved durations.
    pub fn new(times: &SCurveTimeIntervals, p: &SCurveInput) -> (r: SCurveParameters)
        ensures
            r.time_intervals == *times,
            r.j_max == p.constraints.max_jerk,
            r.conditions == p.start_conditions,
            r.a_lim_a as int == a_lim_s(p.constraints.max_jerk as int, times.t_j1 as int),
            r.a_lim_d as int == a_lim_s(p.constraints.max_jerk as int, times.t_j2 as int),
            r.v_lim as int == v_lim_s(
                p.constraints.max_jerk as int,
                v0c_s(p.start_conditions),
                times.t_j1 as int,
                times.t_a as int,
            ),
    {
        let j = p.constraints.max_jerk;
        let a_lim_a = fx_mul(j, times.t_j1);
        let a_lim_d = fx_mul(j, times.t_j2);
        let v0c = crate::solver::canonical_v0(&p.start_conditions);
        let v_lim = sat_add(v0c, fx_mul(a_lim_a, sat_sub(times.t_a, times.t_j1)));
        SCurveParameters {
            time_intervals: *times,
            j_max: j,
            a_lim_a,
            a_lim_d,
            v_lim,
            conditions: p.start_conditions,
        }
    }
}

} // verus!
