//! Value types of the profile: limits, boundary conditions, and the solved
//! phase durations.  All quantities are fixed-point micro-units.

use vstd::prelude::*;

verus! {

use crate::fixed::{sat_i, sat_add, LIM};

/// Physical limits of the axis, all strictly positive.
#[derive(Clone, Copy, Debug)]
pub struct SCurveConstraints {
    pub max_jerk: i64,
    pub max_acceleration: i64,
    pub max_velocity: i64,
}

impl SCurveConstraints {
    /// Limits are at least one micro-unit and inside the representable band.
    pub open spec fn valid(&self) -> bool {
        &&& 1 <= self.max_jerk && self.max_jerk <= LIM
        &&& 1 <= self.max_acceleration && self.max_acceleration <= LIM
        &&& 1 <= self.max_velocity && self.max_velocity <= LIM
    }

    /// Runtime counterpart of `valid`, for callers outside the proof.
    pub fn is_valid(&self) -> (r: bool)
        ensures
            r == self.valid(),
    {
        1 <= self.max_jerk && self.max_jerk <= LIM && 1 <= self.max_acceleration
            && self.max_acceleration <= LIM && 1 <= self.max_velocity && self.max_velocity <= LIM
    }
}

/// The move to perform: start and end position, start and end velocity.
#[derive(Clone, Copy, Debug)]
pub struct SCurveStartConditions {
    pub q0: i64,
    pub q1: i64,
    pub v0: i64,
    pub v1: i64,
}

/// Aggregate input of a solve.
#[derive(Clone, Copy, Debug)]
pub struct SCurveInput {
    pub constraints: SCurveConstraints,
    pub start_conditions: SCurveStartConditions,
}

/// Which derivative of the position the evaluator reports.
#[derive(Clone, Copy, Debug)]
pub enum Derivative {
    Position,
    Velocity,
    Acceleration,
}

/// Solved durations of the motion phases: jerk ramp and total time of the
/// acceleration phase, the same for the deceleration phase, and the
/// constant-velocity time in between.
#[derive(Clone, Copy, Debug)]
pub struct SCurveTimeIntervals {
    pub t_j1: i64,
    pub t_a: i64,
    pub t_j2: i64,
    pub t_d: i64,
    pub t_v: i64,
}

impl SCurveTimeIntervals {
    /// Every phase duration is non-negative and bounded, and a jerk ramp
    /// never exceeds half of its containing phase.
    pub open spec fn wf(&self) -> bool {
        &&& 0 <= self.t_j1 && self.t_j1 <= (self.t_a as int) / 2
        &&& 0 <= self.t_j2 && self.t_j2 <= (self.t_d as int) / 2
        &&& 0 <= self.t_v && self.t_v <= LIM
        &&& self.t_a <= LIM
        &&& self.t_d <= LIM
    }

    /// Model of `total_duration`.
    pub open spec fn total_s(&self) -> int {
        sat_i(sat_i(self.t_a + self.t_v) + self.t_d)
    }

    /// Duration of the whole profile.
    pub fn total_duration(&self) -> (r: i64)
        ensures
            r as int == self.total_s(),
    {
        sat_add(sat_add(self.t_a, self.t_v), self.t_d)
    }
}

} // verus!
