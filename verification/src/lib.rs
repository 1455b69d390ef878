//! Jerk-limited ("S-curve") point-to-point motion profiles over fixed-point
//! numbers: one micro-unit is a millionth of the physical unit.  Given start
//! and end position, start and end velocity, and strictly positive limits on
//! velocity, acceleration and jerk, the solver produces the durations of the
//! up to seven motion phases; the derived parameters report the peaks the
//! profile actually reaches; and the evaluator maps an elapsed time to the
//! position, velocity or acceleration at that instant.

pub mod fixed;
pub mod types;
pub mod solver;
pub mod params;
pub mod curve;
pub mod laws;

pub use types::{Derivative, SCurveConstraints, SCurveInput, SCurveStartConditions,
    SCurveTimeIntervals};
pub use params::SCurveParameters;
pub use curve::{s_curve_generator, SCurve};
