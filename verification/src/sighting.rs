//! The input checks of the ballistics and scope calculators.
//!
//! The calculators themselves work in floating point and live outside
//! this library; what they refuse, and in which order, is decided here
//! from the signs of their inputs. A flag `x_positive` tells whether the
//! input passes, that is, is not at most zero (a NaN passes).

use vstd::prelude::*;
use crate::errors::{fails, DomainError, DomainResult};

verus! {

/// How a scope's adjustments are measured.
#[derive(Debug, Clone, Copy, PartialEq, Eq, Structural)]
pub enum AdjustmentUnit {
    /// True MOA: 1/60 of a degree, 1.047 in at 100 yd.
    Moa,
    /// Shooter's MOA: exactly 1 in at 100 yd.
    Iphy,
    /// Milliradian: 1 cm at 10 m.
    Mil,
}

/// The ad-hoc trajectory calculator.
#[derive(Debug, Clone, Copy)]
pub struct ComputeTrajectoryUseCase;

impl ComputeTrajectoryUseCase {
    /// The checks of a trajectory request, in order: the muzzle velocity,
    /// the G1 ballistic coefficient and the zero distance must be
    /// positive, and at least one distance must be asked for.
    pub fn check_input(
        muzzle_velocity_positive: bool,
        bc_positive: bool,
        zero_distance_positive: bool,
        step_count: usize,
    ) -> (r: DomainResult<()>)
        ensures
            !muzzle_velocity_positive ==> fails(r, "muzzle_velocity_mps must be positive"@),
            muzzle_velocity_positive && !bc_positive ==> fails(r, "bc_g1 must be positive"@),
            muzzle_velocity_positive && bc_positive && !zero_distance_positive ==> fails(
                r,
                "zero_distance_m must be positive"@,
            ),
            muzzle_velocity_positive && bc_positive && zero_distance_positive && step_count == 0
                ==> fails(r, "steps_m must contain at least one distance"@),
            r is Ok <==> muzzle_velocity_positive && bc_positive && zero_distance_positive
                && step_count > 0,
    {
        if !muzzle_velocity_positive {
            return Err(DomainError::custom("muzzle_velocity_mps must be positive"));
        }
        if !bc_positive {
            return Err(DomainError::custom("bc_g1 must be positive"));
        }
        if !zero_distance_positive {
            return Err(DomainError::custom("zero_distance_m must be positive"));
        }
        if step_count == 0 {
            return Err(DomainError::custom("steps_m must contain at least one distance"));
        }
        Ok(())
    }
}

/// The click calculator.
#[derive(Debug, Clone, Copy)]
pub struct ComputeClicksUseCase;

impl ComputeClicksUseCase {
    /// The checks of a click request, in order: the distance and the
    /// click value must be positive.
    pub fn check_input(distance_positive: bool, click_value_positive: bool) -> (r: DomainResult<
        (),
    >)
        ensures
            !distance_positive ==> fails(r, "distance_m must be positive"@),
            distance_positive && !click_value_positive ==> fails(
                r,
                "click_value must be positive"@,
            ),
            r is Ok <==> distance_positive && click_value_positive,
    {
        if !distance_positive {
            return Err(DomainError::custom("distance_m must be positive"));
        }
        if !click_value_positive {
            return Err(DomainError::custom("click_value must be positive"));
        }
        Ok(())
    }
}

/// The re-zero calculator.
#[derive(Debug, Clone, Copy)]
pub struct ReZeroUseCase;

impl ReZeroUseCase {
    /// The check of a re-zero request: both zero distances must be
    /// positive.
    pub fn check_input(current_zero_positive: bool, desired_zero_positive: bool) -> (r:
        DomainResult<()>)
        ensures
            !(current_zero_positive && desired_zero_positive) ==> fails(
                r,
                "zero distances must be positive"@,
            ),
            r is Ok <==> current_zero_positive && desired_zero_positive,
    {
        if !current_zero_positive || !desired_zero_positive {
            return Err(DomainError::custom("zero distances must be positive"));
        }
        Ok(())
    }
}

} // verus!
