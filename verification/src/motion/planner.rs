//! Plans the path of one robot. Paths are straight or stationary: there is
//! no velocity profile and no obstacle on the way.

use crate::geom::{Angle, Point};
use crate::motion::{KinematicState, Trajectory, TrajectoryView};
use vstd::prelude::*;

verus! {

/// The path of a robot that holds its position: both waypoints are where
/// the robot is, and the final heading is zero.
pub fn stopping_trajectory(initial_state: &KinematicState) -> (traj: Trajectory)
    ensures
        traj@ == TrajectoryView::direct(
            initial_state.position,
            initial_state.position,
            Angle { microdegrees: 0 },
        ),
{
    Trajectory::direct(initial_state.position, initial_state.position, Angle::zero())
}

/// The straight path from where the robot is to `target_position`, ending
/// with the heading `target_orientation`.
pub fn straight_line(
    initial_state: &KinematicState,
    target_position: &Point,
    target_orientation: &Angle,
) -> (traj: Trajectory)
    ensures
        traj@ == TrajectoryView::direct(initial_state.position, *target_position, *target_orientation),
{
    Trajectory::direct(initial_state.position, *target_position, *target_orientation)
}

} // verus!
