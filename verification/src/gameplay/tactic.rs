//! What one robot can be asked to do.

use crate::gameplay::world::{Robot, World};
use crate::gameplay::State;
use crate::geom::{Angle, Point};
use crate::math::lemma_isqrt_compare;
use crate::motion::planner::{stopping_trajectory, straight_line};
use crate::motion::{Trajectory, TrajectoryView};
use vstd::prelude::*;

verus! {

/// What assigning a robot to `Tactic::Stop` costs: half a metre.
pub const STOP_COST: u64 = 500_000;

/// No cost of assigning a robot to a tactic exceeds this.
pub const MAX_COST: u64 = 0x2_0000_0000;

/// One requested behaviour of one robot.
#[derive(Clone, Copy, Debug, PartialEq, Eq)]
pub enum Tactic {
    /// Come to rest.
    Stop,
    /// Go to a position and face a heading.
    Move((Point, Angle)),
}

impl Tactic {
    /// What it costs to assign `robot` to the tactic: a constant to stop,
    /// and to move the distance from the robot to the target, in
    /// micrometres rounded down.
    pub open spec fn cost_spec(self, robot: Robot) -> int {
        match self {
            Tactic::Stop => STOP_COST as int,
            Tactic::Move((p, _)) => p.minus(robot.state.position).length_spec(),
        }
    }

    /// The path that the tactic plans for `robot`: to stop, the robot holds
    /// its position and the final heading is zero; to move, it goes
    /// straight to the target and ends with the target heading.
    pub open spec fn plan_spec(self, robot: Robot) -> TrajectoryView {
        match self {
            Tactic::Stop => TrajectoryView::direct(
                robot.state.position,
                robot.state.position,
                Angle { microdegrees: 0 },
            ),
            Tactic::Move((p, a)) => TrajectoryView::direct(robot.state.position, p, a),
        }
    }

    /// What it costs to assign `robot` to the tactic.
    pub fn robot_assignment_cost(&self, robot: &Robot) -> (cost: u64)
        ensures
            cost == self.cost_spec(*robot),
            cost <= MAX_COST,
    {
        match self {
            Tactic::Stop => STOP_COST,
            Tactic::Move((p, a)) => {
                let offset = *p - robot.state.position;
                let length = offset.length();
                proof {
                    assert(offset.x * offset.x <= 0x1_0000_0000 * 0x1_0000_0000) by (nonlinear_arith)
                        requires
                            -0x1_0000_0000 <= offset.x <= 0x1_0000_0000,
                    ;
                    assert(offset.y * offset.y <= 0x1_0000_0000 * 0x1_0000_0000) by (nonlinear_arith)
                        requires
                            -0x1_0000_0000 <= offset.y <= 0x1_0000_0000,
                    ;
                    lemma_isqrt_compare(offset.length_squared(), length as int, 0x2_0000_0000);
                }
                length
            },
        }
    }

    /// Plans the path of `robot` under the tactic.
    pub fn run(&self, robot: &Robot, world: &World, state: &State) -> (traj: Trajectory)
        ensures
            traj@ == self.plan_spec(*robot),
    {
        match self {
            Tactic::Stop => stopping_trajectory(&robot.state),
            Tactic::Move((p, a)) => straight_line(&robot.state, p, a),
        }
    }
}

/// Every cost is a distance between two positions of the field, or the
/// constant: none exceeds `MAX_COST`.
pub proof fn lemma_cost_bounds(tactic: Tactic, robot: Robot)
    ensures
        0 <= tactic.cost_spec(robot) <= MAX_COST,
{
    match tactic {
        Tactic::Stop => {},
        Tactic::Move((p, _)) => {
            let offset = p.minus(robot.state.position);
            assert(0 <= offset.x * offset.x <= 0x1_0000_0000 * 0x1_0000_0000) by (nonlinear_arith)
                requires
                    -0x1_0000_0000 <= offset.x <= 0x1_0000_0000,
            ;
            assert(0 <= offset.y * offset.y <= 0x1_0000_0000 * 0x1_0000_0000) by (nonlinear_arith)
                requires
                    -0x1_0000_0000 <= offset.y <= 0x1_0000_0000,
            ;
            crate::geom::vector::lemma_length_exists(offset);
            lemma_isqrt_compare(offset.length_squared(), offset.length_spec(), 0x2_0000_0000);
        },
    }
}

} // verus!
