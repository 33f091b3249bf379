//! How a robot moves: its kinematic state and the path planned for it.

pub mod planner;
pub mod tracker;

use crate::geom::{Angle, Point, Vector};
use vstd::prelude::*;

verus! {

/// Where a robot is and how it moves, as last observed.
#[derive(Clone, Copy, Debug, PartialEq, Eq, Structural)]
pub struct KinematicState {
    pub position: Point,
    pub orientation: Angle,
    pub velocity: Vector,
    pub angular_velocity: Angle,
}

/// A trajectory as a plain value: what `Trajectory` stands for.
pub struct TrajectoryView {
    pub points: Seq<Point>,
    pub final_orientation: Angle,
    pub dribble: bool,
    pub autokick_speed: Option<u32>,
    pub autochip_distance: Option<u32>,
}

/// A planned path for one robot: waypoints from its start to its target,
/// and the heading to reach at the end. It holds at least two waypoints and
/// does not change once planned.
#[derive(Debug)]
pub struct Trajectory {
    points: Vec<Point>,
    final_orientation: Angle,
    dribble: bool,
    autokick_speed: Option<u32>,
    autochip_distance: Option<u32>,
}

impl View for Trajectory {
    type V = TrajectoryView;

    closed spec fn view(&self) -> TrajectoryView {
        TrajectoryView {
            points: self.points@,
            final_orientation: self.final_orientation,
            dribble: self.dribble,
            autokick_speed: self.autokick_speed,
            autochip_distance: self.autochip_distance,
        }
    }
}

impl TrajectoryView {
    /// The path from `start` to `target` that ends facing
    /// `final_orientation`, with neither dribbling nor kicking.
    pub open spec fn direct(start: Point, target: Point, final_orientation: Angle) -> TrajectoryView {
        TrajectoryView {
            points: seq![start, target],
            final_orientation,
            dribble: false,
            autokick_speed: None,
            autochip_distance: None,
        }
    }

    /// The last waypoint: the target.
    pub open spec fn target(self) -> Point {
        self.points[self.points.len() - 1]
    }
}

impl Trajectory {
    #[verifier::type_invariant]
    spec fn well_formed(&self) -> bool {
        self.points@.len() >= 2
    }

    /// The path from `start` to `target` that ends facing `final_orientation`.
    pub(crate) fn direct(start: Point, target: Point, final_orientation: Angle) -> (traj: Trajectory)
        ensures
            traj@ == TrajectoryView::direct(start, target, final_orientation),
    {
        let mut points: Vec<Point> = Vec::new();
        points.push(start);
        points.push(target);
        assert(points@ =~= seq![start, target]);
        Trajectory {
            points,
            final_orientation,
            dribble: false,
            autokick_speed: None,
            autochip_distance: None,
        }
    }

    /// The waypoints, from the start to the target: at least two.
    pub fn points(&self) -> (points: &Vec<Point>)
        ensures
            points@ == self@.points,
            points@.len() >= 2,
    {
        proof {
            use_type_invariant(self);
        }
        &self.points
    }

    /// The last waypoint.
    pub fn target(&self) -> (target: Point)
        ensures
            self@.points.len() >= 2,
            target == self@.target(),
    {
        proof {
            use_type_invariant(self);
        }
        self.points[self.points.len() - 1]
    }

    /// The heading to reach at the end of the path.
    pub fn final_orientation(&self) -> (orientation: Angle)
        ensures
            orientation == self@.final_orientation,
    {
        self.final_orientation
    }

    /// Whether the robot dribbles along the path.
    pub fn dribble(&self) -> (dribble: bool)
        ensures
            dribble == self@.dribble,
    {
        self.dribble
    }

    /// The speed at which the robot kicks the ball on touching it, if it does.
    pub fn autokick_speed(&self) -> (speed: Option<u32>)
        ensures
            speed == self@.autokick_speed,
    {
        self.autokick_speed
    }

    /// The distance over which the robot chips the ball on touching it, if
    /// it does.
    pub fn autochip_distance(&self) -> (distance: Option<u32>)
        ensures
            distance == self@.autochip_distance,
    {
        self.autochip_distance
    }
}

impl Clone for Trajectory {
    fn clone(&self) -> (copy: Trajectory)
        ensures
            copy@ == self@,
    {
        proof {
            use_type_invariant(self);
        }
        let mut points: Vec<Point> = Vec::new();
        let mut i: usize = 0;
        while i < self.points.len()
            invariant
                i <= self.points.len(),
                points@ == self.points@.take(i as int),
            decreases self.points.len() - i,
        {
            points.push(self.points[i]);
            assert(points@ =~= self.points@.take(i + 1));
            i += 1;
        }
        assert(points@ =~= self.points@);
        Trajectory {
            points,
            final_orientation: self.final_orientation,
            dribble: self.dribble,
            autokick_speed: self.autokick_speed,
            autochip_distance: self.autochip_distance,
        }
    }
}

} // verus!
