//! Follows a trajectory: turns the latest trajectory and the latest
//! observed state of one robot into a velocity command, tick after tick.

use crate::geom::trig::FULL_TURN;
use crate::geom::{Angle, Point, Vector};
use crate::math::{div_toward_zero, lemma_isqrt_compare};
use crate::motion::{KinematicState, Trajectory, TrajectoryView};
use std::collections::VecDeque;
use vstd::prelude::*;

verus! {

/// A robot closer than this to its target moves on to the next waypoint:
/// a tenth of a metre.
pub const ADVANCE_DISTANCE: u32 = 100_000;

/// A robot closer than this to its target does not move: a millimetre.
pub const STOP_DISTANCE: u64 = 1_000;

/// The fastest that a robot is asked to go: three metres per second.
pub const MAX_SPEED: u64 = 3_000_000;

/// The fastest that a robot is asked to turn: four turns per second.
pub const MAX_ANGULAR_SPEED: i64 = 4 * FULL_TURN;

/// A velocity command for one robot, in the robot's own frame.
#[derive(Clone, Copy, Debug, PartialEq, Eq, Structural)]
pub struct RobotCommand {
    pub id: usize,
    /// Forward speed, in micrometres per second.
    pub forward: i64,
    /// Speed to the left, in micrometres per second.
    pub left: i64,
    /// Turning speed, in microdegrees per second, counter-clockwise.
    pub angular: i64,
}

/// The speed at which a robot approaches a target `distance` away: none
/// within `STOP_DISTANCE`, else two and a half times the distance each
/// second, and `MAX_SPEED` at most.
pub open spec fn desired_speed(distance: int) -> int {
    if distance < STOP_DISTANCE {
        0
    } else if distance * 5 / 2 < MAX_SPEED {
        distance * 5 / 2
    } else {
        MAX_SPEED as int
    }
}

/// The turning speed that answers a heading `error`: a quarter of the
/// error each second, and `MAX_ANGULAR_SPEED` at most either way.
pub open spec fn desired_angular_speed(error: int) -> int {
    let quarter = div_toward_zero(error, 4);
    if quarter > MAX_ANGULAR_SPEED {
        MAX_ANGULAR_SPEED as int
    } else if quarter < -MAX_ANGULAR_SPEED {
        -MAX_ANGULAR_SPEED
    } else {
        quarter
    }
}

/// The velocity in the field's frame that takes a robot at `position`
/// toward `target`: along the line to the target, at the desired speed.
pub open spec fn desired_velocity(position: Point, target: Point) -> Vector {
    let error = target.minus(position);
    if error.length_spec() < STOP_DISTANCE {
        Vector { x: 0, y: 0 }
    } else {
        error.norm_spec(desired_speed(error.length_spec()) as i64)
    }
}

/// The angle that turns the field's frame into the frame of a robot that
/// faces `orientation`.
pub open spec fn into_local_frame(orientation: Angle) -> Angle {
    Angle { microdegrees: (-orientation.wrapped()) as i64 }
}

/// The command that takes the robot `id`, observed in `state`, toward
/// `target` and toward the heading `final_orientation`.
pub open spec fn tracking_command(
    id: usize,
    state: KinematicState,
    target: Point,
    final_orientation: Angle,
) -> RobotCommand {
    let local = desired_velocity(state.position, target).rotate_spec(into_local_frame(state.orientation));
    RobotCommand {
        id,
        forward: local.x,
        left: local.y,
        angular: desired_angular_speed(
            state.orientation.microdegrees - final_orientation.microdegrees,
        ) as i64,
    }
}

/// A tracker as a plain value: what `SslSimulatorTrajectoryTracker` stands
/// for.
pub struct TrackerView {
    pub id: usize,
    /// The latest observed state of the robot.
    pub state: Option<KinematicState>,
    /// The latest trajectory.
    pub trajectory: Option<TrajectoryView>,
    /// The waypoints still to come, the next one first.
    pub tracking_points: Seq<Point>,
    /// The waypoint that the robot is heading for.
    pub current_tracking_point: Option<Point>,
}

impl TrackerView {
    /// The target and the waypoints to come are waypoints of the latest
    /// trajectory.
    pub open spec fn drawn_from_trajectory(self) -> bool {
        match self.trajectory {
            Some(trajectory) => {
                &&& self.current_tracking_point matches Some(target) ==> trajectory.points.contains(target)
                &&& forall|k: int|
                    0 <= k < self.tracking_points.len() ==> trajectory.points.contains(
                        #[trigger] self.tracking_points[k],
                    )
            },
            None => self.current_tracking_point is None && self.tracking_points.len() == 0,
        }
    }

    /// The tracker has all it needs to command the robot.
    pub open spec fn is_ready(self) -> bool {
        self.state is Some && self.trajectory is Some && self.current_tracking_point is Some
    }

    /// The robot has come within `ADVANCE_DISTANCE` of its target.
    pub open spec fn has_arrived(self) -> bool {
        self.is_ready() && self.state->Some_0.position.distance_squared(
            self.current_tracking_point->Some_0,
        ) < ADVANCE_DISTANCE * ADVANCE_DISTANCE
    }

    /// The tracker after one tick: on arrival the next waypoint to come, if
    /// there is one, becomes the target; else nothing changes.
    pub open spec fn ticked(self) -> TrackerView {
        if self.has_arrived() && self.tracking_points.len() > 0 {
            TrackerView {
                current_tracking_point: Some(self.tracking_points[0]),
                tracking_points: self.tracking_points.drop_first(),
                ..self
            }
        } else {
            self
        }
    }

    /// The command of one tick: none until the tracker is ready, else the
    /// one that takes the robot toward the target of this tick.
    pub open spec fn command(self) -> Option<RobotCommand> {
        if self.is_ready() {
            Some(
                tracking_command(
                    self.id,
                    self.state->Some_0,
                    self.ticked().current_tracking_point->Some_0,
                    self.trajectory->Some_0.final_orientation,
                ),
            )
        } else {
            None
        }
    }

    /// The tracker after it was given `trajectory`: the last waypoint is
    /// the target, and no waypoint is to come.
    pub open spec fn with_trajectory(self, trajectory: TrajectoryView) -> TrackerView {
        TrackerView {
            trajectory: Some(trajectory),
            tracking_points: Seq::empty(),
            current_tracking_point: Some(trajectory.target()),
            ..self
        }
    }
}

/// A tracker whose robot has arrived at its target moves on to the next
/// waypoint to come, which leaves the waypoints to come; with no waypoint
/// to come it keeps its target. A tracker whose robot has not arrived, or
/// that is not ready, does not change.
pub proof fn lemma_waypoint_advance(tracker: TrackerView)
    ensures
        tracker.has_arrived() && tracker.tracking_points.len() > 0 ==> {
            &&& tracker.ticked().current_tracking_point == Some(tracker.tracking_points[0])
            &&& tracker.ticked().tracking_points == tracker.tracking_points.drop_first()
        },
        tracker.has_arrived() && tracker.tracking_points.len() == 0 ==> tracker.ticked() == tracker,
        !tracker.has_arrived() ==> tracker.ticked() == tracker,
        tracker.ticked().state == tracker.state,
        tracker.ticked().trajectory == tracker.trajectory,
        tracker.drawn_from_trajectory() ==> tracker.ticked().drawn_from_trajectory(),
{
    if tracker.has_arrived() && tracker.tracking_points.len() > 0 && tracker.drawn_from_trajectory() {
        let after = tracker.ticked();
        assert forall|k: int| 0 <= k < after.tracking_points.len() implies tracker.trajectory->Some_0.points.contains(
            #[trigger] after.tracking_points[k],
        ) by {
            assert(after.tracking_points[k] == tracker.tracking_points[k + 1]);
        }
    }
}

/// The controller of one robot.
pub struct SslSimulatorTrajectoryTracker {
    id: usize,
    state: Option<KinematicState>,
    trajectory: Option<Trajectory>,
    tracking_points: VecDeque<Point>,
    current_tracking_point: Option<Point>,
}

impl View for SslSimulatorTrajectoryTracker {
    type V = TrackerView;

    closed spec fn view(&self) -> TrackerView {
        TrackerView {
            id: self.id,
            state: self.state,
            trajectory: match self.trajectory {
                Some(t) => Some(t@),
                None => None,
            },
            tracking_points: self.tracking_points@,
            current_tracking_point: self.current_tracking_point,
        }
    }
}

impl SslSimulatorTrajectoryTracker {
    #[verifier::type_invariant]
    spec fn well_formed(&self) -> bool {
        self@.drawn_from_trajectory()
    }

    /// The controller of the robot `id`, which has seen neither a
    /// trajectory nor a state.
    pub fn new(id: usize) -> (tracker: SslSimulatorTrajectoryTracker)
        ensures
            tracker@ == (TrackerView {
                id,
                state: None,
                trajectory: None,
                tracking_points: Seq::empty(),
                current_tracking_point: None,
            }),
    {
        SslSimulatorTrajectoryTracker {
            id,
            state: None,
            trajectory: None,
            tracking_points: VecDeque::new(),
            current_tracking_point: None,
        }
    }

    /// Takes in a new trajectory. Only its last waypoint is tracked: the
    /// first is where the robot was when the path was planned.
    pub fn update_trajectory(&mut self, trajectory: Trajectory)
        ensures
            final(self)@ == old(self)@.with_trajectory(trajectory@),
            final(self)@.drawn_from_trajectory(),
    {
        proof {
            use_type_invariant(&*self);
        }
        let mut queue: VecDeque<Point> = VecDeque::new();
        let points = trajectory.points();
        let last: usize = points.len() - 1;
        let mut i: usize = last;
        while i < points.len()
            invariant
                last <= i <= points@.len(),
                last == points@.len() - 1,
                queue@ == points@.subrange(last as int, i as int),
            decreases points@.len() - i,
        {
            queue.push_back(points[i]);
            assert(queue@ =~= points@.subrange(last as int, i + 1));
            i += 1;
        }
        assert(queue@ =~= seq![points@[last as int]]);
        let mut target: Option<Point> = None;
        if queue.len() > 0 {
            target = queue.pop_front();
        }
        assert(queue@ =~= Seq::<Point>::empty());
        assert(target == Some(trajectory@.target()));
        assert(trajectory@.points.contains(trajectory@.target()));
        *self = SslSimulatorTrajectoryTracker {
            id: self.id,
            state: self.state,
            trajectory: Some(trajectory),
            tracking_points: queue,
            current_tracking_point: target,
        };
    }

    /// Takes in the latest observed state of the robot.
    pub fn update_most_recently_observe_state(&mut self, state: KinematicState)
        ensures
            final(self)@ == (TrackerView { state: Some(state), ..old(self)@ }),
            final(self)@.drawn_from_trajectory(),
    {
        proof {
            use_type_invariant(&*self);
        }
        self.state = Some(state);
    }

    /// One tick of the controller: moves on to the next waypoint if the
    /// robot has arrived and one is to come, and commands the robot toward
    /// its target.
    pub fn run(&mut self) -> (command: Option<RobotCommand>)
        ensures
            final(self)@ == old(self)@.ticked(),
            command == old(self)@.command(),
            final(self)@.drawn_from_trajectory(),
    {
        proof {
            use_type_invariant(&*self);
        }
        if self.state.is_none() || self.trajectory.is_none() || self.current_tracking_point.is_none() {
            return None;
        }
        let state = self.state.unwrap();
        let target = self.current_tracking_point.unwrap();
        if state.position.is_closer_than(&target, ADVANCE_DISTANCE) && self.tracking_points.len() > 0 {
            let mut queue: VecDeque<Point> = VecDeque::new();
            std::mem::swap(&mut self.tracking_points, &mut queue);
            let ghost before = queue@;
            let next = queue.pop_front();
            assert(queue@ =~= before.drop_first());
            assert forall|k: int| 0 <= k < queue@.len() implies self@.trajectory->Some_0.points.contains(
                #[trigger] queue@[k],
            ) by {
                assert(queue@[k] == before[k + 1]);
            }
            assert(self@.trajectory->Some_0.points.contains(before[0]));
            self.current_tracking_point = next;
            self.tracking_points = queue;
        }
        let current_tracking_point = self.current_tracking_point.unwrap();
        let final_orientation = match &self.trajectory {
            Some(t) => t.final_orientation(),
            None => Angle::zero(),
        };
        Some(track(self.id, &state, &current_tracking_point, &final_orientation))
    }
}

/// Computes the command that takes the robot `id`, observed in `state`,
/// toward `target` and toward the heading `final_orientation`.
pub fn track(id: usize, state: &KinematicState, target: &Point, final_orientation: &Angle) -> (command:
    RobotCommand)
    ensures
        command == tracking_command(id, *state, *target, *final_orientation),
{
    let position_error: Vector = *target - state.position;
    let distance: u64 = position_error.length();
    proof {
        assert(position_error.x * position_error.x <= 0x1_0000_0000 * 0x1_0000_0000) by (nonlinear_arith)
            requires
                -0x1_0000_0000 <= position_error.x <= 0x1_0000_0000,
        ;
        assert(position_error.y * position_error.y <= 0x1_0000_0000 * 0x1_0000_0000) by (nonlinear_arith)
            requires
                -0x1_0000_0000 <= position_error.y <= 0x1_0000_0000,
        ;
        lemma_isqrt_compare(position_error.length_squared(), distance as int, 0x2_0000_0000);
    }
    let desired_velocity: Vector = if distance < STOP_DISTANCE {
        Vector::new()
    } else {
        let proportional: u64 = distance * 5 / 2;
        let speed: u64 = if proportional < MAX_SPEED {
            proportional
        } else {
            MAX_SPEED
        };
        position_error.norm(speed as i64)
    };
    let local_frame = Angle { microdegrees: -state.orientation.clamp2pi().microdegrees };
    let desired_velocity = desired_velocity.rotate(&local_frame);
    let orientation_error: i128 = state.orientation.microdegrees as i128
        - final_orientation.microdegrees as i128;
    let quarter: i128 = orientation_error / 4;
    let desired_angular_velocity: i64 = if quarter > MAX_ANGULAR_SPEED as i128 {
        MAX_ANGULAR_SPEED
    } else if quarter < -(MAX_ANGULAR_SPEED as i128) {
        -MAX_ANGULAR_SPEED
    } else {
        quarter as i64
    };
    RobotCommand {
        id,
        forward: desired_velocity.x,
        left: desired_velocity.y,
        angular: desired_angular_velocity,
    }
}

} // verus!
