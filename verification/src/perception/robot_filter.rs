//! Where each robot is and how it moves, from its two latest detections.

use super::ball_filter::{mean_velocity, velocity_between};
use crate::geom::{Angle, Point};
use crate::math::div_toward_zero;
use crate::motion::KinematicState;
use crate::world::vision::Robot;
use std::collections::VecDeque;
use vstd::prelude::*;

verus! {

/// One sighting of one robot.
#[derive(Clone, Copy, Debug, PartialEq, Eq, Structural)]
pub struct RobotDetection {
    pub id: usize,
    pub position: Point,
    pub orientation: Angle,
    /// When the frame was captured, in microseconds.
    pub timestamp: u64,
}

/// `value` brought into what an `Angle` holds.
pub open spec fn saturated(value: int) -> i64 {
    if value > i64::MAX {
        i64::MAX
    } else if value < i64::MIN {
        i64::MIN
    } else {
        value as i64
    }
}

/// The mean turning speed, in microdegrees per second, of what turned from
/// `from` to `to` in `micros` microseconds, rounded toward zero and
/// brought into what an `Angle` holds.
pub open spec fn mean_angular_velocity(from: Angle, to: Angle, micros: int) -> Angle {
    Angle {
        microdegrees: saturated(
            div_toward_zero((to.microdegrees - from.microdegrees) * 1_000_000, micros),
        ),
    }
}

/// Whether one of `detections` was captured at `timestamp`.
pub open spec fn seen_at(detections: Seq<RobotDetection>, timestamp: u64) -> bool {
    exists|k: int| 0 <= k < detections.len() && (#[trigger] detections[k]).timestamp == timestamp
}

/// Two detections in the order of their capture.
pub open spec fn in_order(detections: Seq<RobotDetection>) -> Seq<RobotDetection> {
    if detections.len() == 2 && detections[0].timestamp > detections[1].timestamp {
        seq![detections[1], detections[0]]
    } else {
        detections
    }
}

/// The detections kept after `detection` came in: a detection captured at
/// the time of one that is kept is dropped; else it is kept, of three the
/// oldest kept is forgotten, and the two that stay are put in the order of
/// their capture.
pub open spec fn with_detection(detections: Seq<RobotDetection>, detection: RobotDetection) -> Seq<
    RobotDetection,
> {
    if seen_at(detections, detection.timestamp) {
        detections
    } else if detections.len() >= 2 {
        in_order(detections.push(detection).drop_first())
    } else {
        in_order(detections.push(detection))
    }
}

/// The robot that two detections show: where the later one saw it, moving
/// and turning as it did between the two, under the id of the earlier one.
pub open spec fn robot_from(detections: Seq<RobotDetection>) -> Option<Robot> {
    if detections.len() < 2 {
        None
    } else {
        let micros = detections[1].timestamp - detections[0].timestamp;
        Some(
            Robot {
                id: detections[0].id,
                state: KinematicState {
                    position: detections[1].position,
                    orientation: detections[1].orientation,
                    velocity: mean_velocity(detections[0].position, detections[1].position, micros),
                    angular_velocity: mean_angular_velocity(
                        detections[0].orientation,
                        detections[1].orientation,
                        micros,
                    ),
                },
            },
        )
    }
}

/// At most two detections, in the order of their capture, which differs.
pub open spec fn is_filtered(detections: Seq<RobotDetection>) -> bool {
    &&& detections.len() <= 2
    &&& detections.len() == 2 ==> detections[0].timestamp < detections[1].timestamp
}

/// The mean turning speed over a span of `micros` microseconds.
pub fn angular_velocity_between(from: Angle, to: Angle, micros: u64) -> (v: Angle)
    requires
        micros > 0,
    ensures
        v == mean_angular_velocity(from, to, micros as int),
{
    let turned: i128 = (to.microdegrees as i128 - from.microdegrees as i128) * 1_000_000;
    let speed: i128 = turned / (micros as i128);
    if speed > i64::MAX as i128 {
        Angle { microdegrees: i64::MAX }
    } else if speed < i64::MIN as i128 {
        Angle { microdegrees: i64::MIN }
    } else {
        Angle { microdegrees: speed as i64 }
    }
}

/// Follows one robot over its two latest detections.
pub struct RobotFilter {
    detections: VecDeque<RobotDetection>,
}

impl View for RobotFilter {
    type V = Seq<RobotDetection>;

    closed spec fn view(&self) -> Seq<RobotDetection> {
        self.detections@
    }
}

impl RobotFilter {
    #[verifier::type_invariant]
    spec fn well_formed(&self) -> bool {
        is_filtered(self.detections@)
    }

    /// A filter that has seen nothing.
    pub fn new() -> (filter: RobotFilter)
        ensures
            filter@.len() == 0,
    {
        RobotFilter { detections: VecDeque::new() }
    }

    /// Takes in one detection. A second detection of one frame is dropped:
    /// no velocity can be told from two detections of the same time.
    pub fn add_detection(&mut self, detection: RobotDetection)
        ensures
            final(self)@ == with_detection(old(self)@, detection),
            is_filtered(final(self)@),
    {
        proof {
            use_type_invariant(&*self);
        }
        let mut detections: VecDeque<RobotDetection> = VecDeque::new();
        std::mem::swap(&mut self.detections, &mut detections);
        let ghost before = detections@;
        let mut k: usize = 0;
        let mut seen = false;
        while k < detections.len()
            invariant
                k <= detections@.len(),
                detections@ == before,
                seen == seen_at(before.take(k as int), detection.timestamp),
            decreases detections@.len() - k,
        {
            let ghost shorter = before.take(k as int);
            let ghost longer = before.take(k + 1);
            if detections[k].timestamp == detection.timestamp {
                seen = true;
                assert(longer[k as int].timestamp == detection.timestamp);
            } else {
                proof {
                    if seen_at(shorter, detection.timestamp) {
                        let j = choose|j: int|
                            0 <= j < shorter.len() && (#[trigger] shorter[j]).timestamp == detection.timestamp;
                        assert(longer[j].timestamp == detection.timestamp);
                    }
                    if seen_at(longer, detection.timestamp) {
                        let j = choose|j: int|
                            0 <= j < longer.len() && (#[trigger] longer[j]).timestamp == detection.timestamp;
                        assert(shorter[j].timestamp == detection.timestamp);
                    }
                }
            }
            k += 1;
        }
        assert(before.take(k as int) =~= before);
        if !seen {
            detections.push_back(detection);
            if detections.len() > 2 {
                detections.pop_front();
            }
            let ghost kept = detections@;
            assert(kept.len() == 2 ==> kept[0].timestamp != kept[1].timestamp) by {
                if kept.len() == 2 {
                    let last = before.len() - 1;
                    assert(before[last].timestamp != detection.timestamp);
                }
            }
            if detections.len() == 2 && detections[0].timestamp > detections[1].timestamp {
                let first = detections[0];
                let second = detections[1];
                let mut sorted: VecDeque<RobotDetection> = VecDeque::new();
                sorted.push_back(second);
                sorted.push_back(first);
                assert(sorted@ =~= in_order(kept));
                detections = sorted;
            }
            assert(detections@ =~= with_detection(before, detection));
        }
        self.detections = detections;
    }

    /// The robot as the two latest detections show it, once there are two.
    pub fn get_robot(&self) -> (robot: Option<Robot>)
        ensures
            robot == robot_from(self@),
    {
        proof {
            use_type_invariant(self);
        }
        if self.detections.len() < 2 {
            return None;
        }
        let earlier = self.detections[0];
        let later = self.detections[1];
        let position = later.position;
        let orientation = later.orientation;
        let time_diff = later.timestamp - earlier.timestamp;
        let velocity = velocity_between(earlier.position, later.position, time_diff);
        let angular_velocity = angular_velocity_between(earlier.orientation, later.orientation, time_diff);
        Some(
            Robot {
                id: earlier.id,
                state: KinematicState { position, orientation, velocity, angular_velocity },
            },
        )
    }
}

/// The filters of a team as plain values: for each robot seen, its id and
/// the detections that its filter keeps, in the order in which the robots
/// were first seen.
pub type TeamFilterView = Seq<(usize, Seq<RobotDetection>)>;

/// The index of the first entry of `filters` under the id `id`; the number
/// of entries if there is none.
pub open spec fn filter_of(filters: TeamFilterView, id: usize) -> int
    decreases filters.len(),
{
    if filters.len() == 0 || filters[0].0 == id {
        0
    } else {
        1 + filter_of(filters.drop_first(), id)
    }
}

/// The filters after `detection` came in: it goes to the filter of its
/// robot, which is set up for a robot not seen before.
pub open spec fn team_with_detection(filters: TeamFilterView, detection: RobotDetection) -> TeamFilterView {
    let at = filter_of(filters, detection.id);
    if at < filters.len() {
        filters.update(at, (detection.id, with_detection(filters[at].1, detection)))
    } else {
        filters.push((detection.id, with_detection(Seq::empty(), detection)))
    }
}

/// The robots that the first `upto` of `filters` show.
pub open spec fn team_from(filters: TeamFilterView, upto: int) -> Seq<Robot>
    decreases upto,
{
    if upto <= 0 {
        Seq::empty()
    } else {
        match robot_from(filters[upto - 1].1) {
            Some(robot) => team_from(filters, upto - 1).push(robot),
            None => team_from(filters, upto - 1),
        }
    }
}

/// The index of the first entry under an id is the one before which no
/// entry has this id and at which the entry has it.
pub proof fn lemma_filter_of_is(filters: TeamFilterView, id: usize, at: int)
    requires
        0 <= at <= filters.len(),
        forall|k: int| 0 <= k < at ==> filters[k].0 != id,
        at < filters.len() ==> filters[at].0 == id,
    ensures
        filter_of(filters, id) == at,
    decreases at,
{
    if at > 0 {
        let rest = filters.drop_first();
        assert(filters[0].0 != id);
        assert forall|k: int| 0 <= k < at - 1 implies rest[k].0 != id by {
            assert(rest[k] == filters[k + 1]);
        }
        if at - 1 < rest.len() {
            assert(rest[at - 1] == filters[at]);
        }
        lemma_filter_of_is(rest, id, at - 1);
    }
}

/// The filter of one robot, under the robot's id.
struct Followed {
    id: usize,
    filter: RobotFilter,
}

/// Follows every robot of one team, each with a filter of its own.
pub struct TeamFilter {
    robot_filters: Vec<Followed>,
}

impl View for TeamFilter {
    type V = TeamFilterView;

    closed spec fn view(&self) -> TeamFilterView {
        Seq::new(self.robot_filters@.len(), |k: int| (self.robot_filters@[k].id, self.robot_filters@[k].filter@))
    }
}

impl TeamFilter {
    /// Filters for a team of which no robot was seen.
    pub fn new() -> (filter: TeamFilter)
        ensures
            filter@.len() == 0,
    {
        TeamFilter { robot_filters: Vec::new() }
    }

    /// Takes in one detection of one robot.
    pub fn add_detection(&mut self, detection: RobotDetection)
        ensures
            final(self)@ == team_with_detection(old(self)@, detection),
    {
        let ghost before = self@;
        let mut at: usize = 0;
        while at < self.robot_filters.len() && self.robot_filters[at].id != detection.id
            invariant
                at <= self.robot_filters@.len(),
                self@ == before,
                forall|k: int| 0 <= k < at ==> before[k].0 != detection.id,
            decreases self.robot_filters@.len() - at,
        {
            assert(before[at as int].0 == self.robot_filters@[at as int].id);
            at += 1;
        }
        proof {
            if at < self.robot_filters@.len() {
                assert(before[at as int].0 == self.robot_filters@[at as int].id);
            }
            lemma_filter_of_is(before, detection.id, at as int);
        }
        if at == self.robot_filters.len() {
            self.robot_filters.push(Followed { id: detection.id, filter: RobotFilter::new() });
        }
        let ghost pushed = self.robot_filters@;
        self.robot_filters[at].filter.add_detection(detection);
        assert(self@ =~= team_with_detection(before, detection)) by {
            assert forall|k: int| 0 <= k < self@.len() implies self@[k] == team_with_detection(
                before,
                detection,
            )[k] by {
                if k != at {
                    assert(self.robot_filters@[k] == pushed[k]);
                    assert(before[k] == (pushed[k].id, pushed[k].filter@));
                }
            }
        }
    }

    /// The robots that the filters show, in the order in which the robots
    /// were first seen. A robot seen once only is not shown yet.
    pub fn get_team(&self) -> (robots: Vec<Robot>)
        ensures
            robots@ == team_from(self@, self@.len() as int),
    {
        let mut robots: Vec<Robot> = Vec::new();
        let mut k: usize = 0;
        while k < self.robot_filters.len()
            invariant
                k <= self.robot_filters@.len(),
                robots@ == team_from(self@, k as int),
            decreases self.robot_filters@.len() - k,
        {
            if let Some(r) = self.robot_filters[k].filter.get_robot() {
                robots.push(r);
            }
            k += 1;
        }
        robots
    }
}

} // verus!
