//! Where the ball is and how fast it moves, from its two latest detections.

use crate::geom::{Point, Vector};
use crate::math::div_toward_zero;
use crate::world::vision::Ball;
use std::collections::VecDeque;
use vstd::prelude::*;

verus! {

/// One sighting of the ball.
#[derive(Clone, Copy, Debug, PartialEq, Eq, Structural)]
pub struct BallDetection {
    pub position: Point,
    /// When the frame was captured, in microseconds.
    pub timestamp: u64,
}

/// The mean velocity, in micrometres per second, of what moved from `from`
/// to `to` in `micros` microseconds, each coordinate rounded toward zero.
pub open spec fn mean_velocity(from: Point, to: Point, micros: int) -> Vector {
    Vector {
        x: div_toward_zero((to.x - from.x) * 1_000_000, micros) as i64,
        y: div_toward_zero((to.y - from.y) * 1_000_000, micros) as i64,
    }
}

/// Whether one of `detections` was captured at `timestamp`.
pub open spec fn seen_at(detections: Seq<BallDetection>, timestamp: u64) -> bool {
    exists|k: int| 0 <= k < detections.len() && (#[trigger] detections[k]).timestamp == timestamp
}

/// The detections kept after `detection` came in: a detection captured at
/// the time of one that is kept is dropped; else it is kept, and of three
/// the oldest kept is forgotten.
pub open spec fn with_detection(detections: Seq<BallDetection>, detection: BallDetection) -> Seq<
    BallDetection,
> {
    if seen_at(detections, detection.timestamp) {
        detections
    } else if detections.len() >= 2 {
        detections.push(detection).drop_first()
    } else {
        detections.push(detection)
    }
}

/// Two detections in the order of their capture.
pub open spec fn in_order(detections: Seq<BallDetection>) -> Seq<BallDetection> {
    if detections.len() == 2 && detections[0].timestamp > detections[1].timestamp {
        seq![detections[1], detections[0]]
    } else {
        detections
    }
}

/// The ball that two detections show: where the later one saw it, moving
/// as it did between the two.
pub open spec fn ball_from(detections: Seq<BallDetection>) -> Option<Ball> {
    if detections.len() < 2 {
        None
    } else {
        let sorted = in_order(detections);
        Some(
            Ball {
                position: sorted[1].position,
                velocity: mean_velocity(
                    sorted[0].position,
                    sorted[1].position,
                    sorted[1].timestamp - sorted[0].timestamp,
                ),
            },
        )
    }
}

/// At most two detections, captured at different times.
pub open spec fn is_filtered(detections: Seq<BallDetection>) -> bool {
    &&& detections.len() <= 2
    &&& detections.len() == 2 ==> detections[0].timestamp != detections[1].timestamp
}

/// The mean velocity over a span of `micros` microseconds.
pub fn velocity_between(from: Point, to: Point, micros: u64) -> (v: Vector)
    requires
        micros > 0,
    ensures
        v == mean_velocity(from, to, micros as int),
{
    let dx: i128 = (to.x as i128 - from.x as i128) * 1_000_000;
    let dy: i128 = (to.y as i128 - from.y as i128) * 1_000_000;
    proof {
        crate::math::lemma_div_toward_zero_bounds(dx as int, micros as int);
        crate::math::lemma_div_toward_zero_bounds(dy as int, micros as int);
    }
    Vector { x: (dx / (micros as i128)) as i64, y: (dy / (micros as i128)) as i64 }
}

/// Follows the ball over its two latest detections.
pub struct BallFilter {
    detections: VecDeque<BallDetection>,
}

impl View for BallFilter {
    type V = Seq<BallDetection>;

    closed spec fn view(&self) -> Seq<BallDetection> {
        self.detections@
    }
}

impl BallFilter {
    #[verifier::type_invariant]
    spec fn well_formed(&self) -> bool {
        is_filtered(self.detections@)
    }

    /// A filter that has seen nothing.
    pub fn new() -> (filter: BallFilter)
        ensures
            filter@.len() == 0,
    {
        BallFilter { detections: VecDeque::new() }
    }

    /// Takes in one detection. A second detection of one frame is dropped:
    /// no velocity can be told from two detections of the same time.
    pub fn add_detection(&mut self, detection: BallDetection)
        ensures
            final(self)@ == with_detection(old(self)@, detection),
            is_filtered(final(self)@),
    {
        proof {
            use_type_invariant(&*self);
        }
        let mut detections: VecDeque<BallDetection> = VecDeque::new();
        std::mem::swap(&mut self.detections, &mut detections);
        let ghost before = detections@;
        let mut k: usize = 0;
        let mut seen = false;
        while k < detections.len()
            invariant
                k <= detections@.len(),
                detections@ == before,
                seen == seen_at(before.take(k as int), detection.timestamp),
            decreases detections@.len() - k,
        {
            let ghost shorter = before.take(k as int);
            let ghost longer = before.take(k + 1);
            if detections[k].timestamp == detection.timestamp {
                seen = true;
                assert(longer[k as int].timestamp == detection.timestamp);
            } else {
                proof {
                    if seen_at(shorter, detection.timestamp) {
                        let j = choose|j: int|
                            0 <= j < shorter.len() && (#[trigger] shorter[j]).timestamp == detection.timestamp;
                        assert(longer[j].timestamp == detection.timestamp);
                    }
                    if seen_at(longer, detection.timestamp) {
                        let j = choose|j: int|
                            0 <= j < longer.len() && (#[trigger] longer[j]).timestamp == detection.timestamp;
                        assert(shorter[j].timestamp == detection.timestamp);
                    }
                }
            }
            k += 1;
        }
        assert(before.take(k as int) =~= before);
        if !seen {
            detections.push_back(detection);
            if detections.len() > 2 {
                detections.pop_front();
            }
            assert(detections@ =~= with_detection(before, detection));
            assert(detections@.len() == 2 ==> detections@[0].timestamp != detections@[1].timestamp) by {
                if detections@.len() == 2 {
                    let last = before.len() - 1;
                    assert(before[last].timestamp != detection.timestamp);
                }
            }
        }
        self.detections = detections;
    }

    /// The ball as the two latest detections show it, once there are two.
    /// The detections are put in the order of their capture.
    pub fn get_ball(&mut self) -> (ball: Option<Ball>)
        ensures
            ball == ball_from(old(self)@),
            final(self)@ == in_order(old(self)@),
            is_filtered(final(self)@),
    {
        proof {
            use_type_invariant(&*self);
        }
        if self.detections.len() < 2 {
            return None;
        }
        let first = self.detections[0];
        let second = self.detections[1];
        let (earlier, later) = if first.timestamp > second.timestamp {
            (second, first)
        } else {
            (first, second)
        };
        let mut sorted: VecDeque<BallDetection> = VecDeque::new();
        sorted.push_back(earlier);
        sorted.push_back(later);
        assert(sorted@ =~= in_order(self.detections@));
        self.detections = sorted;
        let position = later.position;
        let time_diff = later.timestamp - earlier.timestamp;
        let velocity = velocity_between(earlier.position, later.position, time_diff);
        Some(Ball { position, velocity })
    }
}

} // verus!
