//! The team's strategies. Exactly one play is active at a time.

use super::tactic::Tactic;
use crate::gameplay::world::World;
use crate::gameplay::State;
use crate::geom::trig::FULL_TURN;
use crate::geom::{Angle, Point, Vector};
use crate::perception::game_state::{GameStateView, PlayState};
use crate::world::GameState;
use vstd::prelude::*;

verus! {

/// The distance from the ball at which the robots wait while play is
/// stopped: one metre.
pub const STOP_RADIUS: i64 = 1_000_000;

/// The behaviours that a play asks for in one tick.
#[derive(Debug)]
pub struct RequestedTactics {
    /// Assigned first, one after the other, each to the cheapest robot left.
    pub greedy: Vec<Tactic>,
    /// Assigned together, at the least total cost.
    pub optimized: Vec<Tactic>,
}

impl RequestedTactics {
    /// No behaviour at all.
    pub fn new() -> (requested: RequestedTactics)
        ensures
            requested.greedy@.len() == 0,
            requested.optimized@.len() == 0,
    {
        RequestedTactics { greedy: Vec::new(), optimized: Vec::new() }
    }
}

/// A strategy of the whole team.
#[derive(Clone, Copy, Debug, PartialEq, Eq, Structural)]
pub enum Play {
    Halt,
    Stop,
    Defense,
}

/// The direction of the `i`-th of `n` places evenly spread on a circle,
/// counter-clockwise from angle zero.
pub open spec fn ring_angle(i: int, n: int) -> Angle {
    Angle { microdegrees: ((FULL_TURN as int / n) * i) as i64 }
}

/// The `i`-th of `n` places evenly spread on the circle of radius
/// `STOP_RADIUS` around `centre`.
pub open spec fn ring_point(centre: Point, i: int, n: int) -> Point {
    centre.moved(Vector::from_angle_spec(ring_angle(i, n), STOP_RADIUS))
}

/// Whether the circle of radius `STOP_RADIUS` around `centre` lies among
/// the positions that a `Point` holds.
pub open spec fn ring_fits(centre: Point) -> bool {
    &&& i32::MIN + STOP_RADIUS <= centre.x <= i32::MAX - STOP_RADIUS
    &&& i32::MIN + STOP_RADIUS <= centre.y <= i32::MAX - STOP_RADIUS
}

impl Play {
    /// The phase of the match in which the play runs.
    pub open spec fn phase(self) -> PlayState {
        match self {
            Play::Halt => PlayState::Halt,
            Play::Stop => PlayState::Stop,
            Play::Defense => PlayState::Playing,
        }
    }

    /// Whether the play can run in the match state `state`: it does in its
    /// own phase and in no other.
    pub open spec fn fits(self, state: GameStateView) -> bool {
        state.play_state == self.phase()
    }

    /// The tactics that the play asks to assign greedily, for a ball at
    /// `ball` and `n` friendly robots: to halt, `n` times stop; to stop,
    /// the `n` places of the ring around the ball, each faced at heading
    /// zero; to defend, nothing.
    pub open spec fn greedy_spec(self, ball: Point, n: int) -> Seq<Tactic> {
        match self {
            Play::Halt => Seq::new(n as nat, |i: int| Tactic::Stop),
            Play::Stop => Seq::new(
                n as nat,
                |i: int| Tactic::Move((ring_point(ball, i, n), Angle { microdegrees: 0 })),
            ),
            Play::Defense => Seq::empty(),
        }
    }

    /// Every play, in the order in which the selector tries them.
    pub fn candidates() -> (plays: [Play; 3])
        ensures
            plays@ == seq![Play::Halt, Play::Stop, Play::Defense],
    {
        let plays = [Play::Halt, Play::Stop, Play::Defense];
        assert(plays@ =~= seq![Play::Halt, Play::Stop, Play::Defense]);
        plays
    }

    /// The play's name.
    pub fn name(&self) -> (name: &'static str)
        ensures
            name@ == match self {
                Play::Halt => "Halt"@,
                Play::Stop => "Stop"@,
                Play::Defense => "Defense"@,
            },
    {
        match self {
            Play::Halt => "Halt",
            Play::Stop => "Stop",
            Play::Defense => "Defense",
        }
    }

    /// Whether the play can become active.
    pub fn can_start(&self, state: &GameState) -> (b: bool)
        ensures
            b == self.fits(state@),
    {
        match self {
            Play::Halt => state.halted(),
            Play::Stop => state.stopped(),
            Play::Defense => state.playing(),
        }
    }

    /// Whether the play can stay active.
    pub fn can_continue(&self, state: &GameState) -> (b: bool)
        ensures
            b == self.fits(state@),
    {
        match self {
            Play::Halt => state.halted(),
            Play::Stop => state.stopped(),
            Play::Defense => state.playing(),
        }
    }

    /// The tactics that the play asks for in the world `world`.
    pub fn run(&self, world: &World, state: &State) -> (requested: RequestedTactics)
        requires
            *self == Play::Stop ==> ring_fits(world.ball.position),
        ensures
            requested.greedy@ == self.greedy_spec(
                world.ball.position,
                world.friendly_team@.robots.len() as int,
            ),
            requested.optimized@.len() == 0,
    {
        match self {
            Play::Halt => {
                let n: usize = world.friendly_team.all_robots().len();
                let mut greedy: Vec<Tactic> = Vec::new();
                let mut i: usize = 0;
                while i < n
                    invariant
                        i <= n,
                        greedy@.len() == i,
                        forall|k: int| 0 <= k < i ==> greedy@[k] == Tactic::Stop,
                    decreases n - i,
                {
                    greedy.push(Tactic::Stop);
                    i += 1;
                }
                assert(greedy@ =~= self.greedy_spec(world.ball.position, n as int));
                RequestedTactics { greedy, optimized: Vec::new() }
            },
            Play::Stop => {
                let n: usize = world.friendly_team.all_robots().len();
                let ball = world.ball.position;
                let step: i64 = if n == 0 || n > 360_000_000 {
                    0
                } else {
                    FULL_TURN / (n as i64)
                };
                assert(n > 0 ==> step == FULL_TURN as int / (n as int)) by {
                    if n > 360_000_000 {
                        assert(360_000_000int / (n as int) == 0) by (nonlinear_arith)
                            requires
                                n > 360_000_000,
                        ;
                    }
                }
                let mut greedy: Vec<Tactic> = Vec::new();
                let mut i: usize = 0;
                while i < n
                    invariant
                        i <= n,
                        ring_fits(ball),
                        0 <= step,
                        step != 0 ==> n <= 360_000_000,
                        n > 0 ==> step == FULL_TURN as int / (n as int),
                        greedy@.len() == i,
                        forall|k: int|
                            0 <= k < i ==> greedy@[k] == Tactic::Move(
                                (ring_point(ball, k, n as int), Angle { microdegrees: 0 }),
                            ),
                    decreases n - i,
                {
                    assert(0 <= step * i <= 360_000_000) by (nonlinear_arith)
                        requires
                            0 <= step,
                            step == 360_000_000int / (n as int),
                            0 <= i < n,
                    ;
                    let turned: i64 = if step == 0 {
                        0
                    } else {
                        step * (i as i64)
                    };
                    let angle = Angle { microdegrees: turned };
                    assert(turned == (FULL_TURN as int / (n as int)) * (i as int)) by (nonlinear_arith)
                        requires
                            step == FULL_TURN as int / (n as int),
                            turned == if step == 0 {
                                0
                            } else {
                                step * i
                            },
                    ;
                    let offset = Vector::from_angle(angle, STOP_RADIUS);
                    let p = ball + offset;
                    greedy.push(Tactic::Move((p, Angle::zero())));
                    i += 1;
                }
                assert(greedy@ =~= self.greedy_spec(ball, n as int));
                RequestedTactics { greedy, optimized: Vec::new() }
            },
            Play::Defense => RequestedTactics::new(),
        }
    }
}

} // verus!
