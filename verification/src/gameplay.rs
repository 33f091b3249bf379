//! The team's decisions: which play is active, which robot takes which
//! tactic, and the path that each robot is to follow.

pub mod assignment;
pub mod matching;
pub mod play;
pub mod tactic;
pub mod world;

use self::assignment::{
    assign_robots_to_tactics, assigned, has_id, lemma_assignment_injective, warned, Assignment, Warnings,
};
use self::play::{ring_fits, Play};
use self::world::{Robot, World};
use crate::motion::{Trajectory, TrajectoryView};
use crate::perception::game_state::GameStateView;
use crate::world::vision::found;
use vstd::prelude::*;

verus! {

/// What gameplay remembers from one tick to the next.
#[derive(Clone, Copy, Debug)]
pub struct State {
    /// The speed that an opponent is assumed to reach, in micrometres per
    /// second.
    pub enemy_max_speed: u32,
    /// The active play.
    pub current_play: Play,
}

impl State {
    /// The state before the first tick: the team halts, and opponents are
    /// assumed to move at one metre per second.
    pub fn new() -> (state: State)
        ensures
            state.enemy_max_speed == 1_000_000,
            state.current_play == Play::Halt,
    {
        State { enemy_max_speed: 1_000_000, current_play: Play::Halt }
    }
}

/// What the selector did with the active play.
#[derive(Clone, Copy, Debug, PartialEq, Eq, Structural)]
pub enum PlayChange {
    /// The active play goes on.
    Continued,
    /// The active play could not go on, and this one starts.
    Started(Play),
    /// The active play could not go on and no play can start: the team
    /// halts.
    FellBack,
}

/// The first of `plays` that can run in the match state `state`.
pub open spec fn first_fitting(plays: Seq<Play>, state: GameStateView) -> Option<Play>
    decreases plays.len(),
{
    if plays.len() == 0 {
        None
    } else if plays[0].fits(state) {
        Some(plays[0])
    } else {
        first_fitting(plays.drop_first(), state)
    }
}

/// Every play, in the order in which the selector tries them.
pub open spec fn candidates() -> Seq<Play> {
    seq![Play::Halt, Play::Stop, Play::Defense]
}

/// What the selector does with the active play `current` in the match
/// state `state`: nothing while the play can go on; else it starts the
/// first candidate that can start, and falls back on halting if none can.
pub open spec fn selection(current: Play, state: GameStateView) -> PlayChange {
    if current.fits(state) {
        PlayChange::Continued
    } else {
        match first_fitting(candidates(), state) {
            Some(play) => PlayChange::Started(play),
            None => PlayChange::FellBack,
        }
    }
}

/// The play that is active after the selector has looked at the match
/// state `state`.
pub open spec fn selected(current: Play, state: GameStateView) -> Play {
    match selection(current, state) {
        PlayChange::Continued => current,
        PlayChange::Started(play) => play,
        PlayChange::FellBack => Play::Halt,
    }
}

/// The paths planned for `assignments`: each robot's tactic plans from
/// where the robot of that id is among `robots`.
pub open spec fn planned(assignments: Seq<Assignment>, robots: Seq<Robot>) -> Seq<(usize, TrajectoryView)> {
    Seq::new(
        assignments.len(),
        |i: int|
            (
                assignments[i].robot_id,
                assignments[i].tactic.plan_spec(found(robots, assignments[i].robot_id)->Some_0),
            ),
    )
}

/// Where no play can start, the team halts, whatever play was active.
pub proof fn lemma_halt_fallback(current: Play, state: GameStateView)
    requires
        forall|play: Play| !play.fits(state),
    ensures
        selection(current, state) == PlayChange::FellBack,
        selected(current, state) == Play::Halt,
{
    lemma_first_fitting(candidates(), state);
}

/// The first fitting play is the first of the plays that fits; there is
/// none only where no play of the list fits.
pub proof fn lemma_first_fitting(plays: Seq<Play>, state: GameStateView)
    ensures
        match first_fitting(plays, state) {
            Some(play) => exists|k: int|
                0 <= k < plays.len() && plays[k] == play && play.fits(state) && forall|j: int|
                    0 <= j < k ==> !(#[trigger] plays[j]).fits(state),
            None => forall|j: int| 0 <= j < plays.len() ==> !(#[trigger] plays[j]).fits(state),
        },
    decreases plays.len(),
{
    if plays.len() == 0 {
    } else if plays[0].fits(state) {
        assert(plays[0] == plays[0] && forall|j: int| 0 <= j < 0 ==> !(#[trigger] plays[j]).fits(state));
    } else {
        let rest = plays.drop_first();
        lemma_first_fitting(rest, state);
        match first_fitting(rest, state) {
            Some(play) => {
                let k = choose|k: int|
                    0 <= k < rest.len() && rest[k] == play && play.fits(state) && forall|j: int|
                        0 <= j < k ==> !(#[trigger] rest[j]).fits(state);
                assert(plays[k + 1] == play);
                assert forall|j: int| 0 <= j < k + 1 implies !(#[trigger] plays[j]).fits(state) by {
                    if j > 0 {
                        assert(rest[j - 1] == plays[j]);
                    }
                }
            },
            None => {
                assert forall|j: int| 0 <= j < plays.len() implies !(#[trigger] plays[j]).fits(state) by {
                    if j > 0 {
                        assert(rest[j - 1] == plays[j]);
                    }
                }
            },
        }
    }
}

/// What one tick decides.
#[derive(Debug)]
pub struct Decision {
    /// The path of each robot that was given a tactic, under the robot's id.
    pub trajectories: Vec<(usize, Trajectory)>,
    /// What the selector did with the active play.
    pub play_change: PlayChange,
    /// What went short while the tactics were assigned.
    pub warnings: Warnings,
}

/// The team's decision maker. It keeps the active play between ticks.
#[derive(Debug)]
pub struct Gameplay {
    state: State,
}

impl View for Gameplay {
    type V = State;

    closed spec fn view(&self) -> State {
        self.state
    }
}

impl Gameplay {
    /// A decision maker whose team halts.
    pub fn new() -> (gameplay: Gameplay)
        ensures
            gameplay@.current_play == Play::Halt,
            gameplay@.enemy_max_speed == 1_000_000,
    {
        Gameplay { state: State::new() }
    }

    /// The active play.
    pub fn current_play(&self) -> (play: Play)
        ensures
            play == self@.current_play,
    {
        self.state.current_play
    }

    /// Decides for one snapshot of the world: selects the play, lets it
    /// request tactics, assigns them to the friendly robots and plans each
    /// assigned robot's path.
    pub fn tick(&mut self, world: &World) -> (decision: Decision)
        requires
            selected(old(self)@.current_play, world.game_state@) == Play::Stop ==> ring_fits(
                world.ball.position,
            ),
        ensures
            final(self)@.current_play == selected(old(self)@.current_play, world.game_state@),
            final(self)@.enemy_max_speed == old(self)@.enemy_max_speed,
            decision.play_change == selection(old(self)@.current_play, world.game_state@),
            ({
                let robots = world.friendly_team@.robots;
                let greedy = final(self)@.current_play.greedy_spec(world.ball.position, robots.len() as int);
                let assignments = assigned(greedy, Seq::empty(), robots);
                &&& decision.warnings == warned(greedy, Seq::empty(), robots)
                &&& decision.trajectories@.len() == assignments.len()
                &&& forall|i: int|
                    0 <= i < assignments.len() ==> (
                    (#[trigger] decision.trajectories@[i]).0,
                    decision.trajectories@[i].1@,
                    ) == planned(assignments, robots)[i]
                &&& forall|i: int, j: int|
                    0 <= i < j < assignments.len() ==> (#[trigger] decision.trajectories@[i]).0 != (
                    #[trigger] decision.trajectories@[j]).0
            }),
    {
        let play_change = self.update_current_play(world);
        let requested_tactics = self.state.current_play.run(world, &self.state);
        let unassigned_robots = roster(&world.friendly_team.all_robots());
        let ghost robots = unassigned_robots@;
        let ghost greedy = requested_tactics.greedy@;
        assert(requested_tactics.optimized@ =~= Seq::<crate::gameplay::tactic::Tactic>::empty());
        proof {
            lemma_assignment_injective(greedy, Seq::empty(), robots);
        }
        let robot_tactic_assignment = assign_robots_to_tactics(requested_tactics, unassigned_robots);
        let ghost assignments = robot_tactic_assignment.assignments@;
        let mut trajectories: Vec<(usize, Trajectory)> = Vec::new();
        let mut i: usize = 0;
        while i < robot_tactic_assignment.assignments.len()
            invariant
                i <= assignments.len(),
                assignments == robot_tactic_assignment.assignments@,
                robots == world.friendly_team@.robots,
                forall|k: int| 0 <= k < assignments.len() ==> has_id(robots, #[trigger] assignments[k].robot_id),
                trajectories@.len() == i,
                forall|k: int|
                    0 <= k < i ==> ((#[trigger] trajectories@[k]).0, trajectories@[k].1@) == planned(
                        assignments,
                        robots,
                    )[k],
            decreases assignments.len() - i,
        {
            let assignment = robot_tactic_assignment.assignments[i];
            let found_robot = world.friendly_team.robot(&assignment.robot_id);
            assert(has_id(robots, assignments[i as int].robot_id));
            let robot = found_robot.unwrap();
            let trajectory = assignment.tactic.run(robot, world, &self.state);
            trajectories.push((assignment.robot_id, trajectory));
            i += 1;
        }
        Decision { trajectories, play_change, warnings: robot_tactic_assignment.warnings }
    }

    /// Keeps the active play while it can go on; else starts the first
    /// candidate that can start, or halts if none can.
    pub fn update_current_play(&mut self, world: &World) -> (change: PlayChange)
        ensures
            change == selection(old(self)@.current_play, world.game_state@),
            final(self)@.current_play == selected(old(self)@.current_play, world.game_state@),
            final(self)@.enemy_max_speed == old(self)@.enemy_max_speed,
    {
        if !self.state.current_play.can_continue(&world.game_state) {
            let plays = Play::candidates();
            let mut k: usize = 0;
            assert(plays@.skip(0) =~= plays@);
            while k < 3
                invariant
                    k <= 3,
                    plays@ == candidates(),
                    self@ == old(self)@,
                    !old(self)@.current_play.fits(world.game_state@),
                    first_fitting(plays@.skip(k as int), world.game_state@) == first_fitting(
                        candidates(),
                        world.game_state@,
                    ),
                decreases 3 - k,
            {
                let p = plays[k];
                let ghost rest = plays@.skip(k as int);
                assert(rest[0] == plays@[k as int]);
                assert(rest.drop_first() =~= plays@.skip(k + 1));
                if p.can_start(&world.game_state) {
                    self.state.current_play = p;
                    return PlayChange::Started(p);
                }
                k += 1;
            }
            assert(plays@.skip(3).len() == 0);
            self.state.current_play = Play::Halt;
            return PlayChange::FellBack;
        }
        PlayChange::Continued
    }
}

/// The robots themselves, in the order of `robots`.
fn roster(robots: &Vec<&Robot>) -> (owned: Vec<Robot>)
    ensures
        owned@.len() == robots@.len(),
        forall|k: int| 0 <= k < owned@.len() ==> owned@[k] == *robots@[k],
{
    let mut owned: Vec<Robot> = Vec::new();
    let mut i: usize = 0;
    while i < robots.len()
        invariant
            i <= robots@.len(),
            owned@.len() == i,
            forall|k: int| 0 <= k < i ==> owned@[k] == *robots@[k],
        decreases robots@.len() - i,
    {
        owned.push(*robots[i]);
        i += 1;
    }
    owned
}

} // verus!
