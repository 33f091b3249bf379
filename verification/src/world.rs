//! The world as perception reports it, tick by tick.

pub mod vision;

pub use self::vision::{Ball, Field, Robot, Team};
use self::vision::TeamView;
pub use crate::perception::game_state::{GameState, TeamInfo};
use crate::perception::game_state::GameStateView;
use vstd::prelude::*;

verus! {

/// One snapshot of the world. What perception has not seen yet is absent.
#[derive(Debug)]
pub struct World {
    pub field: Option<Field>,
    pub ball: Option<Ball>,
    pub friendly_team: Team,
    pub enemy_team: Team,
    pub game_state: GameState,
    pub friendly_team_info: Option<TeamInfo>,
    pub enemy_team_info: Option<TeamInfo>,
}

/// A snapshot as a plain value: what `World` stands for.
pub struct WorldView {
    pub field: Option<Field>,
    pub ball: Option<Ball>,
    pub friendly_team: TeamView,
    pub enemy_team: TeamView,
    pub game_state: GameStateView,
    pub friendly_team_info: Option<TeamInfo>,
    pub enemy_team_info: Option<TeamInfo>,
}

impl View for World {
    type V = WorldView;

    open spec fn view(&self) -> WorldView {
        WorldView {
            field: self.field,
            ball: self.ball,
            friendly_team: self.friendly_team@,
            enemy_team: self.enemy_team@,
            game_state: self.game_state@,
            friendly_team_info: self.friendly_team_info,
            enemy_team_info: self.enemy_team_info,
        }
    }
}

impl Clone for World {
    fn clone(&self) -> (copy: World)
        ensures
            copy@ == self@,
    {
        World {
            field: self.field,
            ball: self.ball,
            friendly_team: self.friendly_team.clone(),
            enemy_team: self.enemy_team.clone(),
            game_state: self.game_state,
            friendly_team_info: self.friendly_team_info,
            enemy_team_info: self.enemy_team_info,
        }
    }
}

impl World {
    /// The world of which nothing was seen: no robot, no ball, no field,
    /// and a halted match.
    pub fn new() -> (world: World)
        ensures
            world@ == WorldView::unseen(),
    {
        World {
            field: None,
            ball: None,
            friendly_team: Team::new(),
            enemy_team: Team::new(),
            game_state: GameState::new(),
            friendly_team_info: None,
            enemy_team_info: None,
        }
    }
}

impl WorldView {
    /// The world of which nothing was seen.
    pub open spec fn unseen() -> WorldView {
        WorldView {
            field: None,
            ball: None,
            friendly_team: TeamView { goalie_id: None, robots: Seq::empty() },
            enemy_team: TeamView { goalie_id: None, robots: Seq::empty() },
            game_state: GameStateView::initial(),
            friendly_team_info: None,
            enemy_team_info: None,
        }
    }
}

} // verus!
