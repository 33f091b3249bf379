//! The world that gameplay decides on: a snapshot with nothing missing.

pub use crate::world::{Ball, Field, GameState, Robot, Team, TeamInfo};
use crate::world::World as PartialWorld;
use vstd::prelude::*;

verus! {

/// A snapshot of the world in which the ball and both teams' colours and
/// sides are known.
#[derive(Clone, Debug)]
pub struct World {
    pub field: Field,
    pub ball: Ball,
    pub friendly_team: Team,
    pub enemy_team: Team,
    pub game_state: GameState,
    pub friendly_team_info: TeamInfo,
    pub enemy_team_info: TeamInfo,
}

impl World {
    /// Whether nothing that gameplay needs is missing from `world`.
    pub open spec fn is_complete(world: PartialWorld) -> bool {
        world.field is Some && world.ball is Some && world.friendly_team_info is Some
            && world.enemy_team_info is Some
    }

    /// The complete world that a snapshot holds, or an error if something
    /// is missing from it.
    pub fn from_partial_world(world: PartialWorld) -> (complete: Result<World, ()>)
        ensures
            complete is Ok <==> World::is_complete(world),
            complete matches Ok(w) ==> {
                &&& Some(w.field) == world.field
                &&& Some(w.ball) == world.ball
                &&& w.friendly_team == world.friendly_team
                &&& w.enemy_team == world.enemy_team
                &&& w.game_state == world.game_state
                &&& Some(w.friendly_team_info) == world.friendly_team_info
                &&& Some(w.enemy_team_info) == world.enemy_team_info
            },
    {
        let field = match world.field {
            Some(value) => value,
            None => return Err(()),
        };
        let ball = match world.ball {
            Some(value) => value,
            None => return Err(()),
        };
        let friendly_team_info = match world.friendly_team_info {
            Some(value) => value,
            None => return Err(()),
        };
        let enemy_team_info = match world.enemy_team_info {
            Some(value) => value,
            None => return Err(()),
        };
        Ok(
            World {
                field,
                ball,
                friendly_team: world.friendly_team,
                enemy_team: world.enemy_team,
                game_state: world.game_state,
                friendly_team_info,
                enemy_team_info,
            },
        )
    }
}

} // verus!
