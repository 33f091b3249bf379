use underbots::geom::{Angle, Point, Rectangle, Vector};
use underbots::gameplay::world::World;
use underbots::motion::KinematicState;
use underbots::perception::game_state::{GameState, TeamInfo};
use underbots::world::vision::{Ball, Field, Robot, Team};
use underbots::world::World as PartialWorld;

fn robot(id: usize, x: i32, y: i32) -> Robot {
    Robot {
        id,
        state: KinematicState {
            position: Point { x, y },
            orientation: Angle::zero(),
            velocity: Vector::new(),
            angular_velocity: Angle::zero(),
        },
    }
}

fn ids(robots: &[&Robot]) -> Vec<usize> {
    robots.iter().map(|r| r.id).collect()
}

#[test]
fn new_team_is_empty() {
    let team = Team::new();
    assert!(team.all_robots().is_empty());
    assert!(team.players().is_empty());
    assert_eq!(team.goalie_id(), None);
    assert!(team.goalie().is_none());
    assert!(team.robot(&0).is_none());
}

#[test]
fn robots_come_by_increasing_id() {
    let mut team = Team::new();
    team.with_robots(vec![robot(5, 0, 0), robot(1, 1, 1), robot(3, 2, 2), robot(0, 3, 3)]);
    assert_eq!(ids(&team.all_robots()), vec![0, 1, 3, 5]);
    assert_eq!(team.robot(&3), Some(&robot(3, 2, 2)));
    assert_eq!(team.robot(&2), None);
    assert_eq!(team.robot(&6), None);
}

#[test]
fn a_robot_replaces_the_one_with_its_id() {
    let mut team = Team::new();
    team.with_robots(vec![robot(2, 0, 0), robot(1, 1, 1), robot(2, 9, 9)]);
    assert_eq!(ids(&team.all_robots()), vec![1, 2]);
    assert_eq!(team.robot(&2), Some(&robot(2, 9, 9)));
    team.with_robots(vec![robot(1, 7, 7)]);
    assert_eq!(ids(&team.all_robots()), vec![1, 2]);
    assert_eq!(team.robot(&1), Some(&robot(1, 7, 7)));
}

#[test]
fn players_are_all_but_the_goalkeeper() {
    let mut team = Team::new();
    team.with_robots(vec![robot(0, 0, 0), robot(1, 1, 1), robot(2, 2, 2)]);
    assert_eq!(ids(&team.players()), vec![0, 1, 2]);
    team.with_goalie(1);
    assert_eq!(team.goalie_id(), Some(1));
    assert_eq!(ids(&team.players()), vec![0, 2]);
    assert_eq!(team.goalie(), Some(&robot(1, 1, 1)));
    team.set_goalie(Some(7));
    assert_eq!(ids(&team.players()), vec![0, 1, 2]);
    assert!(team.goalie().is_none());
    team.set_goalie(None);
    assert_eq!(team.goalie_id(), None);
    assert!(team.goalie().is_none());
}

#[test]
fn build_copies_the_team() {
    let copy = Team::new().with_robots(vec![robot(4, 1, 2), robot(2, 3, 4)]).with_goalie(4).build();
    assert_eq!(ids(&copy.all_robots()), vec![2, 4]);
    assert_eq!(copy.goalie_id(), Some(4));
    let clone = copy.clone();
    assert_eq!(clone.robot(&4), Some(&robot(4, 1, 2)));
}

#[test]
fn field_of_division_b() {
    let field = Field::ssl_div_b();
    assert_eq!(field.x_length, 9_000_000);
    assert_eq!(field.y_length, 6_000_000);
    assert_eq!(field.goal_x_length, 180_000);
    assert_eq!(field.center_circle_radius, 500_000);
    assert_eq!(
        field.touch_lines(),
        Rectangle::new(Point { x: -4_500_000, y: -3_000_000 }, Point { x: 4_500_000, y: 3_000_000 })
    );
    assert_eq!(
        field.enemy_defense_area(),
        Rectangle::new(Point { x: 3_500_000, y: -1_000_000 }, Point { x: 4_500_000, y: 1_000_000 })
    );
    assert_eq!(
        field.friendly_defense_area(),
        Rectangle::new(Point { x: -4_500_000, y: -1_000_000 }, Point { x: -3_500_000, y: 1_000_000 })
    );
}

#[test]
fn defense_area_deeper_than_half_the_field() {
    let field = Field { x_length: 10, y_length: 10, defense_x_length: 100, defense_y_length: 4, ..Field::ssl_div_b() };
    let area = field.enemy_defense_area();
    assert_eq!(area, Rectangle::new(Point { x: -95, y: -2 }, Point { x: 5, y: 2 }));
    assert_eq!(area.len_x(), 100);
}

fn partial() -> PartialWorld {
    let info = TeamInfo { is_blue: true, score: 0, goalie_id: 0, defending_positive_side: false };
    PartialWorld {
        field: Some(Field::ssl_div_b()),
        ball: Some(Ball { position: Point { x: 1, y: 2 }, velocity: Vector { x: 3, y: 4 } }),
        friendly_team: Team::new(),
        enemy_team: Team::new(),
        game_state: GameState::new(),
        friendly_team_info: Some(info),
        enemy_team_info: Some(TeamInfo { is_blue: false, ..info }),
    }
}

#[test]
fn complete_world_from_a_full_snapshot() {
    let mut snapshot = partial();
    snapshot.friendly_team.with_robots(vec![robot(1, 0, 0)]);
    let world = World::from_partial_world(snapshot).unwrap();
    assert_eq!(world.ball.position, Point { x: 1, y: 2 });
    assert_eq!(world.field, Field::ssl_div_b());
    assert!(world.friendly_team_info.is_blue);
    assert!(!world.enemy_team_info.is_blue);
    assert_eq!(ids(&world.friendly_team.all_robots()), vec![1]);
    assert!(world.enemy_team.all_robots().is_empty());
}

#[test]
fn a_snapshot_with_something_missing_is_refused() {
    let mut snapshot = partial();
    snapshot.field = None;
    assert!(World::from_partial_world(snapshot).is_err());
    let mut snapshot = partial();
    snapshot.ball = None;
    assert!(World::from_partial_world(snapshot).is_err());
    let mut snapshot = partial();
    snapshot.friendly_team_info = None;
    assert!(World::from_partial_world(snapshot).is_err());
    let mut snapshot = partial();
    snapshot.enemy_team_info = None;
    assert!(World::from_partial_world(snapshot).is_err());
}
