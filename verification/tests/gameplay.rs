use underbots::gameplay::assignment::{
    assign_columns, assign_robots_to_tactics, greedy_tactic_assignment, optimized_tactic_assignment,
    Assignment, Warnings,
};
use underbots::gameplay::matching::{matching_columns, solve};
use underbots::gameplay::play::{Play, RequestedTactics};
use underbots::gameplay::tactic::Tactic;
use underbots::gameplay::world::World;
use underbots::gameplay::{Gameplay, PlayChange, State};
use underbots::geom::{Angle, Point, Vector};
use underbots::motion::KinematicState;
use underbots::perception::game_state::{Command, GameState, TeamInfo};
use underbots::world::vision::{Ball, Field, Robot, Team};

fn robot(id: usize, x: i32, y: i32) -> Robot {
    Robot {
        id,
        state: KinematicState {
            position: Point { x, y },
            orientation: Angle::from_degrees(45),
            velocity: Vector::new(),
            angular_velocity: Angle::zero(),
        },
    }
}

fn move_to(x: i32, y: i32) -> Tactic {
    Tactic::Move((Point { x, y }, Angle::zero()))
}

fn world(robots: Vec<Robot>, ball: Point, commands: &[Command]) -> World {
    let info = TeamInfo { is_blue: true, score: 0, goalie_id: 0, defending_positive_side: false };
    let mut friendly_team = Team::new();
    friendly_team.with_robots(robots);
    let mut game_state = GameState::new();
    for c in commands {
        game_state.update_command(*c, true);
    }
    World {
        field: Field::ssl_div_b(),
        ball: Ball { position: ball, velocity: Vector::new() },
        friendly_team,
        enemy_team: Team::new(),
        game_state,
        friendly_team_info: info,
        enemy_team_info: TeamInfo { is_blue: false, ..info },
    }
}

const NO_WARNING: Warnings =
    Warnings { greedy_exhausted: false, optimized_truncated: false, solver_failed: false };

#[test]
fn stop_costs_half_a_metre() {
    assert_eq!(Tactic::Stop.robot_assignment_cost(&robot(0, 0, 0)), 500_000);
    assert_eq!(Tactic::Stop.robot_assignment_cost(&robot(9, i32::MAX, i32::MIN)), 500_000);
}

#[test]
fn move_costs_the_distance() {
    assert_eq!(move_to(3_000_000, 4_000_000).robot_assignment_cost(&robot(0, 0, 0)), 5_000_000);
    assert_eq!(move_to(1, 1).robot_assignment_cost(&robot(0, 0, 0)), 1);
    assert_eq!(move_to(7, 7).robot_assignment_cost(&robot(0, 7, 7)), 0);
    assert_eq!(
        move_to(i32::MAX, i32::MAX).robot_assignment_cost(&robot(0, i32::MIN, i32::MIN)),
        6_074_000_998
    );
}

#[test]
fn tactics_plan_two_waypoints() {
    let w = world(vec![], Point::new(), &[]);
    let state = State::new();
    let r = robot(1, 10, 20);
    let stop = Tactic::Stop.run(&r, &w, &state);
    assert_eq!(stop.points(), &vec![Point { x: 10, y: 20 }, Point { x: 10, y: 20 }]);
    assert_eq!(stop.final_orientation(), Angle::zero());
    let go = Tactic::Move((Point { x: -5, y: 6 }, Angle::from_degrees(90))).run(&r, &w, &state);
    assert_eq!(go.points(), &vec![Point { x: 10, y: 20 }, Point { x: -5, y: 6 }]);
    assert_eq!(go.final_orientation(), Angle::from_degrees(90));
    assert!(!go.dribble());
    assert_eq!(go.autokick_speed(), None);
    assert_eq!(go.autochip_distance(), None);
}

#[test]
fn plays_run_in_their_phase() {
    let halted = GameState::new();
    let mut stopped = GameState::new();
    stopped.update_command(Command::Stop, true);
    let mut playing = GameState::new();
    playing.update_command(Command::ForceStart, true);
    let mut setup = GameState::new();
    setup.update_command(Command::PrepareKickoffBlue, true);
    for (play, state, expected) in [
        (Play::Halt, &halted, true),
        (Play::Halt, &stopped, false),
        (Play::Halt, &playing, false),
        (Play::Stop, &stopped, true),
        (Play::Stop, &halted, false),
        (Play::Defense, &playing, true),
        (Play::Defense, &stopped, false),
        (Play::Halt, &setup, false),
        (Play::Stop, &setup, false),
        (Play::Defense, &setup, false),
    ] {
        assert_eq!(play.can_start(state), expected);
        assert_eq!(play.can_continue(state), expected);
    }
}

#[test]
fn plays_have_names_and_an_order() {
    assert_eq!(Play::candidates(), [Play::Halt, Play::Stop, Play::Defense]);
    assert_eq!(Play::Halt.name(), "Halt");
    assert_eq!(Play::Stop.name(), "Stop");
    assert_eq!(Play::Defense.name(), "Defense");
}

#[test]
fn halt_play_stops_every_robot() {
    let w = world(vec![robot(0, 0, 0), robot(1, 5, 5), robot(2, 9, 9)], Point::new(), &[]);
    let requested = Play::Halt.run(&w, &State::new());
    assert_eq!(requested.greedy, vec![Tactic::Stop, Tactic::Stop, Tactic::Stop]);
    assert!(requested.optimized.is_empty());
}

#[test]
fn stop_play_rings_the_ball() {
    let robots = vec![robot(0, 0, 0), robot(1, 5, 5), robot(2, 9, 9), robot(7, 1, 1)];
    let w = world(robots, Point::new(), &[]);
    let requested = Play::Stop.run(&w, &State::new());
    assert_eq!(
        requested.greedy,
        vec![
            move_to(1_000_000, 0),
            move_to(0, 1_000_000),
            move_to(-1_000_000, 0),
            move_to(0, -1_000_000),
        ]
    );
    assert!(requested.optimized.is_empty());
}

#[test]
fn stop_play_with_three_robots_away_from_the_centre() {
    let robots = vec![robot(0, 0, 0), robot(1, 5, 5), robot(2, 9, 9)];
    let w = world(robots, Point { x: 2_000_000, y: -1_000_000 }, &[]);
    let requested = Play::Stop.run(&w, &State::new());
    assert_eq!(
        requested.greedy,
        vec![move_to(3_000_000, -1_000_000), move_to(1_500_000, -133_975), move_to(1_500_000, -1_866_025)]
    );
}

#[test]
fn stop_play_without_robots_asks_nothing() {
    let w = world(vec![], Point::new(), &[]);
    let requested = Play::Stop.run(&w, &State::new());
    assert!(requested.greedy.is_empty());
    assert!(requested.optimized.is_empty());
}

#[test]
fn defense_play_asks_nothing() {
    let w = world(vec![robot(0, 0, 0)], Point::new(), &[]);
    let requested = Play::Defense.run(&w, &State::new());
    assert!(requested.greedy.is_empty());
    assert!(requested.optimized.is_empty());
    let empty = RequestedTactics::new();
    assert!(empty.greedy.is_empty());
    assert!(empty.optimized.is_empty());
}

#[test]
fn greedy_takes_the_cheapest_robot_in_turn() {
    let mut robots = vec![robot(0, 0, 0), robot(1, 10, 0), robot(2, 20, 0)];
    let tactics = vec![move_to(19, 0), move_to(18, 0), move_to(1, 0)];
    let assignments = greedy_tactic_assignment(tactics.clone(), &mut robots);
    assert_eq!(
        assignments,
        vec![
            Assignment { robot_id: 2, tactic: tactics[0] },
            Assignment { robot_id: 1, tactic: tactics[1] },
            Assignment { robot_id: 0, tactic: tactics[2] },
        ]
    );
    assert!(robots.is_empty());
}

#[test]
fn greedy_breaks_ties_by_the_smaller_id() {
    let mut robots = vec![robot(3, 0, 5), robot(4, 0, -5), robot(8, 5, 0)];
    let assignments = greedy_tactic_assignment(vec![move_to(0, 0), Tactic::Stop], &mut robots);
    assert_eq!(
        assignments,
        vec![
            Assignment { robot_id: 3, tactic: move_to(0, 0) },
            Assignment { robot_id: 4, tactic: Tactic::Stop },
        ]
    );
    assert_eq!(robots, vec![robot(8, 5, 0)]);
}

#[test]
fn greedy_stops_when_the_robots_run_out() {
    let mut robots = vec![robot(1, 0, 0)];
    let assignments = greedy_tactic_assignment(vec![Tactic::Stop, move_to(0, 0), Tactic::Stop], &mut robots);
    assert_eq!(assignments, vec![Assignment { robot_id: 1, tactic: Tactic::Stop }]);
    assert!(robots.is_empty());
    let assignments = greedy_tactic_assignment(vec![Tactic::Stop], &mut robots);
    assert!(assignments.is_empty());
}

#[test]
fn greedy_without_tactics_leaves_the_robots() {
    let mut robots = vec![robot(1, 0, 0), robot(2, 1, 1)];
    let assignments = greedy_tactic_assignment(vec![], &mut robots);
    assert!(assignments.is_empty());
    assert_eq!(robots, vec![robot(1, 0, 0), robot(2, 1, 1)]);
}

#[test]
fn matching_columns_accepts_a_permutation() {
    assert_eq!(matching_columns(3, &vec![(0, 2), (1, 0), (2, 1)]), Some(vec![2, 0, 1]));
    assert_eq!(matching_columns(3, &vec![(2, 1), (0, 2), (1, 0)]), Some(vec![2, 0, 1]));
    assert_eq!(matching_columns(1, &vec![(0, 0)]), Some(vec![0]));
    assert_eq!(matching_columns(0, &vec![]), Some(vec![]));
}

#[test]
fn matching_columns_refuses_what_is_no_matching() {
    assert_eq!(matching_columns(3, &vec![(0, 2), (1, 0)]), None);
    assert_eq!(matching_columns(2, &vec![(0, 0), (1, 1), (1, 0)]), None);
    assert_eq!(matching_columns(2, &vec![(0, 0), (0, 1)]), None);
    assert_eq!(matching_columns(2, &vec![(0, 1), (1, 1)]), None);
    assert_eq!(matching_columns(2, &vec![(0, 0), (2, 1)]), None);
    assert_eq!(matching_columns(2, &vec![(0, 2), (1, 1)]), None);
    assert_eq!(matching_columns(1, &vec![]), None);
}

#[test]
fn assign_columns_pairs_rows_with_robots() {
    let robots = vec![robot(4, 0, 0), robot(6, 1, 1), robot(9, 2, 2)];
    let tactics = vec![Tactic::Stop, move_to(1, 1)];
    assert_eq!(
        assign_columns(&tactics, &robots, &vec![2, 0, 1]),
        vec![
            Assignment { robot_id: 9, tactic: Tactic::Stop },
            Assignment { robot_id: 4, tactic: move_to(1, 1) },
        ]
    );
    assert!(assign_columns(&vec![], &robots, &vec![0, 1, 2]).is_empty());
}

#[test]
fn solver_finds_the_cheapest_matching() {
    assert_eq!(solve(2, vec![6, 4, 1, 9]), Some(vec![1, 0]));
    assert_eq!(solve(2, vec![1, 9, 6, 4]), Some(vec![0, 1]));
    assert_eq!(solve(1, vec![42]), Some(vec![0]));
    assert_eq!(solve(3, vec![250, 400, 350, 400, 600, 350, 200, 400, 250]), Some(vec![1, 2, 0]));
}

#[test]
fn optimized_assignment_minimises_the_total_cost() {
    let robots = vec![robot(0, 0, 0), robot(1, 10_000_000, 0)];
    let tactics = vec![move_to(6_000_000, 0), move_to(1_000_000, 0)];
    let (assignments, failed) = optimized_tactic_assignment(tactics.clone(), robots);
    assert!(!failed);
    assert_eq!(
        assignments,
        vec![
            Assignment { robot_id: 1, tactic: tactics[0] },
            Assignment { robot_id: 0, tactic: tactics[1] },
        ]
    );
}

#[test]
fn optimized_assignment_with_more_robots_than_tactics() {
    let robots = vec![robot(2, 0, 0), robot(5, 10_000_000, 0), robot(7, 20_000_000, 0)];
    let tactics = vec![move_to(19_000_000, 0)];
    let (assignments, failed) = optimized_tactic_assignment(tactics.clone(), robots);
    assert!(!failed);
    assert_eq!(assignments, vec![Assignment { robot_id: 7, tactic: tactics[0] }]);
}

#[test]
fn optimized_assignment_drops_the_tactics_in_excess() {
    let robots = vec![robot(2, 0, 0)];
    let tactics = vec![move_to(5, 5), move_to(0, 0), Tactic::Stop];
    let (assignments, failed) = optimized_tactic_assignment(tactics.clone(), robots);
    assert!(!failed);
    assert_eq!(assignments, vec![Assignment { robot_id: 2, tactic: tactics[0] }]);
}

#[test]
fn optimized_assignment_of_nothing() {
    let (assignments, failed) = optimized_tactic_assignment(vec![], vec![robot(2, 0, 0)]);
    assert!(assignments.is_empty());
    assert!(!failed);
    let (assignments, failed) = optimized_tactic_assignment(vec![Tactic::Stop], vec![]);
    assert!(assignments.is_empty());
    assert!(!failed);
}

#[test]
fn both_phases_never_assign_a_robot_twice() {
    let robots = vec![robot(0, 0, 0), robot(1, 1_000_000, 0), robot(2, 2_000_000, 0), robot(3, 3_000_000, 0)];
    let requested = RequestedTactics {
        greedy: vec![move_to(2_100_000, 0), Tactic::Stop],
        optimized: vec![move_to(900_000, 0), move_to(3_000_000, 0), move_to(0, 0)],
    };
    let outcome = assign_robots_to_tactics(requested, robots);
    assert_eq!(
        outcome.assignments,
        vec![
            Assignment { robot_id: 2, tactic: move_to(2_100_000, 0) },
            Assignment { robot_id: 0, tactic: Tactic::Stop },
            Assignment { robot_id: 1, tactic: move_to(900_000, 0) },
            Assignment { robot_id: 3, tactic: move_to(3_000_000, 0) },
        ]
    );
    assert_eq!(
        outcome.warnings,
        Warnings { greedy_exhausted: false, optimized_truncated: true, solver_failed: false }
    );
}

#[test]
fn greedy_exhaustion_is_reported() {
    let requested = RequestedTactics { greedy: vec![Tactic::Stop, Tactic::Stop], optimized: vec![Tactic::Stop] };
    let outcome = assign_robots_to_tactics(requested, vec![robot(5, 0, 0)]);
    assert_eq!(outcome.assignments, vec![Assignment { robot_id: 5, tactic: Tactic::Stop }]);
    assert_eq!(
        outcome.warnings,
        Warnings { greedy_exhausted: true, optimized_truncated: true, solver_failed: false }
    );
}

#[test]
fn gameplay_starts_halted() {
    let gameplay = Gameplay::new();
    assert_eq!(gameplay.current_play(), Play::Halt);
    let state = State::new();
    assert_eq!(state.current_play, Play::Halt);
    assert_eq!(state.enemy_max_speed, 1_000_000);
}

#[test]
fn selector_keeps_a_play_that_can_go_on() {
    let mut gameplay = Gameplay::new();
    let w = world(vec![], Point::new(), &[Command::Halt]);
    assert_eq!(gameplay.update_current_play(&w), PlayChange::Continued);
    assert_eq!(gameplay.current_play(), Play::Halt);
}

#[test]
fn selector_starts_the_first_play_that_can_start() {
    let mut gameplay = Gameplay::new();
    let w = world(vec![], Point::new(), &[Command::Stop]);
    assert_eq!(gameplay.update_current_play(&w), PlayChange::Started(Play::Stop));
    assert_eq!(gameplay.current_play(), Play::Stop);
    assert_eq!(gameplay.update_current_play(&w), PlayChange::Continued);
    let w = world(vec![], Point::new(), &[Command::ForceStart]);
    assert_eq!(gameplay.update_current_play(&w), PlayChange::Started(Play::Defense));
    assert_eq!(gameplay.current_play(), Play::Defense);
    let w = world(vec![], Point::new(), &[Command::Halt]);
    assert_eq!(gameplay.update_current_play(&w), PlayChange::Started(Play::Halt));
}

#[test]
fn selector_falls_back_on_halt() {
    for command in [Command::PrepareKickoffBlue, Command::NormalStart, Command::DirectFreeYellow] {
        let mut gameplay = Gameplay::new();
        let stopped = world(vec![], Point::new(), &[Command::Stop]);
        gameplay.update_current_play(&stopped);
        assert_eq!(gameplay.current_play(), Play::Stop);
        let w = world(vec![], Point::new(), &[command]);
        assert_eq!(gameplay.update_current_play(&w), PlayChange::FellBack);
        assert_eq!(gameplay.current_play(), Play::Halt);
        assert_eq!(gameplay.update_current_play(&w), PlayChange::FellBack);
        assert_eq!(gameplay.current_play(), Play::Halt);
    }
}

#[test]
fn tick_while_halted_holds_every_robot() {
    let mut gameplay = Gameplay::new();
    let w = world(vec![robot(3, 30, 30), robot(1, 10, 10)], Point::new(), &[]);
    let decision = gameplay.tick(&w);
    assert_eq!(decision.play_change, PlayChange::Continued);
    assert_eq!(decision.warnings, NO_WARNING);
    assert_eq!(decision.trajectories.len(), 2);
    let (id, trajectory) = &decision.trajectories[0];
    assert_eq!(*id, 1);
    assert_eq!(trajectory.points(), &vec![Point { x: 10, y: 10 }, Point { x: 10, y: 10 }]);
    assert_eq!(trajectory.final_orientation(), Angle::zero());
    let (id, trajectory) = &decision.trajectories[1];
    assert_eq!(*id, 3);
    assert_eq!(trajectory.points(), &vec![Point { x: 30, y: 30 }, Point { x: 30, y: 30 }]);
}

#[test]
fn tick_while_stopped_sends_the_robots_around_the_ball() {
    let mut gameplay = Gameplay::new();
    let robots = vec![robot(0, 0, 900_000), robot(1, 900_000, 0), robot(2, -900_000, 0), robot(3, 0, -900_000)];
    let w = world(robots, Point::new(), &[Command::Stop]);
    let decision = gameplay.tick(&w);
    assert_eq!(decision.play_change, PlayChange::Started(Play::Stop));
    assert_eq!(gameplay.current_play(), Play::Stop);
    let got: Vec<(usize, Vec<Point>)> =
        decision.trajectories.iter().map(|(id, t)| (*id, t.points().clone())).collect();
    assert_eq!(
        got,
        vec![
            (1, vec![Point { x: 900_000, y: 0 }, Point { x: 1_000_000, y: 0 }]),
            (0, vec![Point { x: 0, y: 900_000 }, Point { x: 0, y: 1_000_000 }]),
            (2, vec![Point { x: -900_000, y: 0 }, Point { x: -1_000_000, y: 0 }]),
            (3, vec![Point { x: 0, y: -900_000 }, Point { x: 0, y: -1_000_000 }]),
        ]
    );
}

#[test]
fn tick_while_playing_plans_nothing() {
    let mut gameplay = Gameplay::new();
    let w = world(vec![robot(0, 0, 0)], Point::new(), &[Command::ForceStart]);
    let decision = gameplay.tick(&w);
    assert_eq!(decision.play_change, PlayChange::Started(Play::Defense));
    assert!(decision.trajectories.is_empty());
    assert_eq!(decision.warnings, NO_WARNING);
}
