use underbots::geom::Point;
use underbots::perception::game_state::{Command, GameState, PlayState, RestartReason, Rules};

const ALL_COMMANDS: [Command; 18] = [
    Command::Halt,
    Command::Stop,
    Command::NormalStart,
    Command::ForceStart,
    Command::PrepareKickoffYellow,
    Command::PrepareKickoffBlue,
    Command::PreparePenaltyYellow,
    Command::PreparePenaltyBlue,
    Command::DirectFreeYellow,
    Command::DirectFreeBlue,
    Command::IndirectFreeYellow,
    Command::IndirectFreeBlue,
    Command::TimeoutYellow,
    Command::TimeoutBlue,
    Command::GoalYellow,
    Command::GoalBlue,
    Command::BallPlacementYellow,
    Command::BallPlacementBlue,
];

fn after(commands: &[Command], blue: bool) -> GameState {
    let mut state = GameState::new();
    for c in commands {
        state.update_command(*c, blue);
    }
    state
}

fn rules(move_dist: u32) -> Rules {
    Rules { ball_in_play_after_restart_move_dist: move_dist }
}

fn row(state: &GameState) -> (PlayState, RestartReason, bool) {
    (state.play_state(), state.restart_reason(), state.our_restart())
}

#[test]
fn new_state_is_halted() {
    let state = GameState::new();
    assert_eq!(state.play_state(), PlayState::Halt);
    assert_eq!(state.restart_reason(), RestartReason::NoRestart);
    assert!(!state.our_restart());
    assert_eq!(state.ball_position_at_restart(), None);
    assert!(state.halted());
    assert!(!state.stopped());
    assert!(!state.playing());
}

#[test]
fn command_numbers_follow_the_protocol() {
    for (i, c) in ALL_COMMANDS.iter().enumerate() {
        assert_eq!(Command::from_i32(i as i32), Some(*c));
    }
    assert_eq!(Command::from_i32(-1), None);
    assert_eq!(Command::from_i32(18), None);
    assert_eq!(Command::from_i32(i32::MAX), None);
    assert_eq!(Command::from_i32(i32::MIN), None);
}

#[test]
fn referee_table_for_a_blue_team() {
    let none = RestartReason::NoRestart;
    assert_eq!(row(&after(&[Command::Halt], true)), (PlayState::Halt, none, false));
    assert_eq!(row(&after(&[Command::Stop], true)), (PlayState::Stop, none, false));
    assert_eq!(row(&after(&[Command::NormalStart], true)), (PlayState::Ready, none, false));
    assert_eq!(row(&after(&[Command::ForceStart], true)), (PlayState::Playing, none, false));
    assert_eq!(
        row(&after(&[Command::PrepareKickoffYellow], true)),
        (PlayState::Setup, RestartReason::Kickoff, false)
    );
    assert_eq!(
        row(&after(&[Command::PrepareKickoffBlue], true)),
        (PlayState::Setup, RestartReason::Kickoff, true)
    );
    assert_eq!(
        row(&after(&[Command::PreparePenaltyYellow], true)),
        (PlayState::Setup, RestartReason::Penalty, false)
    );
    assert_eq!(
        row(&after(&[Command::PreparePenaltyBlue], true)),
        (PlayState::Setup, RestartReason::Penalty, true)
    );
    assert_eq!(
        row(&after(&[Command::DirectFreeYellow], true)),
        (PlayState::Ready, RestartReason::FreeKick, false)
    );
    assert_eq!(
        row(&after(&[Command::DirectFreeBlue], true)),
        (PlayState::Ready, RestartReason::FreeKick, true)
    );
    assert_eq!(
        row(&after(&[Command::IndirectFreeYellow], true)),
        (PlayState::Ready, RestartReason::FreeKick, false)
    );
    assert_eq!(
        row(&after(&[Command::IndirectFreeBlue], true)),
        (PlayState::Ready, RestartReason::FreeKick, true)
    );
    assert_eq!(row(&after(&[Command::TimeoutYellow], true)), (PlayState::Halt, none, false));
    assert_eq!(row(&after(&[Command::TimeoutBlue], true)), (PlayState::Halt, none, false));
    assert_eq!(row(&after(&[Command::GoalYellow], true)), (PlayState::Stop, none, false));
    assert_eq!(row(&after(&[Command::GoalBlue], true)), (PlayState::Stop, none, false));
    assert_eq!(
        row(&after(&[Command::BallPlacementYellow], true)),
        (PlayState::Setup, RestartReason::BallPlacement, false)
    );
    assert_eq!(
        row(&after(&[Command::BallPlacementBlue], true)),
        (PlayState::Setup, RestartReason::BallPlacement, true)
    );
}

#[test]
fn referee_table_for_a_yellow_team() {
    assert_eq!(
        row(&after(&[Command::PrepareKickoffYellow], false)),
        (PlayState::Setup, RestartReason::Kickoff, true)
    );
    assert_eq!(
        row(&after(&[Command::PrepareKickoffBlue], false)),
        (PlayState::Setup, RestartReason::Kickoff, false)
    );
    assert_eq!(
        row(&after(&[Command::PreparePenaltyYellow], false)),
        (PlayState::Setup, RestartReason::Penalty, true)
    );
    assert_eq!(
        row(&after(&[Command::PreparePenaltyBlue], false)),
        (PlayState::Setup, RestartReason::Penalty, false)
    );
    assert_eq!(
        row(&after(&[Command::DirectFreeYellow], false)),
        (PlayState::Ready, RestartReason::FreeKick, true)
    );
    assert_eq!(
        row(&after(&[Command::DirectFreeBlue], false)),
        (PlayState::Ready, RestartReason::FreeKick, false)
    );
    assert_eq!(
        row(&after(&[Command::IndirectFreeYellow], false)),
        (PlayState::Ready, RestartReason::FreeKick, true)
    );
    assert_eq!(
        row(&after(&[Command::IndirectFreeBlue], false)),
        (PlayState::Ready, RestartReason::FreeKick, false)
    );
    assert_eq!(
        row(&after(&[Command::BallPlacementYellow], false)),
        (PlayState::Setup, RestartReason::BallPlacement, true)
    );
    assert_eq!(
        row(&after(&[Command::BallPlacementBlue], false)),
        (PlayState::Setup, RestartReason::BallPlacement, false)
    );
}

#[test]
fn every_command_sets_the_phase_whatever_came_before() {
    for first in ALL_COMMANDS {
        for second in ALL_COMMANDS {
            for blue in [false, true] {
                let twice = after(&[first, second], blue);
                let once = after(&[second], blue);
                assert_eq!(twice.play_state(), once.play_state());
                if second != Command::NormalStart {
                    assert_eq!(twice.restart_reason(), once.restart_reason());
                }
            }
        }
    }
}

#[test]
fn normal_start_keeps_the_reason_and_the_owner() {
    let state = after(&[Command::PrepareKickoffBlue, Command::NormalStart], true);
    assert_eq!(row(&state), (PlayState::Ready, RestartReason::Kickoff, true));
    assert!(state.our_kickoff());
    assert!(!state.their_kickoff());
    let state = after(&[Command::PreparePenaltyYellow, Command::NormalStart], true);
    assert_eq!(state.play_state(), PlayState::Ready);
    assert!(state.their_penalty());
    assert!(!state.our_penalty());
}

#[test]
fn halt_and_goal_keep_the_owner_and_stop_clears_it() {
    let state = after(&[Command::PrepareKickoffBlue, Command::Halt, Command::PrepareKickoffBlue], true);
    assert!(state.our_kickoff());
    let state = after(&[Command::PrepareKickoffBlue, Command::Halt], true);
    assert!(!state.our_restart());
    assert!(!state.friendly_stay_away_from_ball());
    let state = after(&[Command::PrepareKickoffBlue, Command::GoalBlue], true);
    assert!(!state.friendly_stay_away_from_ball());
    let state = after(&[Command::PrepareKickoffBlue, Command::Stop], true);
    assert!(state.friendly_stay_away_from_ball());
}

#[test]
fn restart_completes_when_the_ball_has_moved() {
    let mut state = after(&[Command::PrepareKickoffBlue], true);
    let placed = Point { x: 10, y: 20 };
    state.update_is_restart_completed(placed, rules(50_000));
    assert_eq!(state.play_state(), PlayState::Setup);
    assert_eq!(state.ball_position_at_restart(), Some(placed));
    state.update_command(Command::NormalStart, true);
    assert_eq!(state.play_state(), PlayState::Ready);
    for _ in 0..100 {
        state.update_is_restart_completed(Point { x: 10 + 50_000, y: 20 }, rules(50_000));
        assert_eq!(state.play_state(), PlayState::Ready);
        assert_eq!(state.restart_reason(), RestartReason::Kickoff);
        assert_eq!(state.ball_position_at_restart(), Some(placed));
    }
    state.update_is_restart_completed(Point { x: 10 + 50_000, y: 21 }, rules(50_000));
    assert_eq!(state.play_state(), PlayState::Playing);
    assert_eq!(state.restart_reason(), RestartReason::NoRestart);
    assert_eq!(state.ball_position_at_restart(), None);
    assert!(state.playing());
}

#[test]
fn setup_records_the_latest_ball_position() {
    let mut state = after(&[Command::BallPlacementYellow], true);
    state.update_is_restart_completed(Point { x: 1, y: 1 }, rules(10));
    state.update_is_restart_completed(Point { x: 500, y: -500 }, rules(10));
    assert_eq!(state.ball_position_at_restart(), Some(Point { x: 500, y: -500 }));
    assert_eq!(state.play_state(), PlayState::Setup);
}

#[test]
fn ready_without_a_recorded_position_waits() {
    let mut state = after(&[Command::DirectFreeBlue], true);
    state.update_is_restart_completed(Point { x: i32::MAX, y: i32::MAX }, rules(0));
    assert_eq!(state.play_state(), PlayState::Ready);
    assert_eq!(state.restart_reason(), RestartReason::FreeKick);
}

#[test]
fn other_phases_ignore_the_ball() {
    for command in [Command::Halt, Command::Stop, Command::ForceStart] {
        let mut state = after(&[Command::PrepareKickoffBlue], true);
        state.update_is_restart_completed(Point { x: 0, y: 0 }, rules(10));
        state.update_command(command, true);
        let before = (row(&state), state.ball_position_at_restart());
        state.update_is_restart_completed(Point { x: 1_000_000, y: 0 }, rules(10));
        assert_eq!((row(&state), state.ball_position_at_restart()), before);
    }
}

#[test]
fn threshold_of_zero_completes_on_any_move() {
    let mut state = after(&[Command::PrepareKickoffYellow], false);
    state.update_is_restart_completed(Point { x: 0, y: 0 }, rules(0));
    state.update_command(Command::NormalStart, false);
    state.update_is_restart_completed(Point { x: 0, y: 0 }, rules(0));
    assert_eq!(state.play_state(), PlayState::Ready);
    state.update_is_restart_completed(Point { x: 0, y: 1 }, rules(0));
    assert_eq!(state.play_state(), PlayState::Playing);
}

#[test]
fn largest_threshold_is_never_exceeded_by_less() {
    let mut state = after(&[Command::PrepareKickoffYellow], false);
    state.update_is_restart_completed(Point { x: i32::MIN, y: 0 }, rules(u32::MAX));
    state.update_command(Command::NormalStart, false);
    state.update_is_restart_completed(Point { x: i32::MAX, y: 0 }, rules(u32::MAX));
    assert_eq!(state.play_state(), PlayState::Ready);
    state.update_is_restart_completed(Point { x: i32::MAX, y: 1 }, rules(u32::MAX));
    assert_eq!(state.play_state(), PlayState::Playing);
}

#[test]
fn derived_predicates() {
    let state = after(&[Command::PrepareKickoffYellow], true);
    assert!(state.kickoff());
    assert!(state.their_kickoff());
    assert!(state.stay_on_side());
    assert!(state.friendly_stay_away_from_ball());
    assert!(!state.can_manipulate_ball());
    assert!(!state.stay_behind_penalty_line());

    let state = after(&[Command::PrepareKickoffYellow, Command::NormalStart], true);
    assert!(state.stay_on_side());

    let state = after(&[Command::PrepareKickoffBlue, Command::NormalStart], true);
    assert!(!state.stay_on_side());
    assert!(state.can_manipulate_ball());
    assert!(!state.friendly_stay_away_from_ball());

    let state = after(&[Command::PreparePenaltyBlue], true);
    assert!(state.penalty());
    assert!(state.our_penalty());
    assert!(state.stay_behind_penalty_line());
    assert!(!state.can_manipulate_ball());

    let state = after(&[Command::IndirectFreeBlue], false);
    assert!(state.free_kick());
    assert!(state.their_free_kick());
    assert!(!state.our_free_kick());
    assert!(!state.can_manipulate_ball());

    let state = after(&[Command::BallPlacementBlue], true);
    assert!(state.ball_placement());
    assert!(state.our_ball_placement());
    assert!(!state.their_ball_placement());

    let state = after(&[Command::ForceStart], true);
    assert!(state.can_manipulate_ball());
    assert!(!state.friendly_stay_away_from_ball());
    assert!(!state.stay_on_side());
}

#[test]
fn our_restart_needs_a_pending_restart() {
    let state = after(&[Command::PrepareKickoffBlue, Command::ForceStart], true);
    assert!(!state.our_restart());
    assert!(!state.our_kickoff());
    let state = after(&[Command::PrepareKickoffBlue, Command::ForceStart, Command::PrepareKickoffBlue], true);
    assert!(state.our_restart());
}
