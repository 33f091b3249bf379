//! The match phase, driven by the referee's commands and by the ball.

use crate::geom::Point;
use vstd::prelude::*;

verus! {

/// A command of the referee.
#[derive(Clone, Copy, Debug, PartialEq, Eq, Structural)]
pub enum Command {
    Halt,
    Stop,
    NormalStart,
    ForceStart,
    PrepareKickoffYellow,
    PrepareKickoffBlue,
    PreparePenaltyYellow,
    PreparePenaltyBlue,
    DirectFreeYellow,
    DirectFreeBlue,
    IndirectFreeYellow,
    IndirectFreeBlue,
    TimeoutYellow,
    TimeoutBlue,
    GoalYellow,
    GoalBlue,
    BallPlacementYellow,
    BallPlacementBlue,
}

/// One of the two teams, by the colour of its markers.
#[derive(Clone, Copy, Debug, PartialEq, Eq, Structural)]
pub enum TeamColor {
    Yellow,
    Blue,
}

/// The phase of the match.
#[derive(Clone, Copy, Debug, PartialEq, Eq, Structural)]
pub enum PlayState {
    Halt,
    Stop,
    Setup,
    Ready,
    Playing,
}

/// Why play is being restarted.
#[derive(Clone, Copy, Debug, PartialEq, Eq, Structural)]
pub enum RestartReason {
    NoRestart,
    Kickoff,
    FreeKick,
    Penalty,
    BallPlacement,
}

impl Command {
    /// The command that the referee's protocol numbers `value`.
    pub open spec fn from_i32_spec(value: i32) -> Option<Command> {
        if value == 0 {
            Some(Command::Halt)
        } else if value == 1 {
            Some(Command::Stop)
        } else if value == 2 {
            Some(Command::NormalStart)
        } else if value == 3 {
            Some(Command::ForceStart)
        } else if value == 4 {
            Some(Command::PrepareKickoffYellow)
        } else if value == 5 {
            Some(Command::PrepareKickoffBlue)
        } else if value == 6 {
            Some(Command::PreparePenaltyYellow)
        } else if value == 7 {
            Some(Command::PreparePenaltyBlue)
        } else if value == 8 {
            Some(Command::DirectFreeYellow)
        } else if value == 9 {
            Some(Command::DirectFreeBlue)
        } else if value == 10 {
            Some(Command::IndirectFreeYellow)
        } else if value == 11 {
            Some(Command::IndirectFreeBlue)
        } else if value == 12 {
            Some(Command::TimeoutYellow)
        } else if value == 13 {
            Some(Command::TimeoutBlue)
        } else if value == 14 {
            Some(Command::GoalYellow)
        } else if value == 15 {
            Some(Command::GoalBlue)
        } else if value == 16 {
            Some(Command::BallPlacementYellow)
        } else if value == 17 {
            Some(Command::BallPlacementBlue)
        } else {
            None
        }
    }

    /// The team that a command names, if it names one.
    pub open spec fn team(self) -> Option<TeamColor> {
        match self {
            Command::PrepareKickoffYellow
            | Command::PreparePenaltyYellow
            | Command::DirectFreeYellow
            | Command::IndirectFreeYellow
            | Command::TimeoutYellow
            | Command::GoalYellow
            | Command::BallPlacementYellow => Some(TeamColor::Yellow),
            Command::PrepareKickoffBlue
            | Command::PreparePenaltyBlue
            | Command::DirectFreeBlue
            | Command::IndirectFreeBlue
            | Command::TimeoutBlue
            | Command::GoalBlue
            | Command::BallPlacementBlue => Some(TeamColor::Blue),
            _ => None,
        }
    }

    /// The restart that a command announces, if it announces one.
    pub open spec fn restart(self) -> Option<RestartReason> {
        match self {
            Command::PrepareKickoffYellow | Command::PrepareKickoffBlue => Some(
                RestartReason::Kickoff,
            ),
            Command::PreparePenaltyYellow | Command::PreparePenaltyBlue => Some(
                RestartReason::Penalty,
            ),
            Command::DirectFreeYellow
            | Command::DirectFreeBlue
            | Command::IndirectFreeYellow
            | Command::IndirectFreeBlue => Some(RestartReason::FreeKick),
            Command::BallPlacementYellow | Command::BallPlacementBlue => Some(
                RestartReason::BallPlacement,
            ),
            _ => None,
        }
    }

    /// The phase that a command puts the match in.
    pub open spec fn phase(self) -> PlayState {
        match self {
            Command::Halt | Command::TimeoutYellow | Command::TimeoutBlue => PlayState::Halt,
            Command::Stop | Command::GoalYellow | Command::GoalBlue => PlayState::Stop,
            Command::ForceStart => PlayState::Playing,
            Command::NormalStart => PlayState::Ready,
            _ => match self.restart() {
                Some(RestartReason::FreeKick) => PlayState::Ready,
                _ => PlayState::Setup,
            },
        }
    }

    /// Decodes the number that the referee's protocol gives a command.
    pub fn from_i32(value: i32) -> (command: Option<Command>)
        ensures
            command == Command::from_i32_spec(value),
            command is Some <==> 0 <= value <= 17,
    {
        match value {
            0 => Some(Command::Halt),
            1 => Some(Command::Stop),
            2 => Some(Command::NormalStart),
            3 => Some(Command::ForceStart),
            4 => Some(Command::PrepareKickoffYellow),
            5 => Some(Command::PrepareKickoffBlue),
            6 => Some(Command::PreparePenaltyYellow),
            7 => Some(Command::PreparePenaltyBlue),
            8 => Some(Command::DirectFreeYellow),
            9 => Some(Command::DirectFreeBlue),
            10 => Some(Command::IndirectFreeYellow),
            11 => Some(Command::IndirectFreeBlue),
            12 => Some(Command::TimeoutYellow),
            13 => Some(Command::TimeoutBlue),
            14 => Some(Command::GoalYellow),
            15 => Some(Command::GoalBlue),
            16 => Some(Command::BallPlacementYellow),
            17 => Some(Command::BallPlacementBlue),
            _ => None,
        }
    }
}

/// What the logic reads of the rules of the game.
#[derive(Clone, Copy, Debug, PartialEq, Eq, Structural)]
pub struct Rules {
    /// How far the ball must move from where a restart placed it to be in
    /// play, in micrometres.
    pub ball_in_play_after_restart_move_dist: u32,
}

/// The state of the match as a plain value: what `GameState` stands for.
pub struct GameStateView {
    pub play_state: PlayState,
    pub restart_reason: RestartReason,
    pub our_restart: bool,
    pub ball_position_at_restart: Option<Point>,
}

impl GameStateView {
    /// The state before the referee has said anything.
    pub open spec fn initial() -> GameStateView {
        GameStateView {
            play_state: PlayState::Halt,
            restart_reason: RestartReason::NoRestart,
            our_restart: false,
            ball_position_at_restart: None,
        }
    }

    /// The state after the referee's `command`, for a team that plays in
    /// blue or not. The phase is the command's; the reason is that of the
    /// restart it announces, is kept on a normal start and cleared
    /// otherwise; the restart is ours if the command names our colour, is
    /// nobody's after a stop, and keeps its owner otherwise.
    pub open spec fn after_command(self, command: Command, is_friendly_team_blue: bool) -> GameStateView {
        GameStateView {
            play_state: command.phase(),
            restart_reason: match command.restart() {
                Some(reason) => reason,
                None => if command == Command::NormalStart {
                    self.restart_reason
                } else {
                    RestartReason::NoRestart
                },
            },
            our_restart: match command.restart() {
                Some(_) => (command.team() == Some(TeamColor::Blue)) == is_friendly_team_blue,
                None => if command == Command::Stop {
                    false
                } else {
                    self.our_restart
                },
            },
            ball_position_at_restart: self.ball_position_at_restart,
        }
    }

    /// Whether a ball seen at `ball_position` has left the place of the
    /// restart by more than `move_dist`.
    pub open spec fn ball_has_moved(self, ball_position: Point, move_dist: u32) -> bool {
        match self.ball_position_at_restart {
            Some(at_restart) => at_restart.distance_squared(ball_position) > move_dist * move_dist,
            None => false,
        }
    }

    /// The state once the restart is over and the ball is in play.
    pub open spec fn restart_completed(self) -> GameStateView {
        GameStateView {
            play_state: PlayState::Playing,
            restart_reason: RestartReason::NoRestart,
            our_restart: self.our_restart,
            ball_position_at_restart: None,
        }
    }

    /// The state after the ball has been seen at `ball_position`. During
    /// setup the position is recorded. Once ready, a ball farther than
    /// `move_dist` from the recorded position completes the restart. No
    /// other phase looks at the ball.
    pub open spec fn after_ball(self, ball_position: Point, move_dist: u32) -> GameStateView {
        match self.play_state {
            PlayState::Setup => GameStateView { ball_position_at_restart: Some(ball_position), ..self },
            PlayState::Ready => if self.ball_has_moved(ball_position, move_dist) {
                self.restart_completed()
            } else {
                self
            },
            _ => self,
        }
    }

    /// The state after the ball has been seen at each of `positions` in turn.
    pub open spec fn after_balls(self, positions: Seq<Point>, move_dist: u32) -> GameStateView
        decreases positions.len(),
    {
        if positions.len() == 0 {
            self
        } else {
            self.after_ball(positions[0], move_dist).after_balls(positions.drop_first(), move_dist)
        }
    }

    /// A restart is pending and is ours.
    pub open spec fn is_our_restart(self) -> bool {
        self.our_restart && self.restart_reason != RestartReason::NoRestart
    }
}

/// The match phase with its restart bookkeeping. Only the referee's
/// commands and the ball's position change it.
#[derive(Clone, Copy, Debug)]
pub struct GameState {
    play_state: PlayState,
    restart_reason: RestartReason,
    our_restart: bool,
    ball_position_at_restart: Option<Point>,
}

impl View for GameState {
    type V = GameStateView;

    closed spec fn view(&self) -> GameStateView {
        GameStateView {
            play_state: self.play_state,
            restart_reason: self.restart_reason,
            our_restart: self.our_restart,
            ball_position_at_restart: self.ball_position_at_restart,
        }
    }
}

impl GameState {
    /// The state before the referee has said anything: halted.
    pub fn new() -> (state: GameState)
        ensures
            state@ == GameStateView::initial(),
    {
        GameState {
            play_state: PlayState::Halt,
            restart_reason: RestartReason::NoRestart,
            our_restart: false,
            ball_position_at_restart: None,
        }
    }

    /// Takes in a command of the referee.
    pub fn update_command(&mut self, command: Command, is_friendly_team_blue: bool)
        ensures
            final(self)@ == old(self)@.after_command(command, is_friendly_team_blue),
    {
        match command {
            Command::Halt => {
                self.play_state = PlayState::Halt;
                self.restart_reason = RestartReason::NoRestart;
            },
            Command::Stop => {
                self.play_state = PlayState::Stop;
                self.restart_reason = RestartReason::NoRestart;
                self.our_restart = false;
            },
            Command::NormalStart => {
                self.play_state = PlayState::Ready;
            },
            Command::ForceStart => {
                self.play_state = PlayState::Playing;
                self.restart_reason = RestartReason::NoRestart;
            },
            Command::PrepareKickoffYellow => {
                self.play_state = PlayState::Setup;
                self.restart_reason = RestartReason::Kickoff;
                self.our_restart = !is_friendly_team_blue;
            },
            Command::PrepareKickoffBlue => {
                self.play_state = PlayState::Setup;
                self.restart_reason = RestartReason::Kickoff;
                self.our_restart = is_friendly_team_blue;
            },
            Command::PreparePenaltyYellow => {
                self.play_state = PlayState::Setup;
                self.restart_reason = RestartReason::Penalty;
                self.our_restart = !is_friendly_team_blue;
            },
            Command::PreparePenaltyBlue => {
                self.play_state = PlayState::Setup;
                self.restart_reason = RestartReason::Penalty;
                self.our_restart = is_friendly_team_blue;
            },
            Command::DirectFreeYellow | Command::IndirectFreeYellow => {
                self.play_state = PlayState::Ready;
                self.restart_reason = RestartReason::FreeKick;
                self.our_restart = !is_friendly_team_blue;
            },
            Command::DirectFreeBlue | Command::IndirectFreeBlue => {
                self.play_state = PlayState::Ready;
                self.restart_reason = RestartReason::FreeKick;
                self.our_restart = is_friendly_team_blue;
            },
            Command::TimeoutYellow | Command::TimeoutBlue => {
                self.play_state = PlayState::Halt;
                self.restart_reason = RestartReason::NoRestart;
            },
            Command::GoalBlue | Command::GoalYellow => {
                self.play_state = PlayState::Stop;
                self.restart_reason = RestartReason::NoRestart;
            },
            Command::BallPlacementBlue => {
                self.play_state = PlayState::Setup;
                self.restart_reason = RestartReason::BallPlacement;
                self.our_restart = is_friendly_team_blue;
            },
            Command::BallPlacementYellow => {
                self.play_state = PlayState::Setup;
                self.restart_reason = RestartReason::BallPlacement;
                self.our_restart = !is_friendly_team_blue;
            },
        }
    }

    /// Takes in the ball's position: records it during setup, and once
    /// ready puts the ball in play when it has moved farther from the
    /// recorded position than the rules ask.
    pub fn update_is_restart_completed(&mut self, ball_position: Point, config: Rules)
        ensures
            final(self)@ == old(self)@.after_ball(ball_position, config.ball_in_play_after_restart_move_dist),
    {
        let move_dist = config.ball_in_play_after_restart_move_dist;
        match self.play_state {
            PlayState::Setup => {
                self.ball_position_at_restart = Some(ball_position);
            },
            PlayState::Ready => {
                if let Some(pos_at_restart) = self.ball_position_at_restart {
                    if pos_at_restart.is_farther_than(&ball_position, move_dist) {
                        self.set_restart_completed()
                    }
                }
            },
            _ => (),
        }
    }

    fn set_restart_completed(&mut self)
        ensures
            final(self)@ == old(self)@.restart_completed(),
    {
        self.play_state = PlayState::Playing;
        self.restart_reason = RestartReason::NoRestart;
        self.ball_position_at_restart = None;
    }

    /// The phase of the match.
    pub fn play_state(&self) -> (phase: PlayState)
        ensures
            phase == self@.play_state,
    {
        self.play_state
    }

    /// Why play is being restarted.
    pub fn restart_reason(&self) -> (reason: RestartReason)
        ensures
            reason == self@.restart_reason,
    {
        self.restart_reason
    }

    /// Where the ball lay when the restart was set up.
    pub fn ball_position_at_restart(&self) -> (position: Option<Point>)
        ensures
            position == self@.ball_position_at_restart,
    {
        self.ball_position_at_restart
    }

    /// The match is halted.
    pub fn halted(&self) -> (b: bool)
        ensures
            b == (self@.play_state == PlayState::Halt),
    {
        self.play_state == PlayState::Halt
    }

    /// The match is stopped.
    pub fn stopped(&self) -> (b: bool)
        ensures
            b == (self@.play_state == PlayState::Stop),
    {
        self.play_state == PlayState::Stop
    }

    /// The ball is in play.
    pub fn playing(&self) -> (b: bool)
        ensures
            b == (self@.play_state == PlayState::Playing),
    {
        self.play_state == PlayState::Playing
    }

    /// A kickoff is pending.
    pub fn kickoff(&self) -> (b: bool)
        ensures
            b == (self@.restart_reason == RestartReason::Kickoff),
    {
        self.restart_reason == RestartReason::Kickoff
    }

    /// A penalty is pending.
    pub fn penalty(&self) -> (b: bool)
        ensures
            b == (self@.restart_reason == RestartReason::Penalty),
    {
        self.restart_reason == RestartReason::Penalty
    }

    /// A ball placement is pending.
    pub fn ball_placement(&self) -> (b: bool)
        ensures
            b == (self@.restart_reason == RestartReason::BallPlacement),
    {
        self.restart_reason == RestartReason::BallPlacement
    }

    /// A free kick is pending.
    pub fn free_kick(&self) -> (b: bool)
        ensures
            b == (self@.restart_reason == RestartReason::FreeKick),
    {
        self.restart_reason == RestartReason::FreeKick
    }

    /// A restart is pending and is ours.
    pub fn our_restart(&self) -> (b: bool)
        ensures
            b == self@.is_our_restart(),
    {
        self.our_restart && self.restart_reason != RestartReason::NoRestart
    }

    /// A kickoff is pending and the team takes it.
    pub fn our_kickoff(&self) -> (b: bool)
        ensures
            b == (self@.restart_reason == RestartReason::Kickoff && self@.our_restart),
    {
        self.kickoff() && self.our_restart
    }

    /// A kickoff is pending and the team does not take it.
    pub fn their_kickoff(&self) -> (b: bool)
        ensures
            b == (self@.restart_reason == RestartReason::Kickoff && !self@.our_restart),
    {
        self.kickoff() && !self.our_restart
    }

    /// A penalty is pending and the team takes it.
    pub fn our_penalty(&self) -> (b: bool)
        ensures
            b == (self@.restart_reason == RestartReason::Penalty && self@.our_restart),
    {
        self.penalty() && self.our_restart
    }

    /// A penalty is pending and the team does not take it.
    pub fn their_penalty(&self) -> (b: bool)
        ensures
            b == (self@.restart_reason == RestartReason::Penalty && !self@.our_restart),
    {
        self.penalty() && !self.our_restart
    }

    /// A free kick is pending and the team takes it.
    pub fn our_free_kick(&self) -> (b: bool)
        ensures
            b == (self@.restart_reason == RestartReason::FreeKick && self@.our_restart),
    {
        self.free_kick() && self.our_restart
    }

    /// A free kick is pending and the team does not take it.
    pub fn their_free_kick(&self) -> (b: bool)
        ensures
            b == (self@.restart_reason == RestartReason::FreeKick && !self@.our_restart),
    {
        self.free_kick() && !self.our_restart
    }

    /// A ball placement is pending and the team does it.
    pub fn our_ball_placement(&self) -> (b: bool)
        ensures
            b == (self@.restart_reason == RestartReason::BallPlacement && self@.our_restart),
    {
        self.ball_placement() && self.our_restart
    }

    /// A ball placement is pending and the team does not do it.
    pub fn their_ball_placement(&self) -> (b: bool)
        ensures
            b == (self@.restart_reason == RestartReason::BallPlacement && !self@.our_restart),
    {
        self.ball_placement() && !self.our_restart
    }

    /// The team may touch the ball: play is on, or the team is about to
    /// restart it.
    pub fn can_manipulate_ball(&self) -> (b: bool)
        ensures
            b == (self@.play_state == PlayState::Playing || (self@.our_restart && self@.play_state
                == PlayState::Ready)),
    {
        (self.play_state == PlayState::Playing) || (self.our_restart && self.play_state
            == PlayState::Ready)
    }

    /// The team must keep its distance from the ball.
    pub fn friendly_stay_away_from_ball(&self) -> (b: bool)
        ensures
            b == (self@.play_state != PlayState::Playing && !self@.our_restart),
    {
        (self.play_state != PlayState::Playing) && !self.our_restart
    }

    /// The team must stay in its own half: the other team kicks off.
    pub fn stay_on_side(&self) -> (b: bool)
        ensures
            b == ((self@.play_state == PlayState::Setup || self@.play_state == PlayState::Ready)
                && self@.restart_reason == RestartReason::Kickoff && !self@.our_restart),
    {
        let ps = match self.play_state {
            PlayState::Setup | PlayState::Ready => true,
            _ => false,
        };
        ps && (self.restart_reason == RestartReason::Kickoff) && !self.our_restart
    }

    /// The team must stay behind the penalty line: a penalty is pending.
    pub fn stay_behind_penalty_line(&self) -> (b: bool)
        ensures
            b == (self@.restart_reason == RestartReason::Penalty),
    {
        self.restart_reason == RestartReason::Penalty
    }
}

/// How the team's colour is decided.
#[derive(Clone, Copy, Debug, PartialEq, Eq, Structural)]
pub enum FriendlyColor {
    /// The team is the one that the referee reports under the team's name.
    AutorefColor,
    Blue,
    Yellow,
}

/// How the half that the team defends is decided.
#[derive(Clone, Copy, Debug, PartialEq, Eq, Structural)]
pub enum DefendingSide {
    /// The team defends the half that the referee reports for its colour.
    AutorefSide,
    Negative,
    Positive,
}

/// The settings that resolve the team's colour and side.
#[derive(Clone, Debug)]
pub struct PerceptionConfig {
    pub friendly_color: FriendlyColor,
    pub defending_side: DefendingSide,
    pub team_name: String,
}

/// What the referee reports of one team.
#[derive(Clone, Debug)]
pub struct RefereeTeam {
    pub name: String,
    pub score: u32,
    pub goalkeeper: u32,
}

/// What the logic reads of one message of the referee.
#[derive(Clone, Debug)]
pub struct Referee {
    pub command: i32,
    pub blue: RefereeTeam,
    pub yellow: RefereeTeam,
    pub blue_team_on_positive_half: Option<bool>,
}

/// The lower-case form of `text`, as `str::to_lowercase` of the standard
/// library gives it.
pub uninterp spec fn lowercase(text: Seq<char>) -> Seq<char>;

/// `str::to_lowercase` of the standard library: the result is the
/// lower-case form of the argument, a function of the argument alone.
/// Nothing else is claimed of it.
#[verifier::external_body]
fn to_lowercase(text: &str) -> (lower: String)
    ensures
        lower@ == lowercase(text@),
{
    text.to_lowercase()
}

/// The colour of the team named `team`, given the names that the referee
/// reports for blue and for yellow: blue if blue's name is the team's,
/// else yellow if yellow's is, else unknown.
pub open spec fn color_by_name_spec(team: Seq<char>, blue: Seq<char>, yellow: Seq<char>) -> Option<
    bool,
> {
    if blue == team {
        Some(true)
    } else if yellow == team {
        Some(false)
    } else {
        None
    }
}

/// Whether the team plays in blue, if that can be told.
pub open spec fn is_friendly_team_blue_spec(referee: Option<&Referee>, config: &PerceptionConfig) -> Option<
    bool,
> {
    match config.friendly_color {
        FriendlyColor::AutorefColor => match referee {
            Some(msg) => color_by_name_spec(
                lowercase(config.team_name@),
                lowercase(msg.blue.name@),
                lowercase(msg.yellow.name@),
            ),
            None => None,
        },
        FriendlyColor::Blue => Some(true),
        FriendlyColor::Yellow => Some(false),
    }
}

/// Whether the team defends the positive half, if that can be told.
pub open spec fn is_friendly_team_defending_positive_side_spec(
    referee: Option<&Referee>,
    config: &PerceptionConfig,
    is_friendly_team_blue: bool,
) -> Option<bool> {
    match config.defending_side {
        DefendingSide::AutorefSide => match referee {
            Some(msg) => match msg.blue_team_on_positive_half {
                Some(blue_on_positive) => Some(blue_on_positive == is_friendly_team_blue),
                None => None,
            },
            None => None,
        },
        DefendingSide::Negative => Some(false),
        DefendingSide::Positive => Some(true),
    }
}

/// Picks the team's colour by its name among the two names that the
/// referee reports. The three names are compared as they are given.
pub fn color_by_name(team: &String, blue: &String, yellow: &String) -> (is_blue: Option<bool>)
    ensures
        is_blue == color_by_name_spec(team@, blue@, yellow@),
{
    if *blue == *team {
        Some(true)
    } else if *yellow == *team {
        Some(false)
    } else {
        None
    }
}

/// Whether the team plays in blue. Under the referee's colours the
/// answer is found by the team's name, letter case set aside, and is
/// unknown without a message or when neither name is the team's.
pub fn is_friendly_team_blue(referee: Option<&Referee>, config: &PerceptionConfig) -> (is_blue: Option<
    bool,
>)
    ensures
        is_blue == is_friendly_team_blue_spec(referee, config),
{
    match config.friendly_color {
        FriendlyColor::AutorefColor => {
            if let Some(msg) = referee {
                let team = to_lowercase(config.team_name.as_str());
                let blue = to_lowercase(msg.blue.name.as_str());
                let yellow = to_lowercase(msg.yellow.name.as_str());
                color_by_name(&team, &blue, &yellow)
            } else {
                None
            }
        },
        FriendlyColor::Blue => Some(true),
        FriendlyColor::Yellow => Some(false),
    }
}

/// Whether the team defends the positive half. Under the referee's sides
/// the answer is unknown without a message or when the message names no
/// side.
pub fn is_friendly_team_defending_positive_side(
    referee: Option<&Referee>,
    config: &PerceptionConfig,
    is_friendly_team_blue: bool,
) -> (positive: Option<bool>)
    ensures
        positive == is_friendly_team_defending_positive_side_spec(referee, config, is_friendly_team_blue),
{
    match config.defending_side {
        DefendingSide::AutorefSide => {
            if let Some(msg) = referee {
                if let Some(msg_blue_team_on_positive_half) = msg.blue_team_on_positive_half {
                    Some(msg_blue_team_on_positive_half == is_friendly_team_blue)
                } else {
                    None
                }
            } else {
                None
            }
        },
        DefendingSide::Negative => Some(false),
        DefendingSide::Positive => Some(true),
    }
}

/// What is known of one team for the length of one tick.
#[derive(Clone, Copy, Debug, PartialEq, Eq, Structural)]
pub struct TeamInfo {
    pub is_blue: bool,
    pub score: usize,
    pub goalie_id: usize,
    pub defending_positive_side: bool,
}

impl TeamInfo {
    /// The team's or the opponent's colour, side, score and goalkeeper:
    /// known when the colour and the side can be told and a message of the
    /// referee is at hand.
    pub open spec fn from_referee_spec(
        referee: Option<&Referee>,
        config: &PerceptionConfig,
        is_friendly_team: bool,
    ) -> Option<TeamInfo> {
        match is_friendly_team_blue_spec(referee, config) {
            Some(friendly_blue) => match is_friendly_team_defending_positive_side_spec(
                referee,
                config,
                friendly_blue,
            ) {
                Some(friendly_positive) => match referee {
                    Some(msg) => {
                        let is_blue = friendly_blue == is_friendly_team;
                        let info = if is_blue {
                            msg.blue
                        } else {
                            msg.yellow
                        };
                        Some(
                            TeamInfo {
                                is_blue,
                                defending_positive_side: friendly_positive == is_friendly_team,
                                score: info.score as usize,
                                goalie_id: info.goalkeeper as usize,
                            },
                        )
                    },
                    None => None,
                },
                None => None,
            },
            None => None,
        }
    }

    /// Resolves one team from a message of the referee: the friendly team
    /// if `is_friendly_team`, the opponent if not.
    pub fn from_referee(referee: Option<&Referee>, config: &PerceptionConfig, is_friendly_team: bool) -> (info:
        Option<TeamInfo>)
        ensures
            info == TeamInfo::from_referee_spec(referee, config, is_friendly_team),
    {
        let is_friendly_team_blue = is_friendly_team_blue(referee, config)?;
        let is_friendly_team_defending_positive_side = is_friendly_team_defending_positive_side(
            referee,
            config,
            is_friendly_team_blue,
        )?;
        let is_blue = is_friendly_team_blue == is_friendly_team;
        let defending_positive_side = is_friendly_team_defending_positive_side == is_friendly_team;
        if let Some(msg) = referee {
            let info = if is_blue {
                &msg.blue
            } else {
                &msg.yellow
            };
            Some(
                TeamInfo {
                    is_blue,
                    defending_positive_side,
                    score: info.score as usize,
                    goalie_id: info.goalkeeper as usize,
                },
            )
        } else {
            None
        }
    }
}

/// The referee's side of the world: the match state and both teams.
#[derive(Clone, Copy, Debug)]
pub struct Gamecontroller {
    pub game_state: GameState,
    pub friendly_team_info: TeamInfo,
    pub enemy_team_info: TeamInfo,
}

/// Every command, for a team of either colour, leaves the phase, the
/// reason and the owner of the restart that the referee's table gives.
pub proof fn lemma_referee_table(before: GameStateView, command: Command, is_friendly_team_blue: bool)
    ensures
        ({
            let after = before.after_command(command, is_friendly_team_blue);
            let blue = is_friendly_team_blue;
            let row = (after.play_state, after.restart_reason, after.our_restart);
            match command {
                Command::Halt => row == (PlayState::Halt, RestartReason::NoRestart, before.our_restart),
                Command::Stop => row == (PlayState::Stop, RestartReason::NoRestart, false),
                Command::NormalStart => row == (
                    PlayState::Ready,
                    before.restart_reason,
                    before.our_restart,
                ),
                Command::ForceStart => row == (
                    PlayState::Playing,
                    RestartReason::NoRestart,
                    before.our_restart,
                ),
                Command::PrepareKickoffYellow => row == (PlayState::Setup, RestartReason::Kickoff, !blue),
                Command::PrepareKickoffBlue => row == (PlayState::Setup, RestartReason::Kickoff, blue),
                Command::PreparePenaltyYellow => row == (PlayState::Setup, RestartReason::Penalty, !blue),
                Command::PreparePenaltyBlue => row == (PlayState::Setup, RestartReason::Penalty, blue),
                Command::DirectFreeYellow | Command::IndirectFreeYellow => row == (
                    PlayState::Ready,
                    RestartReason::FreeKick,
                    !blue,
                ),
                Command::DirectFreeBlue | Command::IndirectFreeBlue => row == (
                    PlayState::Ready,
                    RestartReason::FreeKick,
                    blue,
                ),
                Command::TimeoutYellow | Command::TimeoutBlue => row == (
                    PlayState::Halt,
                    RestartReason::NoRestart,
                    before.our_restart,
                ),
                Command::GoalYellow | Command::GoalBlue => row == (
                    PlayState::Stop,
                    RestartReason::NoRestart,
                    before.our_restart,
                ),
                Command::BallPlacementYellow => row == (
                    PlayState::Setup,
                    RestartReason::BallPlacement,
                    !blue,
                ),
                Command::BallPlacementBlue => row == (
                    PlayState::Setup,
                    RestartReason::BallPlacement,
                    blue,
                ),
            }
        }),
        before.after_command(command, is_friendly_team_blue).ball_position_at_restart
            == before.ball_position_at_restart,
{
}

/// A restart set up with the ball at `placed` and then released is
/// completed by the first ball seen farther than `move_dist` from `placed`:
/// the phase becomes playing and the reason is cleared. Until then the
/// state does not change, however many balls are seen within `move_dist`.
pub proof fn lemma_restart_completion(
    setup: GameStateView,
    placed: Point,
    is_friendly_team_blue: bool,
    near: Seq<Point>,
    far: Point,
    move_dist: u32,
)
    requires
        setup.play_state == PlayState::Setup,
        forall|i: int| 0 <= i < near.len() ==> placed.distance_squared(#[trigger] near[i]) <= move_dist
            * move_dist,
        placed.distance_squared(far) > move_dist * move_dist,
    ensures
        ({
            let ready = setup.after_ball(placed, move_dist).after_command(
                Command::NormalStart,
                is_friendly_team_blue,
            );
            let waiting = ready.after_balls(near, move_dist);
            let done = waiting.after_ball(far, move_dist);
            &&& ready.play_state == PlayState::Ready
            &&& ready.ball_position_at_restart == Some(placed)
            &&& waiting == ready
            &&& done.play_state == PlayState::Playing
            &&& done.restart_reason == RestartReason::NoRestart
            &&& done.ball_position_at_restart is None
        }),
{
    let ready = setup.after_ball(placed, move_dist).after_command(
        Command::NormalStart,
        is_friendly_team_blue,
    );
    lemma_waiting_keeps_ready(ready, placed, near, move_dist);
}

/// While every ball seen stays within `move_dist` of the recorded position,
/// a ready state does not change.
proof fn lemma_waiting_keeps_ready(ready: GameStateView, placed: Point, near: Seq<Point>, move_dist: u32)
    requires
        ready.play_state == PlayState::Ready,
        ready.ball_position_at_restart == Some(placed),
        forall|i: int| 0 <= i < near.len() ==> placed.distance_squared(#[trigger] near[i]) <= move_dist
            * move_dist,
    ensures
        ready.after_balls(near, move_dist) == ready,
    decreases near.len(),
{
    if near.len() > 0 {
        assert(placed.distance_squared(near[0]) <= move_dist * move_dist);
        assert(ready.after_ball(near[0], move_dist) == ready);
        let rest = near.drop_first();
        assert forall|i: int| 0 <= i < rest.len() implies placed.distance_squared(#[trigger] rest[i])
            <= move_dist * move_dist by {
            assert(rest[i] == near[i + 1]);
        }
        lemma_waiting_keeps_ready(ready, placed, rest, move_dist);
    }
}

} // verus!
