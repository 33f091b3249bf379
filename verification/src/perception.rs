//! What the team knows of the match: the referee's state machine, the
//! resolution of the team's colour and side, and the filters that turn
//! detections into robots and a ball.

pub mod ball_filter;
pub mod game_state;
pub mod geometry;
pub mod robot_filter;

pub use self::game_state::{GameState, TeamInfo};
use self::ball_filter::{ball_from, in_order, with_detection, BallDetection, BallFilter};
use self::game_state::{Command, PerceptionConfig, Referee, Rules};
use self::geometry::{field_from_geometry, field_from_proto, FieldGeometry};
use self::robot_filter::{team_from, team_with_detection, RobotDetection, TeamFilter, TeamFilterView};
use crate::geom::{Angle, Point};
use crate::world::vision::{enrolled_all, Team, TeamView};
use crate::world::{World, WorldView};
use vstd::prelude::*;

verus! {

/// What the logic reads of one robot in one frame of vision.
#[derive(Clone, Copy, Debug, PartialEq, Eq, Structural)]
pub struct RobotObservation {
    pub robot_id: Option<u32>,
    pub position: Point,
    pub orientation: Option<Angle>,
}

/// What the logic reads of one frame of vision.
#[derive(Clone, Debug)]
pub struct DetectionFrame {
    /// When the frame was captured, in microseconds.
    pub t_capture: u64,
    pub balls: Vec<Point>,
    pub robots_yellow: Vec<RobotObservation>,
    pub robots_blue: Vec<RobotObservation>,
}

/// What the logic reads of one packet of vision.
#[derive(Clone, Debug)]
pub struct VisionPacket {
    pub detection: Option<DetectionFrame>,
    pub geometry: Option<FieldGeometry>,
}

/// Why the packets of one tick cannot be taken in.
#[derive(Clone, Copy, Debug, PartialEq, Eq, Structural)]
pub enum PerceptionError {
    /// The referee sent a command that the protocol does not know.
    UnknownCommand,
    /// Vision reported a robot without an id.
    MissingRobotId,
    /// Vision reported a robot without an orientation.
    MissingRobotOrientation,
}

/// The detection that an observation captured at `t_capture` amounts to,
/// or what it lacks.
pub open spec fn detection_of(observation: RobotObservation, t_capture: u64) -> Result<
    RobotDetection,
    PerceptionError,
> {
    match observation.robot_id {
        None => Err(PerceptionError::MissingRobotId),
        Some(id) => match observation.orientation {
            None => Err(PerceptionError::MissingRobotOrientation),
            Some(orientation) => Ok(
                RobotDetection {
                    id: id as usize,
                    position: observation.position,
                    orientation,
                    timestamp: t_capture,
                },
            ),
        },
    }
}

/// What the first of `observations` that lacks something lacks.
pub open spec fn first_robot_error(observations: Seq<RobotObservation>) -> Option<PerceptionError>
    decreases observations.len(),
{
    if observations.len() == 0 {
        None
    } else {
        match detection_of(observations[0], 0) {
            Err(e) => Some(e),
            Ok(_) => first_robot_error(observations.drop_first()),
        }
    }
}

/// Why a packet of the referee cannot be taken in: the team is known and
/// the command is not.
pub open spec fn referee_error(packet: &Referee, config: &PerceptionConfig) -> Option<PerceptionError> {
    if TeamInfo::from_referee_spec(Some(packet), config, true) is Some && Command::from_i32_spec(
        packet.command,
    ) is None {
        Some(PerceptionError::UnknownCommand)
    } else {
        None
    }
}

/// Why the first of `packets` that cannot be taken in cannot.
pub open spec fn first_referee_error(packets: Seq<Referee>, config: &PerceptionConfig) -> Option<
    PerceptionError,
>
    decreases packets.len(),
{
    if packets.len() == 0 {
        None
    } else {
        match referee_error(&packets[0], config) {
            Some(e) => Some(e),
            None => first_referee_error(packets.drop_first(), config),
        }
    }
}

/// Why a frame cannot be taken in by a team whose colour is `friendly_blue`:
/// one of its robots lacks something, the friendly ones looked at first.
/// Robots are not looked at while the team's colour is unknown.
pub open spec fn frame_error(frame: &DetectionFrame, friendly_blue: Option<bool>) -> Option<PerceptionError> {
    match friendly_blue {
        None => None,
        Some(blue) => {
            let friendly = if blue {
                frame.robots_blue@
            } else {
                frame.robots_yellow@
            };
            let enemy = if blue {
                frame.robots_yellow@
            } else {
                frame.robots_blue@
            };
            match first_robot_error(friendly) {
                Some(e) => Some(e),
                None => first_robot_error(enemy),
            }
        },
    }
}

/// Why the first of `packets` that cannot be taken in cannot.
pub open spec fn first_vision_error(packets: Seq<VisionPacket>, friendly_blue: Option<bool>) -> Option<
    PerceptionError,
>
    decreases packets.len(),
{
    if packets.len() == 0 {
        None
    } else {
        let here = match packets[0].detection {
            Some(frame) => frame_error(&frame, friendly_blue),
            None => None,
        };
        match here {
            Some(e) => Some(e),
            None => first_vision_error(packets.drop_first(), friendly_blue),
        }
    }
}

/// The colour of the team after the packets of the referee of one tick:
/// what the last packet tells, and unknown without a packet.
pub open spec fn colour_after(packets: Seq<Referee>, config: &PerceptionConfig) -> Option<bool> {
    if packets.len() == 0 {
        None
    } else {
        match TeamInfo::from_referee_spec(Some(&packets.last()), config, true) {
            Some(info) => Some(info.is_blue),
            None => None,
        }
    }
}

/// Why the packets of one tick cannot be taken in: the referee's are
/// looked at first.
pub open spec fn first_error(
    referee_packets: Seq<Referee>,
    vision_packets: Seq<VisionPacket>,
    config: &PerceptionConfig,
) -> Option<PerceptionError> {
    match first_referee_error(referee_packets, config) {
        Some(e) => Some(e),
        None => first_vision_error(vision_packets, colour_after(referee_packets, config)),
    }
}

/// The world after one packet of the referee: both teams are resolved
/// anew, and the command is taken in if the friendly team is known.
pub open spec fn after_referee(world: WorldView, packet: &Referee, config: &PerceptionConfig) -> WorldView {
    let friendly = TeamInfo::from_referee_spec(Some(packet), config, true);
    WorldView {
        friendly_team_info: friendly,
        enemy_team_info: TeamInfo::from_referee_spec(Some(packet), config, false),
        game_state: match (friendly, Command::from_i32_spec(packet.command)) {
            (Some(info), Some(command)) => world.game_state.after_command(command, info.is_blue),
            _ => world.game_state,
        },
        ..world
    }
}

/// The world after the packets of the referee, in their order.
pub open spec fn after_referees(world: WorldView, packets: Seq<Referee>, config: &PerceptionConfig) -> WorldView
    decreases packets.len(),
{
    if packets.len() == 0 {
        world
    } else {
        after_referees(after_referee(world, &packets[0], config), packets.drop_first(), config)
    }
}

/// The ball filter after the balls of one frame.
pub open spec fn balls_taken_in(filter: Seq<BallDetection>, balls: Seq<Point>, t_capture: u64) -> Seq<
    BallDetection,
>
    decreases balls.len(),
{
    if balls.len() == 0 {
        filter
    } else {
        balls_taken_in(
            with_detection(filter, BallDetection { position: balls[0], timestamp: t_capture }),
            balls.drop_first(),
            t_capture,
        )
    }
}

/// The filters of one team after the robots of that team in one frame.
pub open spec fn robots_taken_in(
    filters: TeamFilterView,
    observations: Seq<RobotObservation>,
    t_capture: u64,
) -> TeamFilterView
    decreases observations.len(),
{
    if observations.len() == 0 {
        filters
    } else {
        robots_taken_in(
            match detection_of(observations[0], t_capture) {
                Ok(detection) => team_with_detection(filters, detection),
                Err(_) => filters,
            },
            observations.drop_first(),
            t_capture,
        )
    }
}

/// Perception as a plain value: what `Perception` stands for.
pub struct PerceptionView {
    pub ball_filter: Seq<BallDetection>,
    pub friendly_team_filter: TeamFilterView,
    pub enemy_team_filter: TeamFilterView,
    pub world: WorldView,
}

impl PerceptionView {
    /// Perception after one frame: the balls go to the ball filter, and
    /// while the team's colour is known the robots go to the filters of
    /// their team.
    pub open spec fn after_frame(self, frame: &DetectionFrame) -> PerceptionView {
        let ball_filter = balls_taken_in(self.ball_filter, frame.balls@, frame.t_capture);
        match self.world.friendly_team_info {
            None => PerceptionView { ball_filter, ..self },
            Some(info) => PerceptionView {
                ball_filter,
                friendly_team_filter: robots_taken_in(
                    self.friendly_team_filter,
                    if info.is_blue {
                        frame.robots_blue@
                    } else {
                        frame.robots_yellow@
                    },
                    frame.t_capture,
                ),
                enemy_team_filter: robots_taken_in(
                    self.enemy_team_filter,
                    if info.is_blue {
                        frame.robots_yellow@
                    } else {
                        frame.robots_blue@
                    },
                    frame.t_capture,
                ),
                ..self
            },
        }
    }

    /// Perception after one packet of vision: its frame first, then its
    /// geometry.
    pub open spec fn after_packet(self, packet: &VisionPacket) -> PerceptionView {
        let seen = match packet.detection {
            Some(frame) => self.after_frame(&frame),
            None => self,
        };
        match packet.geometry {
            Some(geometry) => PerceptionView {
                world: WorldView { field: Some(field_from_geometry(geometry)), ..seen.world },
                ..seen
            },
            None => seen,
        }
    }

    /// Perception after the packets of vision, in their order.
    pub open spec fn after_packets(self, packets: Seq<VisionPacket>) -> PerceptionView
        decreases packets.len(),
    {
        if packets.len() == 0 {
            self
        } else {
            self.after_packet(&packets[0]).after_packets(packets.drop_first())
        }
    }

    /// Perception once the filters have been read into the world: the ball
    /// and both teams are what the filters show, each team's goalkeeper is
    /// the one that the referee names, if the team is known, and the match
    /// state has taken in the ball's position, if there is a ball.
    pub open spec fn read_out(self, rules: Rules) -> PerceptionView {
        PerceptionView {
            ball_filter: in_order(self.ball_filter),
            world: WorldView {
                ball: ball_from(self.ball_filter),
                game_state: match ball_from(self.ball_filter) {
                    Some(ball) => self.world.game_state.after_ball(
                        ball.position,
                        rules.ball_in_play_after_restart_move_dist,
                    ),
                    None => self.world.game_state,
                },
                friendly_team: TeamView {
                    goalie_id: match self.world.friendly_team_info {
                        Some(info) => Some(info.goalie_id),
                        None => None,
                    },
                    robots: enrolled_all(
                        Seq::empty(),
                        team_from(self.friendly_team_filter, self.friendly_team_filter.len() as int),
                    ),
                },
                enemy_team: TeamView {
                    goalie_id: match self.world.enemy_team_info {
                        Some(info) => Some(info.goalie_id),
                        None => None,
                    },
                    robots: enrolled_all(
                        Seq::empty(),
                        team_from(self.enemy_team_filter, self.enemy_team_filter.len() as int),
                    ),
                },
                ..self.world
            },
            ..self
        }
    }

    /// Perception after one tick. Both teams are unknown until a packet of
    /// the referee resolves them. The packets of the referee are taken in
    /// first, then those of vision; if vision sent any, the filters are
    /// read into the world and the match state looks at the ball.
    pub open spec fn ticked(
        self,
        referee_packets: Seq<Referee>,
        vision_packets: Seq<VisionPacket>,
        config: &PerceptionConfig,
        rules: Rules,
    ) -> PerceptionView {
        let forgotten = PerceptionView {
            world: WorldView { friendly_team_info: None, enemy_team_info: None, ..self.world },
            ..self
        };
        let refereed = PerceptionView {
            world: after_referees(forgotten.world, referee_packets, config),
            ..forgotten
        };
        if vision_packets.len() == 0 {
            refereed
        } else {
            refereed.after_packets(vision_packets).read_out(rules)
        }
    }
}

/// The colour of the team after the packets of the referee is the one
/// that the world then holds.
pub proof fn lemma_colour_after(world: WorldView, packets: Seq<Referee>, config: &PerceptionConfig)
    requires
        packets.len() > 0 || world.friendly_team_info is None,
    ensures
        colour_after(packets, config) == match after_referees(world, packets, config).friendly_team_info {
            Some(info) => Some(info.is_blue),
            None => None,
        },
    decreases packets.len(),
{
    if packets.len() > 1 {
        let rest = packets.drop_first();
        assert(rest.last() == packets.last());
        lemma_colour_after(after_referee(world, &packets[0], config), rest, config);
    } else if packets.len() == 1 {
        let seen = after_referee(world, &packets[0], config);
        assert(packets.drop_first().len() == 0);
        assert(after_referees(seen, packets.drop_first(), config) == seen);
        assert(packets.last() == packets[0]);
    }
}

/// Reads one observation of a robot.
pub fn create_robot_detection(ssl_robot: &RobotObservation, t_capture: u64) -> (detection: Result<
    RobotDetection,
    PerceptionError,
>)
    ensures
        detection == detection_of(*ssl_robot, t_capture),
{
    match ssl_robot.robot_id {
        None => Err(PerceptionError::MissingRobotId),
        Some(id) => match ssl_robot.orientation {
            None => Err(PerceptionError::MissingRobotOrientation),
            Some(orientation) => Ok(
                RobotDetection { id: id as usize, position: ssl_robot.position, orientation, timestamp: t_capture },
            ),
        },
    }
}

/// Finds what the first observation that lacks something lacks.
fn check_robots(observations: &Vec<RobotObservation>) -> (error: Option<PerceptionError>)
    ensures
        error == first_robot_error(observations@),
{
    let mut i: usize = 0;
    assert(observations@.skip(0) =~= observations@);
    while i < observations.len()
        invariant
            i <= observations@.len(),
            first_robot_error(observations@.skip(i as int)) == first_robot_error(observations@),
        decreases observations@.len() - i,
    {
        let ghost rest = observations@.skip(i as int);
        assert(rest[0] == observations@[i as int]);
        assert(rest.drop_first() =~= observations@.skip(i + 1));
        if let Err(e) = create_robot_detection(&observations[i], 0) {
            return Some(e);
        }
        i += 1;
    }
    None
}

/// Finds why the first packet of the referee that cannot be taken in
/// cannot.
fn check_referee(packets: &Vec<Referee>, config: &PerceptionConfig) -> (error: Option<PerceptionError>)
    ensures
        error == first_referee_error(packets@, config),
{
    let mut i: usize = 0;
    assert(packets@.skip(0) =~= packets@);
    while i < packets.len()
        invariant
            i <= packets@.len(),
            first_referee_error(packets@.skip(i as int), config) == first_referee_error(packets@, config),
        decreases packets@.len() - i,
    {
        let ghost rest = packets@.skip(i as int);
        assert(rest[0] == packets@[i as int]);
        assert(rest.drop_first() =~= packets@.skip(i + 1));
        if TeamInfo::from_referee(Some(&packets[i]), config, true).is_some() && Command::from_i32(
            packets[i].command,
        ).is_none() {
            return Some(PerceptionError::UnknownCommand);
        }
        i += 1;
    }
    None
}

/// Finds why the first packet of vision that cannot be taken in cannot.
fn check_vision(packets: &Vec<VisionPacket>, friendly_blue: Option<bool>) -> (error: Option<PerceptionError>)
    ensures
        error == first_vision_error(packets@, friendly_blue),
{
    let mut i: usize = 0;
    assert(packets@.skip(0) =~= packets@);
    while i < packets.len()
        invariant
            i <= packets@.len(),
            first_vision_error(packets@.skip(i as int), friendly_blue) == first_vision_error(
                packets@,
                friendly_blue,
            ),
        decreases packets@.len() - i,
    {
        let ghost rest = packets@.skip(i as int);
        assert(rest[0] == packets@[i as int]);
        assert(rest.drop_first() =~= packets@.skip(i + 1));
        if let Some(frame) = &packets[i].detection {
            if let Some(blue) = friendly_blue {
                let friendly = if blue {
                    &frame.robots_blue
                } else {
                    &frame.robots_yellow
                };
                let enemy = if blue {
                    &frame.robots_yellow
                } else {
                    &frame.robots_blue
                };
                if let Some(e) = check_robots(friendly) {
                    return Some(e);
                }
                if let Some(e) = check_robots(enemy) {
                    return Some(e);
                }
            }
        }
        i += 1;
    }
    None
}

/// Hands the robots of one team in one frame to the team's filters. A
/// robot that lacks something is passed over.
fn take_in_robots(filter: &mut TeamFilter, observations: &Vec<RobotObservation>, t_capture: u64)
    ensures
        final(filter)@ == robots_taken_in(old(filter)@, observations@, t_capture),
{
    let mut i: usize = 0;
    assert(observations@.skip(0) =~= observations@);
    while i < observations.len()
        invariant
            i <= observations@.len(),
            robots_taken_in(filter@, observations@.skip(i as int), t_capture) == robots_taken_in(
                old(filter)@,
                observations@,
                t_capture,
            ),
        decreases observations@.len() - i,
    {
        let ghost rest = observations@.skip(i as int);
        assert(rest[0] == observations@[i as int]);
        assert(rest.drop_first() =~= observations@.skip(i + 1));
        if let Ok(detection) = create_robot_detection(&observations[i], t_capture) {
            filter.add_detection(detection);
        }
        i += 1;
    }
}

/// The team that the robots `robots` make up, with the goalkeeper that
/// `info` names.
fn team_of(robots: Vec<crate::world::Robot>, info: &Option<TeamInfo>) -> (team: Team)
    ensures
        team@ == (TeamView {
            goalie_id: match *info {
                Some(i) => Some(i.goalie_id),
                None => None,
            },
            robots: enrolled_all(Seq::empty(), robots@),
        }),
{
    let mut team = Team::new();
    team.with_robots(robots);
    if let Some(i) = info {
        team.set_goalie(Some(i.goalie_id));
    }
    team
}

/// Turns what the referee and vision send into snapshots of the world.
pub struct Perception {
    ball_filter: BallFilter,
    friendly_team_filter: TeamFilter,
    enemy_team_filter: TeamFilter,
    world: World,
}

impl View for Perception {
    type V = PerceptionView;

    closed spec fn view(&self) -> PerceptionView {
        PerceptionView {
            ball_filter: self.ball_filter@,
            friendly_team_filter: self.friendly_team_filter@,
            enemy_team_filter: self.enemy_team_filter@,
            world: self.world@,
        }
    }
}

impl Perception {
    /// Perception that has seen nothing.
    pub fn new() -> (perception: Perception)
        ensures
            perception@ == (PerceptionView {
                ball_filter: Seq::empty(),
                friendly_team_filter: Seq::empty(),
                enemy_team_filter: Seq::empty(),
                world: WorldView::unseen(),
            }),
    {
        let perception = Perception {
            ball_filter: BallFilter::new(),
            friendly_team_filter: TeamFilter::new(),
            enemy_team_filter: TeamFilter::new(),
            world: World::new(),
        };
        assert(perception.ball_filter@ =~= Seq::empty());
        assert(perception.friendly_team_filter@ =~= Seq::empty());
        assert(perception.enemy_team_filter@ =~= Seq::empty());
        perception
    }

    /// The latest snapshot of the world.
    pub fn world(&self) -> (world: &World)
        ensures
            world@ == self@.world,
    {
        &self.world
    }

    /// Takes in the packets of the referee, in their order.
    fn take_in_referees(&mut self, packets: &Vec<Referee>, config: &PerceptionConfig)
        requires
            first_referee_error(packets@, config) is None,
        ensures
            final(self)@ == (PerceptionView {
                world: after_referees(old(self)@.world, packets@, config),
                ..old(self)@
            }),
    {
        let mut i: usize = 0;
        assert(packets@.skip(0) =~= packets@);
        while i < packets.len()
            invariant
                i <= packets@.len(),
                first_referee_error(packets@.skip(i as int), config) is None,
                self@.ball_filter == old(self)@.ball_filter,
                self@.friendly_team_filter == old(self)@.friendly_team_filter,
                self@.enemy_team_filter == old(self)@.enemy_team_filter,
                after_referees(self@.world, packets@.skip(i as int), config) == after_referees(
                    old(self)@.world,
                    packets@,
                    config,
                ),
            decreases packets@.len() - i,
        {
            let ghost rest = packets@.skip(i as int);
            assert(rest[0] == packets@[i as int]);
            assert(rest.drop_first() =~= packets@.skip(i + 1));
            let packet = &packets[i];
            self.world.friendly_team_info = TeamInfo::from_referee(Some(packet), config, true);
            self.world.enemy_team_info = TeamInfo::from_referee(Some(packet), config, false);
            if let Some(info) = &self.world.friendly_team_info {
                if let Some(command) = Command::from_i32(packet.command) {
                    self.world.game_state.update_command(command, info.is_blue);
                }
            }
            i += 1;
        }
    }

    /// Takes in one frame of vision.
    fn take_in_frame(&mut self, frame: &DetectionFrame)
        ensures
            final(self)@ == old(self)@.after_frame(frame),
    {
        let mut b: usize = 0;
        assert(frame.balls@.skip(0) =~= frame.balls@);
        while b < frame.balls.len()
            invariant
                b <= frame.balls@.len(),
                self@.friendly_team_filter == old(self)@.friendly_team_filter,
                self@.enemy_team_filter == old(self)@.enemy_team_filter,
                self@.world == old(self)@.world,
                balls_taken_in(self@.ball_filter, frame.balls@.skip(b as int), frame.t_capture)
                    == balls_taken_in(old(self)@.ball_filter, frame.balls@, frame.t_capture),
            decreases frame.balls@.len() - b,
        {
            let ghost rest = frame.balls@.skip(b as int);
            assert(rest[0] == frame.balls@[b as int]);
            assert(rest.drop_first() =~= frame.balls@.skip(b + 1));
            self.ball_filter.add_detection(
                BallDetection { position: frame.balls[b], timestamp: frame.t_capture },
            );
            b += 1;
        }
        if let Some(info) = &self.world.friendly_team_info {
            let friendly_robots = if info.is_blue {
                &frame.robots_blue
            } else {
                &frame.robots_yellow
            };
            let enemy_robots = if info.is_blue {
                &frame.robots_yellow
            } else {
                &frame.robots_blue
            };
            take_in_robots(&mut self.friendly_team_filter, friendly_robots, frame.t_capture);
            take_in_robots(&mut self.enemy_team_filter, enemy_robots, frame.t_capture);
        }
    }

    /// Takes in the packets of vision, in their order.
    fn take_in_packets(&mut self, packets: &Vec<VisionPacket>)
        ensures
            final(self)@ == old(self)@.after_packets(packets@),
    {
        let mut i: usize = 0;
        assert(packets@.skip(0) =~= packets@);
        while i < packets.len()
            invariant
                i <= packets@.len(),
                self@.after_packets(packets@.skip(i as int)) == old(self)@.after_packets(packets@),
            decreases packets@.len() - i,
        {
            let ghost rest = packets@.skip(i as int);
            assert(rest[0] == packets@[i as int]);
            assert(rest.drop_first() =~= packets@.skip(i + 1));
            if let Some(frame) = &packets[i].detection {
                self.take_in_frame(frame);
            }
            if let Some(geometry) = &packets[i].geometry {
                self.world.field = Some(field_from_proto(geometry));
            }
            i += 1;
        }
    }

    /// Reads the filters into the world.
    fn read_out(&mut self, rules: Rules)
        ensures
            final(self)@ == old(self)@.read_out(rules),
    {
        self.world.ball = self.ball_filter.get_ball();
        if let Some(ball) = &self.world.ball {
            self.world.game_state.update_is_restart_completed(ball.position, rules);
        }
        self.world.friendly_team = team_of(
            self.friendly_team_filter.get_team(),
            &self.world.friendly_team_info,
        );
        self.world.enemy_team = team_of(self.enemy_team_filter.get_team(), &self.world.enemy_team_info);
    }

    /// One tick of perception: takes in what the referee and vision have
    /// sent since the last tick, and gives the snapshot to publish if
    /// vision sent anything. Packets that cannot be taken in are refused
    /// together: nothing changes then.
    pub fn run_once(
        &mut self,
        config: &PerceptionConfig,
        rules: Rules,
        ssl_referee_packets: &Vec<Referee>,
        ssl_wrapper_packets: &Vec<VisionPacket>,
    ) -> (published: Result<Option<World>, PerceptionError>)
        ensures
            match published {
                Err(e) => first_error(ssl_referee_packets@, ssl_wrapper_packets@, config) == Some(e)
                    && final(self)@ == old(self)@,
                Ok(world) => {
                    &&& first_error(ssl_referee_packets@, ssl_wrapper_packets@, config) is None
                    &&& final(self)@ == old(self)@.ticked(
                        ssl_referee_packets@,
                        ssl_wrapper_packets@,
                        config,
                        rules,
                    )
                    &&& match world {
                        Some(w) => ssl_wrapper_packets@.len() > 0 && w@ == final(self)@.world,
                        None => ssl_wrapper_packets@.len() == 0,
                    }
                },
            },
    {
        if let Some(e) = check_referee(ssl_referee_packets, config) {
            return Err(e);
        }
        let friendly_blue = if ssl_referee_packets.len() == 0 {
            None
        } else {
            match TeamInfo::from_referee(
                Some(&ssl_referee_packets[ssl_referee_packets.len() - 1]),
                config,
                true,
            ) {
                Some(info) => Some(info.is_blue),
                None => None,
            }
        };
        if let Some(e) = check_vision(ssl_wrapper_packets, friendly_blue) {
            return Err(e);
        }
        self.world.friendly_team_info = TeamInfo::from_referee(None, config, true);
        self.world.enemy_team_info = TeamInfo::from_referee(None, config, false);
        self.take_in_referees(ssl_referee_packets, config);
        if ssl_wrapper_packets.len() > 0 {
            self.take_in_packets(ssl_wrapper_packets);
            self.read_out(rules);
            return Ok(Some(self.world.clone()));
        }
        Ok(None)
    }
}

} // verus!
