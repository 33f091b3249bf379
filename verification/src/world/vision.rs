//! What vision reports: the ball and the robots of each team.

use crate::geom::{Point, Rectangle, Vector};
use crate::motion::KinematicState;
use vstd::prelude::*;

verus! {

/// The largest length that a `Field` holds, in micrometres: a kilometre.
pub const MAX_FIELD_LENGTH: u64 = 1_000_000_000;

/// The dimensions of the field, in micrometres. The x axis runs from the
/// friendly goal to the enemy goal.
#[derive(Clone, Copy, Debug, PartialEq, Eq, Structural)]
pub struct Field {
    pub x_length: u64,
    pub y_length: u64,
    pub defense_x_length: u64,
    pub defense_y_length: u64,
    pub goal_x_length: u64,
    pub goal_y_length: u64,
    pub boundary_size: u64,
    pub center_circle_radius: u64,
}

impl Field {
    /// The lengths from which the rectangles of the field are made do not
    /// exceed `MAX_FIELD_LENGTH`.
    pub open spec fn is_measured(self) -> bool {
        &&& self.x_length <= MAX_FIELD_LENGTH
        &&& self.y_length <= MAX_FIELD_LENGTH
        &&& self.defense_x_length <= MAX_FIELD_LENGTH
        &&& self.defense_y_length <= MAX_FIELD_LENGTH
    }

    /// The field of division B.
    pub fn ssl_div_b() -> (field: Field)
        ensures
            field == (Field {
                x_length: 9_000_000,
                y_length: 6_000_000,
                defense_x_length: 1_000_000,
                defense_y_length: 2_000_000,
                goal_x_length: 180_000,
                goal_y_length: 1_000_000,
                boundary_size: 300_000,
                center_circle_radius: 500_000,
            }),
            field.is_measured(),
    {
        Field {
            x_length: 9_000_000,
            y_length: 6_000_000,
            defense_x_length: 1_000_000,
            defense_y_length: 2_000_000,
            goal_x_length: 180_000,
            goal_y_length: 1_000_000,
            boundary_size: 300_000,
            center_circle_radius: 500_000,
        }
    }

    /// The rectangle of the touch lines and goal lines, centred on the
    /// centre mark.
    pub fn touch_lines(&self) -> (lines: Rectangle)
        requires
            self.is_measured(),
        ensures
            lines@.bottom_left == (Point { x: (-(self.x_length / 2)) as i32, y: (-(self.y_length / 2)) as i32 }),
            lines@.top_right == (Point { x: (self.x_length / 2) as i32, y: (self.y_length / 2) as i32 }),
    {
        let half_x: i32 = (self.x_length / 2) as i32;
        let half_y: i32 = (self.y_length / 2) as i32;
        Rectangle::new(Point { x: -half_x, y: -half_y }, Point { x: half_x, y: half_y })
    }

    /// The defense area in front of the enemy goal.
    pub fn enemy_defense_area(&self) -> (area: Rectangle)
        requires
            self.is_measured(),
        ensures
            area@ == crate::geom::rectangle::RectangleView::spanning(
                Point {
                    x: (self.x_length / 2 - self.defense_x_length) as i32,
                    y: (-(self.defense_y_length / 2)) as i32,
                },
                Point { x: (self.x_length / 2) as i32, y: (self.defense_y_length / 2) as i32 },
            ),
    {
        let half_x: i32 = (self.x_length / 2) as i32;
        let half_y: i32 = (self.defense_y_length / 2) as i32;
        Rectangle::new(
            Point { x: half_x - self.defense_x_length as i32, y: -half_y },
            Point { x: half_x, y: half_y },
        )
    }

    /// The defense area in front of the friendly goal.
    pub fn friendly_defense_area(&self) -> (area: Rectangle)
        requires
            self.is_measured(),
        ensures
            area@ == crate::geom::rectangle::RectangleView::spanning(
                Point { x: (-(self.x_length / 2)) as i32, y: (-(self.defense_y_length / 2)) as i32 },
                Point {
                    x: (-(self.x_length / 2) + self.defense_x_length) as i32,
                    y: (self.defense_y_length / 2) as i32,
                },
            ),
    {
        let half_x: i32 = (self.x_length / 2) as i32;
        let half_y: i32 = (self.defense_y_length / 2) as i32;
        Rectangle::new(
            Point { x: -half_x, y: -half_y },
            Point { x: -half_x + self.defense_x_length as i32, y: half_y },
        )
    }
}

/// One robot of a team.
#[derive(Clone, Copy, Debug, PartialEq, Eq, Structural)]
pub struct Robot {
    pub id: usize,
    pub state: KinematicState,
}

/// The ball.
#[derive(Clone, Copy, Debug, PartialEq, Eq, Structural)]
pub struct Ball {
    pub position: Point,
    pub velocity: Vector,
}

/// The ids of `robots` increase strictly: no id occurs twice.
pub open spec fn ids_increase(robots: Seq<Robot>) -> bool {
    forall|i: int, j: int| 0 <= i < j < robots.len() ==> robots[i].id < robots[j].id
}

/// The number of robots at the head of `robots` whose id is below `id`.
pub open spec fn rank(robots: Seq<Robot>, id: usize) -> int
    decreases robots.len(),
{
    if robots.len() == 0 || robots[0].id >= id {
        0
    } else {
        1 + rank(robots.drop_first(), id)
    }
}

/// A roster in which `id` denotes `robot`: the robot takes the place of the
/// one that had its id, or enters the roster at its rank.
pub open spec fn enrolled(robots: Seq<Robot>, robot: Robot) -> Seq<Robot> {
    let at = rank(robots, robot.id);
    if at < robots.len() && robots[at].id == robot.id {
        robots.update(at, robot)
    } else {
        robots.insert(at, robot)
    }
}

/// A roster in which each of `recruits` has been enrolled in turn.
pub open spec fn enrolled_all(robots: Seq<Robot>, recruits: Seq<Robot>) -> Seq<Robot>
    decreases recruits.len(),
{
    if recruits.len() == 0 {
        robots
    } else {
        enrolled_all(enrolled(robots, recruits[0]), recruits.drop_first())
    }
}

/// The first robot of `robots` with the id `id`, if there is one.
pub open spec fn found(robots: Seq<Robot>, id: usize) -> Option<Robot> {
    let at = rank(robots, id);
    if at < robots.len() && robots[at].id == id {
        Some(robots[at])
    } else {
        None
    }
}

/// `robots` without the robot whose id is `goalie_id`, if one is given.
pub open spec fn field_players(robots: Seq<Robot>, goalie_id: Option<usize>) -> Seq<Robot> {
    robots.filter(|r: Robot| goalie_id != Some(r.id))
}

/// The rank of `id` in a roster is the index up to which every id is below
/// `id` and at which none is.
pub proof fn lemma_rank_is(robots: Seq<Robot>, id: usize, at: int)
    requires
        0 <= at <= robots.len(),
        forall|k: int| 0 <= k < at ==> robots[k].id < id,
        at < robots.len() ==> robots[at].id >= id,
    ensures
        rank(robots, id) == at,
    decreases at,
{
    if at > 0 {
        let rest = robots.drop_first();
        assert(robots[0].id < id);
        assert forall|k: int| 0 <= k < at - 1 implies rest[k].id < id by {
            assert(rest[k] == robots[k + 1]);
        }
        if at - 1 < rest.len() {
            assert(rest[at - 1] == robots[at]);
        }
        lemma_rank_is(rest, id, at - 1);
    }
}

/// The rank of an id lies within the roster, every robot before it has a
/// smaller id, and the robot at it, if any, has not.
pub proof fn lemma_rank_bounds(robots: Seq<Robot>, id: usize)
    ensures
        0 <= rank(robots, id) <= robots.len(),
        forall|k: int| 0 <= k < rank(robots, id) ==> robots[k].id < id,
        rank(robots, id) < robots.len() ==> robots[rank(robots, id)].id >= id,
    decreases robots.len(),
{
    if robots.len() != 0 && robots[0].id < id {
        let rest = robots.drop_first();
        lemma_rank_bounds(rest, id);
        assert forall|k: int| 0 <= k < rank(robots, id) implies robots[k].id < id by {
            if k > 0 {
                assert(rest[k - 1] == robots[k]);
            }
        }
        if rank(robots, id) < robots.len() {
            assert(rest[rank(rest, id)] == robots[rank(robots, id)]);
        }
    }
}

/// Enrolling a robot keeps the ids strictly increasing, and the roster then
/// holds the robot under its id.
pub proof fn lemma_enrolled_increases(robots: Seq<Robot>, robot: Robot)
    requires
        ids_increase(robots),
    ensures
        ids_increase(enrolled(robots, robot)),
        found(enrolled(robots, robot), robot.id) == Some(robot),
{
    lemma_rank_bounds(robots, robot.id);
    let at = rank(robots, robot.id);
    let after = enrolled(robots, robot);
    assert(after[at] == robot);
    assert forall|k: int| 0 <= k < at implies after[k].id < robot.id by {
        assert(after[k] == robots[k]);
    }
    lemma_rank_is(after, robot.id, at);
}

/// Enrolling any number of robots keeps the ids strictly increasing.
pub proof fn lemma_enrolled_all_increases(robots: Seq<Robot>, recruits: Seq<Robot>)
    requires
        ids_increase(robots),
    ensures
        ids_increase(enrolled_all(robots, recruits)),
    decreases recruits.len(),
{
    if recruits.len() > 0 {
        lemma_enrolled_increases(robots, recruits[0]);
        lemma_enrolled_all_increases(enrolled(robots, recruits[0]), recruits.drop_first());
    }
}

/// Enrols one robot in a roster, under its id.
fn enrol(roster: &mut Vec<Robot>, robot: Robot)
    requires
        ids_increase(old(roster)@),
    ensures
        final(roster)@ == enrolled(old(roster)@, robot),
        ids_increase(final(roster)@),
{
    proof {
        lemma_enrolled_increases(roster@, robot);
    }
    let mut at: usize = 0;
    while at < roster.len() && roster[at].id < robot.id
        invariant
            at <= roster.len(),
            forall|k: int| 0 <= k < at ==> roster@[k].id < robot.id,
        decreases roster.len() - at,
    {
        at += 1;
    }
    proof {
        lemma_rank_is(roster@, robot.id, at as int);
    }
    if at < roster.len() && roster[at].id == robot.id {
        roster.set(at, robot);
    } else {
        roster.insert(at, robot);
    }
}

/// The robots of one team, each under its id, and the id of the goalkeeper.
#[derive(Debug)]
pub struct Team {
    goalie_id: Option<usize>,
    robots: Vec<Robot>,
}

/// A team as a plain value: what `Team` stands for.
pub struct TeamView {
    /// The id of the goalkeeper, if one is named.
    pub goalie_id: Option<usize>,
    /// The robots, by increasing id.
    pub robots: Seq<Robot>,
}

impl View for Team {
    type V = TeamView;

    closed spec fn view(&self) -> TeamView {
        TeamView { goalie_id: self.goalie_id, robots: self.robots@ }
    }
}

impl Clone for Team {
    fn clone(&self) -> (copy: Team)
        ensures
            copy@ == self@,
    {
        proof {
            use_type_invariant(self);
        }
        let mut robots: Vec<Robot> = Vec::new();
        let mut i: usize = 0;
        while i < self.robots.len()
            invariant
                i <= self.robots.len(),
                robots@ == self.robots@.take(i as int),
            decreases self.robots.len() - i,
        {
            robots.push(self.robots[i]);
            assert(robots@ =~= self.robots@.take(i + 1));
            i += 1;
        }
        assert(robots@ =~= self.robots@);
        Team { goalie_id: self.goalie_id, robots }
    }
}

impl Team {
    #[verifier::type_invariant]
    spec fn well_formed(&self) -> bool {
        ids_increase(self.robots@)
    }

    /// A team without robots or goalkeeper.
    pub fn new() -> (team: Team)
        ensures
            team@ == (TeamView { goalie_id: None, robots: Seq::empty() }),
    {
        Team { goalie_id: None, robots: Vec::new() }
    }

    /// Enrols each of `robots` in turn. A robot takes the place of the one
    /// that had its id.
    pub fn with_robots(&mut self, robots: Vec<Robot>) -> (team: &mut Self)
        ensures
            team@.robots == enrolled_all(old(self)@.robots, robots@),
            team@.goalie_id == old(self)@.goalie_id,
            ids_increase(team@.robots),
            *final(self) == *final(team),
    {
        proof {
            use_type_invariant(&*self);
            lemma_enrolled_all_increases(self.robots@, robots@);
        }
        let mut roster: Vec<Robot> = Vec::new();
        std::mem::swap(&mut self.robots, &mut roster);
        assert(robots@.skip(0) =~= robots@);
        let mut i: usize = 0;
        while i < robots.len()
            invariant
                i <= robots.len(),
                ids_increase(roster@),
                enrolled_all(roster@, robots@.skip(i as int)) == enrolled_all(old(self)@.robots, robots@),
            decreases robots.len() - i,
        {
            let ghost rest = robots@.skip(i as int);
            assert(rest[0] == robots@[i as int]);
            assert(rest.drop_first() =~= robots@.skip(i + 1));
            enrol(&mut roster, robots[i]);
            i += 1;
        }
        assert(robots@.skip(i as int).len() == 0);
        self.robots = roster;
        self
    }

    /// Names the goalkeeper.
    pub fn with_goalie(&mut self, goalie_id: usize) -> (team: &mut Self)
        ensures
            team@.robots == old(self)@.robots,
            team@.goalie_id == Some(goalie_id),
            *final(self) == *final(team),
    {
        proof {
            use_type_invariant(&*self);
        }
        self.goalie_id = Some(goalie_id);
        self
    }

    /// A copy of the team.
    pub fn build(&self) -> (team: Team)
        ensures
            team@ == self@,
    {
        self.clone()
    }

    /// The id of the goalkeeper, if one is named.
    pub fn goalie_id(&self) -> (id: Option<usize>)
        ensures
            id == self@.goalie_id,
    {
        self.goalie_id
    }

    /// Names the goalkeeper, or nobody.
    pub fn set_goalie(&mut self, id: Option<usize>)
        ensures
            final(self)@.robots == old(self)@.robots,
            final(self)@.goalie_id == id,
    {
        proof {
            use_type_invariant(&*self);
        }
        self.goalie_id = id;
    }

    /// The robot with the id `id`, if the team has one.
    pub fn robot(&self, id: &usize) -> (robot: Option<&Robot>)
        ensures
            match robot {
                Some(r) => found(self@.robots, *id) == Some(*r),
                None => found(self@.robots, *id) is None,
            },
            robot is Some <==> exists|k: int| 0 <= k < self@.robots.len() && self@.robots[k].id == *id,
    {
        proof {
            use_type_invariant(self);
        }
        let mut at: usize = 0;
        while at < self.robots.len() && self.robots[at].id < *id
            invariant
                at <= self.robots.len(),
                forall|k: int| 0 <= k < at ==> self.robots@[k].id < *id,
            decreases self.robots.len() - at,
        {
            at += 1;
        }
        proof {
            lemma_rank_is(self.robots@, *id, at as int);
        }
        if at < self.robots.len() && self.robots[at].id == *id {
            Some(&self.robots[at])
        } else {
            None
        }
    }

    /// Every robot of the team, by increasing id.
    pub fn all_robots(&self) -> (all: Vec<&Robot>)
        ensures
            all@.len() == self@.robots.len(),
            forall|k: int| 0 <= k < all@.len() ==> *all@[k] == self@.robots[k],
            ids_increase(self@.robots),
    {
        proof {
            use_type_invariant(self);
        }
        let mut result: Vec<&Robot> = Vec::new();
        let mut i: usize = 0;
        while i < self.robots.len()
            invariant
                i <= self.robots.len(),
                result@.len() == i,
                forall|k: int| 0 <= k < i ==> *result@[k] == self.robots@[k],
            decreases self.robots.len() - i,
        {
            result.push(&self.robots[i]);
            i += 1;
        }
        result
    }

    /// Every robot of the team but the goalkeeper, by increasing id.
    pub fn players(&self) -> (players: Vec<&Robot>)
        ensures
            players@.len() == field_players(self@.robots, self@.goalie_id).len(),
            forall|k: int|
                0 <= k < players@.len() ==> *players@[k] == field_players(self@.robots, self@.goalie_id)[k],
    {
        let mut result: Vec<&Robot> = Vec::new();
        let mut i: usize = 0;
        let ghost keep = |r: Robot| self@.goalie_id != Some(r.id);
        proof {
            reveal(Seq::filter);
            assert(self.robots@.take(0).filter(keep).len() == 0);
        }
        while i < self.robots.len()
            invariant
                i <= self.robots.len(),
                keep == |r: Robot| self@.goalie_id != Some(r.id),
                result@.len() == self.robots@.take(i as int).filter(keep).len(),
                forall|k: int|
                    0 <= k < result@.len() ==> *result@[k] == self.robots@.take(i as int).filter(keep)[k],
            decreases self.robots.len() - i,
        {
            let ghost before = self.robots@.take(i as int);
            let ghost after = self.robots@.take(i + 1);
            proof {
                assert(after =~= before.push(self.robots@[i as int]));
                lemma_filter_push(before, self.robots@[i as int], keep);
            }
            if self.goalie_id.is_some() && self.goalie_id.unwrap() == self.robots[i].id {
            } else {
                result.push(&self.robots[i]);
            }
            i += 1;
        }
        assert(self.robots@.take(i as int) =~= self.robots@);
        result
    }

    /// The goalkeeper, if one is named and the team has a robot of that id.
    pub fn goalie(&self) -> (goalie: Option<&Robot>)
        ensures
            match (self@.goalie_id, goalie) {
                (Some(id), Some(r)) => found(self@.robots, id) == Some(*r),
                (Some(id), None) => found(self@.robots, id) is None,
                (None, g) => g is None,
            },
    {
        match self.goalie_id {
            Some(id) => self.robot(&id),
            None => None,
        }
    }
}

/// Filtering a sequence with one more element filters the sequence and then
/// keeps or drops that element.
pub proof fn lemma_filter_push<A>(s: Seq<A>, last: A, keep: spec_fn(A) -> bool)
    ensures
        s.push(last).filter(keep) == if keep(last) {
            s.filter(keep).push(last)
        } else {
            s.filter(keep)
        },
{
    reveal(Seq::filter);
    assert(s.push(last).drop_last() =~= s);
}

} // verus!
