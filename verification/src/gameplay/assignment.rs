//! Which robot takes which tactic.
//!
//! The greedy tactics are served first, in their order, each by the
//! cheapest robot that is still free; of two robots at the same cost the one
//! with the smaller id serves. The optimized tactics are then matched with
//! the robots that are left, at the least total cost.

use super::matching::{
    columns_of, is_matching, lemma_matching_columns, munkres_solution, solve, solved_columns, MAX_SIDE,
    MAX_WEIGHT,
};
use super::play::RequestedTactics;
use super::tactic::Tactic;
use crate::world::vision::{ids_increase, Robot};
use vstd::arithmetic::div_mod::{lemma_fundamental_div_mod_converse_div, lemma_fundamental_div_mod_converse_mod};
use vstd::prelude::*;

verus! {

/// One robot's tactic.
#[derive(Clone, Copy, Debug, PartialEq, Eq)]
pub struct Assignment {
    pub robot_id: usize,
    pub tactic: Tactic,
}

/// What went short while tactics were assigned. None of it is an error:
/// the assignment stands as far as it goes.
#[derive(Clone, Copy, Debug, PartialEq, Eq, Structural)]
pub struct Warnings {
    /// There were more greedy tactics than robots: the last of them went
    /// unserved.
    pub greedy_exhausted: bool,
    /// There were more optimized tactics than robots left: the last of them
    /// were dropped.
    pub optimized_truncated: bool,
    /// The solver gave no matching: no optimized tactic was assigned.
    pub solver_failed: bool,
}

/// The assignment of one tick, with what went short.
#[derive(Debug)]
pub struct TacticAssignment {
    pub assignments: Vec<Assignment>,
    pub warnings: Warnings,
}

/// The index of the robot that serves `tactic` at the least cost: among
/// several at that cost, the first.
pub open spec fn cheapest(tactic: Tactic, robots: Seq<Robot>) -> int
    decreases robots.len(),
{
    if robots.len() <= 1 {
        0
    } else {
        let before = cheapest(tactic, robots.drop_last());
        if tactic.cost_spec(robots.last()) < tactic.cost_spec(robots[before]) {
            robots.len() - 1
        } else {
            before
        }
    }
}

/// What the greedy phase assigns: each tactic in turn goes to the cheapest
/// robot left, until the tactics or the robots run out.
pub open spec fn greedy_assigned(tactics: Seq<Tactic>, robots: Seq<Robot>) -> Seq<Assignment>
    decreases tactics.len(),
{
    if tactics.len() == 0 || robots.len() == 0 {
        Seq::empty()
    } else {
        let k = cheapest(tactics[0], robots);
        seq![Assignment { robot_id: robots[k].id, tactic: tactics[0] }] + greedy_assigned(
            tactics.drop_first(),
            robots.remove(k),
        )
    }
}

/// The robots that the greedy phase leaves free.
pub open spec fn greedy_remaining(tactics: Seq<Tactic>, robots: Seq<Robot>) -> Seq<Robot>
    decreases tactics.len(),
{
    if tactics.len() == 0 || robots.len() == 0 {
        robots
    } else {
        greedy_remaining(tactics.drop_first(), robots.remove(cheapest(tactics[0], robots)))
    }
}

/// The optimized tactics that can be served by `robots`: the first of them,
/// as many as there are robots.
pub open spec fn truncated(tactics: Seq<Tactic>, robots: Seq<Robot>) -> Seq<Tactic> {
    if tactics.len() > robots.len() {
        tactics.take(robots.len() as int)
    } else {
        tactics
    }
}

/// The cell of the cost matrix in the row `row` and the column `column`:
/// what the row's tactic costs the column's robot. The rows past the last
/// tactic cost nothing: they make the matrix square.
pub open spec fn cost_cell(tactics: Seq<Tactic>, robots: Seq<Robot>, row: int, column: int) -> i64 {
    if row < tactics.len() {
        tactics[row].cost_spec(robots[column]) as i64
    } else {
        0
    }
}

/// The square cost matrix of `tactics` and `robots`, row after row: one row
/// for each tactic, filled up to one row for each robot, and one column for
/// each robot.
pub open spec fn cost_matrix(tactics: Seq<Tactic>, robots: Seq<Robot>) -> Seq<i64> {
    let n = robots.len() as int;
    Seq::new((n * n) as nat, |k: int| cost_cell(tactics, robots, k / n, k % n))
}

/// The assignment that gives each tactic the robot in its row's column.
pub open spec fn matched(tactics: Seq<Tactic>, robots: Seq<Robot>, columns: Seq<usize>) -> Seq<Assignment> {
    Seq::new(
        tactics.len(),
        |row: int| Assignment { robot_id: robots[columns[row] as int].id, tactic: tactics[row] },
    )
}

/// What the optimized phase assigns, given what the solver answered for the
/// cost matrix: nothing if there is no tactic or no robot, or if the solver
/// gave no matching; else each tactic that the robots can serve goes to the
/// robot that the matching gives it.
pub open spec fn optimized_assigned_with(
    tactics: Seq<Tactic>,
    robots: Seq<Robot>,
    solution: Option<Seq<(usize, usize)>>,
) -> Seq<Assignment> {
    let served = truncated(tactics, robots);
    if served.len() == 0 {
        Seq::empty()
    } else {
        match solved_columns(robots.len() as int, solution) {
            Some(columns) => matched(served, robots, columns),
            None => Seq::empty(),
        }
    }
}

/// What the solver answers for the cost matrix of the tactics that
/// `robots` can serve.
pub open spec fn solution_for(tactics: Seq<Tactic>, robots: Seq<Robot>) -> Option<Seq<(usize, usize)>> {
    munkres_solution(robots.len() as usize, cost_matrix(truncated(tactics, robots), robots))
}

/// What the optimized phase assigns.
pub open spec fn optimized_assigned(tactics: Seq<Tactic>, robots: Seq<Robot>) -> Seq<Assignment> {
    optimized_assigned_with(tactics, robots, solution_for(tactics, robots))
}

/// Whether the solver fails the optimized phase: there is something to
/// match and the solver gives no matching.
pub open spec fn solver_fails(tactics: Seq<Tactic>, robots: Seq<Robot>) -> bool {
    truncated(tactics, robots).len() > 0 && solved_columns(
        robots.len() as int,
        solution_for(tactics, robots),
    ) is None
}

/// The assignment of one tick: the greedy phase on all the robots, then
/// the optimized phase on the robots that it leaves free.
pub open spec fn assigned(greedy: Seq<Tactic>, optimized: Seq<Tactic>, robots: Seq<Robot>) -> Seq<Assignment> {
    greedy_assigned(greedy, robots) + optimized_assigned(optimized, greedy_remaining(greedy, robots))
}

/// What goes short in the assignment of one tick.
pub open spec fn warned(greedy: Seq<Tactic>, optimized: Seq<Tactic>, robots: Seq<Robot>) -> Warnings {
    let free = greedy_remaining(greedy, robots);
    Warnings {
        greedy_exhausted: greedy.len() > robots.len(),
        optimized_truncated: optimized.len() > free.len(),
        solver_failed: solver_fails(optimized, free),
    }
}

/// Whether one of `robots` has the id `id`.
pub open spec fn has_id(robots: Seq<Robot>, id: usize) -> bool {
    exists|k: int| 0 <= k < robots.len() && #[trigger] robots[k].id == id
}

/// No robot is assigned twice in `assignments`.
pub open spec fn injective(assignments: Seq<Assignment>) -> bool {
    forall|i: int, j: int|
        0 <= i < j < assignments.len() ==> #[trigger] assignments[i].robot_id != #[trigger] assignments[j].robot_id
}

/// The smaller of two numbers.
pub open spec fn least(a: int, b: int) -> int {
    if a <= b {
        a
    } else {
        b
    }
}

/// The cheapest robot is one of the robots, none is cheaper, and every
/// robot before it costs more.
pub proof fn lemma_cheapest(tactic: Tactic, robots: Seq<Robot>)
    requires
        robots.len() > 0,
    ensures
        0 <= cheapest(tactic, robots) < robots.len(),
        forall|j: int|
            0 <= j < robots.len() ==> tactic.cost_spec(robots[cheapest(tactic, robots)]) <= tactic.cost_spec(
                #[trigger] robots[j],
            ),
        forall|j: int|
            0 <= j < cheapest(tactic, robots) ==> tactic.cost_spec(robots[cheapest(tactic, robots)])
                < tactic.cost_spec(#[trigger] robots[j]),
    decreases robots.len(),
{
    if robots.len() > 1 {
        let shorter = robots.drop_last();
        lemma_cheapest(tactic, shorter);
        let before = cheapest(tactic, shorter);
        assert(shorter[before] == robots[before]);
        assert forall|j: int| 0 <= j < robots.len() implies tactic.cost_spec(
            robots[cheapest(tactic, robots)],
        ) <= tactic.cost_spec(#[trigger] robots[j]) by {
            if j < shorter.len() {
                assert(shorter[j] == robots[j]);
            }
        }
        assert forall|j: int| 0 <= j < cheapest(tactic, robots) implies tactic.cost_spec(
            robots[cheapest(tactic, robots)],
        ) < tactic.cost_spec(#[trigger] robots[j]) by {
            if j < shorter.len() {
                assert(shorter[j] == robots[j]);
            }
        }
    }
}

/// The greedy phase serves as many tactics as it can, assigns no robot
/// twice and only robots that it was given, and leaves free the others, in
/// their order.
pub proof fn lemma_greedy(tactics: Seq<Tactic>, robots: Seq<Robot>)
    requires
        ids_increase(robots),
    ensures
        greedy_assigned(tactics, robots).len() == least(tactics.len() as int, robots.len() as int),
        greedy_remaining(tactics, robots).len() == robots.len() - least(
            tactics.len() as int,
            robots.len() as int,
        ),
        ids_increase(greedy_remaining(tactics, robots)),
        injective(greedy_assigned(tactics, robots)),
        forall|i: int|
            0 <= i < greedy_assigned(tactics, robots).len() ==> has_id(
                robots,
                #[trigger] greedy_assigned(tactics, robots)[i].robot_id,
            ) && !has_id(greedy_remaining(tactics, robots), greedy_assigned(tactics, robots)[i].robot_id),
        forall|k: int|
            0 <= k < greedy_remaining(tactics, robots).len() ==> has_id(
                robots,
                #[trigger] greedy_remaining(tactics, robots)[k].id,
            ),
        forall|i: int|
            0 <= i < greedy_assigned(tactics, robots).len() ==> #[trigger] greedy_assigned(
                tactics,
                robots,
            )[i].tactic == tactics[i],
    decreases tactics.len(),
{
    if tactics.len() == 0 || robots.len() == 0 {
    } else {
        lemma_cheapest(tactics[0], robots);
        let k = cheapest(tactics[0], robots);
        let rest_tactics = tactics.drop_first();
        let rest_robots = robots.remove(k);
        let head = Assignment { robot_id: robots[k].id, tactic: tactics[0] };
        let tail = greedy_assigned(rest_tactics, rest_robots);
        let all = greedy_assigned(tactics, robots);
        let free = greedy_remaining(tactics, robots);
        assert(ids_increase(rest_robots));
        lemma_greedy(rest_tactics, rest_robots);
        assert(all == seq![head] + tail);
        assert(all[0] == head);
        assert forall|i: int| 1 <= i < all.len() implies all[i] == tail[i - 1] by {}
        assert forall|j: int| 0 <= j < rest_robots.len() implies has_id(robots, #[trigger] rest_robots[j].id)
            && rest_robots[j].id != robots[k].id by {
            if j < k {
                assert(rest_robots[j] == robots[j]);
            } else {
                assert(rest_robots[j] == robots[j + 1]);
            }
        }
        assert forall|id: usize| has_id(rest_robots, id) implies has_id(robots, id) && id != robots[k].id by {
            let j = choose|j: int| 0 <= j < rest_robots.len() && #[trigger] rest_robots[j].id == id;
            assert(has_id(robots, rest_robots[j].id));
        }
        assert forall|i: int| 0 <= i < all.len() implies has_id(robots, #[trigger] all[i].robot_id)
            && !has_id(free, all[i].robot_id) by {
            if i == 0 {
                assert(robots[k].id == head.robot_id);
                if has_id(free, head.robot_id) {
                    let f = choose|f: int| 0 <= f < free.len() && #[trigger] free[f].id == head.robot_id;
                    assert(has_id(rest_robots, free[f].id));
                }
            } else {
                assert(all[i] == tail[i - 1]);
                assert(has_id(rest_robots, tail[i - 1].robot_id));
            }
        }
        assert forall|f: int| 0 <= f < free.len() implies has_id(robots, #[trigger] free[f].id) by {
            assert(has_id(rest_robots, free[f].id));
        }
        assert forall|i: int, j: int| 0 <= i < j < all.len() implies #[trigger] all[i].robot_id
            != #[trigger] all[j].robot_id by {
            assert(all[j] == tail[j - 1]);
            assert(has_id(rest_robots, tail[j - 1].robot_id));
            if i > 0 {
                assert(all[i] == tail[i - 1]);
            }
        }
        assert forall|i: int| 0 <= i < all.len() implies #[trigger] all[i].tactic == tactics[i] by {
            if i > 0 {
                assert(all[i] == tail[i - 1]);
                assert(rest_tactics[i - 1] == tactics[i]);
            }
        }
    }
}

/// The optimized phase assigns no robot twice and only robots that it was
/// given; it serves every tactic that the robots can serve if the solver
/// gives a matching, and none if it does not.
pub proof fn lemma_optimized(tactics: Seq<Tactic>, robots: Seq<Robot>, solution: Option<Seq<(usize, usize)>>)
    requires
        ids_increase(robots),
    ensures
        injective(optimized_assigned_with(tactics, robots, solution)),
        forall|i: int|
            0 <= i < optimized_assigned_with(tactics, robots, solution).len() ==> has_id(
                robots,
                #[trigger] optimized_assigned_with(tactics, robots, solution)[i].robot_id,
            ),
        optimized_assigned_with(tactics, robots, solution).len() == if solved_columns(
            robots.len() as int,
            solution,
        ) is Some {
            least(tactics.len() as int, robots.len() as int)
        } else {
            0
        },
{
    let served = truncated(tactics, robots);
    let all = optimized_assigned_with(tactics, robots, solution);
    let n = robots.len() as int;
    if served.len() > 0 {
        if let Some(columns) = solved_columns(n, solution) {
            let pairs = solution->Some_0;
            assert(is_matching(n, pairs));
            assert(columns == columns_of(n, pairs));
            lemma_matching_columns(n, pairs);
            assert forall|i: int| 0 <= i < all.len() implies has_id(robots, #[trigger] all[i].robot_id) by {
                assert(robots[columns[i] as int].id == all[i].robot_id);
            }
            assert forall|i: int, j: int| 0 <= i < j < all.len() implies #[trigger] all[i].robot_id
                != #[trigger] all[j].robot_id by {
                let ci = columns[i] as int;
                let cj = columns[j] as int;
                assert(ci != cj);
                if ci < cj {
                    assert(robots[ci].id < robots[cj].id);
                } else {
                    assert(robots[cj].id < robots[ci].id);
                }
            }
        }
    }
}

/// No robot is assigned twice in one tick, whatever tactics are requested
/// of whatever robots; every assigned robot is one of the robots given. The
/// greedy phase assigns as many robots as it has tactics, or all of them.
/// The optimized phase then assigns as many as it has tactics, or all that
/// were left; it assigns none where the solver fails.
pub proof fn lemma_assignment_injective(greedy: Seq<Tactic>, optimized: Seq<Tactic>, robots: Seq<Robot>)
    requires
        ids_increase(robots),
    ensures
        injective(assigned(greedy, optimized, robots)),
        forall|i: int|
            0 <= i < assigned(greedy, optimized, robots).len() ==> has_id(
                robots,
                #[trigger] assigned(greedy, optimized, robots)[i].robot_id,
            ),
        ({
            let free = greedy_remaining(greedy, robots);
            let first = least(greedy.len() as int, robots.len() as int);
            let second = least(truncated(optimized, free).len() as int, free.len() as int);
            &&& free.len() == robots.len() - first
            &&& second == least(optimized.len() as int, free.len() as int)
            &&& assigned(greedy, optimized, robots).len() == if solver_fails(optimized, free) {
                first
            } else {
                first + second
            }
        }),
{
    let free = greedy_remaining(greedy, robots);
    let first = greedy_assigned(greedy, robots);
    let second = optimized_assigned(optimized, free);
    let all = assigned(greedy, optimized, robots);
    lemma_greedy(greedy, robots);
    lemma_optimized(optimized, free, solution_for(optimized, free));
    assert forall|i: int| 0 <= i < all.len() implies has_id(robots, #[trigger] all[i].robot_id) by {
        if i >= first.len() {
            assert(all[i] == second[i - first.len()]);
            assert(has_id(free, second[i - first.len()].robot_id));
            let f = choose|f: int| 0 <= f < free.len() && #[trigger] free[f].id == all[i].robot_id;
            assert(has_id(robots, free[f].id));
        } else {
            assert(all[i] == first[i]);
        }
    }
    assert forall|i: int, j: int| 0 <= i < j < all.len() implies #[trigger] all[i].robot_id
        != #[trigger] all[j].robot_id by {
        if j < first.len() {
            assert(all[i] == first[i] && all[j] == first[j]);
        } else if i >= first.len() {
            assert(all[i] == second[i - first.len()] && all[j] == second[j - first.len()]);
        } else {
            assert(all[i] == first[i] && all[j] == second[j - first.len()]);
            assert(has_id(free, second[j - first.len()].robot_id));
            assert(!has_id(free, first[i].robot_id));
        }
    }
}

/// Finds the robot that serves `tactic` at the least cost.
fn cheapest_robot(tactic: &Tactic, robots: &Vec<Robot>) -> (k: usize)
    requires
        robots@.len() > 0,
    ensures
        k == cheapest(*tactic, robots@),
        k < robots@.len(),
{
    let mut best: usize = 0;
    let mut best_cost: u64 = tactic.robot_assignment_cost(&robots[0]);
    let mut i: usize = 1;
    assert(robots@.take(1).len() == 1);
    while i < robots.len()
        invariant
            1 <= i <= robots@.len(),
            best < i,
            best == cheapest(*tactic, robots@.take(i as int)),
            best_cost == tactic.cost_spec(robots@[best as int]),
        decreases robots@.len() - i,
    {
        let cost = tactic.robot_assignment_cost(&robots[i]);
        proof {
            let longer = robots@.take(i + 1);
            assert(longer.drop_last() =~= robots@.take(i as int));
            assert(longer.last() == robots@[i as int]);
            assert(longer[best as int] == robots@[best as int]);
        }
        if cost < best_cost {
            best = i;
            best_cost = cost;
        }
        i += 1;
    }
    assert(robots@.take(i as int) =~= robots@);
    best
}

/// Serves each of `tactics` in turn with the cheapest robot left in
/// `robots`, and takes that robot out of `robots`. Stops when no robot is
/// left.
pub fn greedy_tactic_assignment(tactics: Vec<Tactic>, robots: &mut Vec<Robot>) -> (assignments: Vec<Assignment>)
    ensures
        assignments@ == greedy_assigned(tactics@, old(robots)@),
        final(robots)@ == greedy_remaining(tactics@, old(robots)@),
{
    let mut assignments: Vec<Assignment> = Vec::new();
    let mut t: usize = 0;
    assert(tactics@.skip(0) =~= tactics@);
    while t < tactics.len() && robots.len() > 0
        invariant
            t <= tactics@.len(),
            assignments@ + greedy_assigned(tactics@.skip(t as int), robots@) == greedy_assigned(
                tactics@,
                old(robots)@,
            ),
            greedy_remaining(tactics@.skip(t as int), robots@) == greedy_remaining(tactics@, old(robots)@),
        decreases tactics@.len() - t,
    {
        let k = cheapest_robot(&tactics[t], robots);
        let ghost rest = tactics@.skip(t as int);
        let ghost pool = robots@;
        let ghost before = assignments@;
        let id = robots[k].id;
        assignments.push(Assignment { robot_id: id, tactic: tactics[t] });
        robots.remove(k);
        proof {
            assert(rest[0] == tactics@[t as int]);
            assert(rest.drop_first() =~= tactics@.skip(t + 1));
            assert(robots@ == pool.remove(k as int));
            let head = seq![Assignment { robot_id: pool[k as int].id, tactic: rest[0] }];
            let tail = greedy_assigned(rest.drop_first(), pool.remove(k as int));
            assert(greedy_assigned(rest, pool) == head + tail);
            assert(assignments@ =~= before + head);
            assert((before + head) + tail =~= before + (head + tail));
        }
        t += 1;
    }
    proof {
        let rest = tactics@.skip(t as int);
        assert(greedy_assigned(rest, robots@) =~= Seq::<Assignment>::empty());
        assert(assignments@ + Seq::<Assignment>::empty() =~= assignments@);
    }
    assignments
}

/// Builds the square cost matrix of `tactics` and `robots`, row after row.
fn build_cost_matrix(tactics: &Vec<Tactic>, robots: &Vec<Robot>) -> (weights: Vec<i64>)
    requires
        robots@.len() <= MAX_SIDE,
    ensures
        weights@ == cost_matrix(tactics@, robots@),
        weights@.len() == robots@.len() * robots@.len(),
        forall|k: int| 0 <= k < weights@.len() ==> 0 <= #[trigger] weights@[k] <= MAX_WEIGHT,
{
    let n = robots.len();
    let mut weights: Vec<i64> = Vec::new();
    let mut row: usize = 0;
    while row < n
        invariant
            n == robots@.len(),
            n <= MAX_SIDE,
            row <= n,
            weights@.len() == row * n,
            forall|k: int|
                0 <= k < weights@.len() ==> weights@[k] == cost_cell(tactics@, robots@, k / (n as int), k % (
                n as int)) && 0 <= weights@[k] <= MAX_WEIGHT,
        decreases n - row,
    {
        let mut column: usize = 0;
        while column < n
            invariant
                n == robots@.len(),
                n <= MAX_SIDE,
                row < n,
                column <= n,
                weights@.len() == row * n + column,
                forall|k: int|
                    0 <= k < weights@.len() ==> weights@[k] == cost_cell(
                        tactics@,
                        robots@,
                        k / (n as int),
                        k % (n as int),
                    ) && 0 <= weights@[k] <= MAX_WEIGHT,
            decreases n - column,
        {
            let weight: i64 = if row < tactics.len() {
                tactics[row].robot_assignment_cost(&robots[column]) as i64
            } else {
                0
            };
            proof {
                let k = row * n + column;
                lemma_fundamental_div_mod_converse_div(k, n as int, row as int, column as int);
                lemma_fundamental_div_mod_converse_mod(k, n as int, row as int, column as int);
            }
            weights.push(weight);
            column += 1;
        }
        assert(row * n + n == (row + 1) * n) by (nonlinear_arith);
        row += 1;
    }
    assert(weights@ =~= cost_matrix(tactics@, robots@));
    weights
}

/// Gives each of `tactics` the robot in its row's column.
pub fn assign_columns(tactics: &Vec<Tactic>, robots: &Vec<Robot>, columns: &Vec<usize>) -> (assignments: Vec<
    Assignment,
>)
    requires
        tactics@.len() <= columns@.len(),
        forall|row: int| 0 <= row < columns@.len() ==> columns@[row] < robots@.len(),
    ensures
        assignments@ == matched(tactics@, robots@, columns@),
{
    let mut assignments: Vec<Assignment> = Vec::new();
    let mut row: usize = 0;
    while row < tactics.len()
        invariant
            row <= tactics@.len(),
            tactics@.len() <= columns@.len(),
            forall|r: int| 0 <= r < columns@.len() ==> columns@[r] < robots@.len(),
            assignments@.len() == row,
            forall|r: int|
                0 <= r < row ==> assignments@[r] == (Assignment {
                    robot_id: robots@[columns@[r] as int].id,
                    tactic: tactics@[r],
                }),
        decreases tactics@.len() - row,
    {
        assignments.push(Assignment { robot_id: robots[columns[row]].id, tactic: tactics[row] });
        row += 1;
    }
    assert(assignments@ =~= matched(tactics@, robots@, columns@));
    assignments
}

/// Matches `tactics` with `robots` at the least total cost. Tactics beyond
/// the number of robots are dropped. Tells with the assignment whether the
/// solver failed; nothing is assigned then.
pub fn optimized_tactic_assignment(mut tactics: Vec<Tactic>, robots: Vec<Robot>) -> (outcome: (
    Vec<Assignment>,
    bool,
))
    requires
        tactics@.len() > 0 ==> robots@.len() <= MAX_SIDE,
    ensures
        outcome.0@ == optimized_assigned(tactics@, robots@),
        outcome.1 == solver_fails(tactics@, robots@),
{
    let ghost requested = tactics@;
    if tactics.len() > robots.len() {
        tactics.truncate(robots.len());
    }
    assert(tactics@ == truncated(requested, robots@));
    if tactics.len() == 0 {
        return (Vec::new(), false);
    }
    let weights = build_cost_matrix(&tactics, &robots);
    match solve(robots.len(), weights) {
        Some(columns) => {
            proof {
                let n = robots@.len() as int;
                let pairs = solution_for(requested, robots@)->Some_0;
                lemma_matching_columns(n, pairs);
            }
            (assign_columns(&tactics, &robots, &columns), false)
        },
        None => (Vec::new(), true),
    }
}

/// Assigns the requested tactics to `robots`, which come by increasing id:
/// the greedy ones first, then the optimized ones among the robots left.
pub fn assign_robots_to_tactics(tactics: RequestedTactics, mut robots: Vec<Robot>) -> (outcome: TacticAssignment)
    requires
        tactics.optimized@.len() > 0 ==> robots@.len() <= MAX_SIDE,
        ids_increase(robots@),
    ensures
        outcome.assignments@ == assigned(tactics.greedy@, tactics.optimized@, robots@),
        outcome.warnings == warned(tactics.greedy@, tactics.optimized@, robots@),
        injective(outcome.assignments@),
{
    let ghost all = robots@;
    proof {
        lemma_greedy(tactics.greedy@, all);
        lemma_assignment_injective(tactics.greedy@, tactics.optimized@, all);
    }
    let greedy_exhausted = tactics.greedy.len() > robots.len();
    let mut assignments = greedy_tactic_assignment(tactics.greedy, &mut robots);
    let optimized_truncated = tactics.optimized.len() > robots.len();
    let (mut optimized, solver_failed) = optimized_tactic_assignment(tactics.optimized, robots);
    assignments.append(&mut optimized);
    TacticAssignment {
        assignments,
        warnings: Warnings { greedy_exhausted, optimized_truncated, solver_failed },
    }
}

} // verus!
