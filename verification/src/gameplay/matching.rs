//! Minimum-cost matching of tactics and robots: the solver, and the check
//! that what the solver returns is a matching.

use vstd::prelude::*;

verus! {

/// The largest number of rows and columns of a matrix that is handed to the
/// solver. The matrix is square: its cells must not exceed what a machine
/// with 32-bit addresses can hold.
pub const MAX_SIDE: usize = 0x3FFF;

/// The largest cost that is handed to the solver.
pub const MAX_WEIGHT: i64 = 0x2_0000_0000;

/// What `munkres::solve_assignment` returns for the square matrix of `n`
/// rows whose cells are `weights`, row after row: the pairs of row and
/// column that it selects, or nothing where it reports an error.
pub uninterp spec fn munkres_solution(n: usize, weights: Seq<i64>) -> Option<Seq<(usize, usize)>>;

/// `munkres::WeightMatrix::from_row_vec`, then `munkres::solve_assignment`
/// on that matrix. The result is the solver's answer for these weights, a
/// function of the weights alone; nothing is claimed of what the answer
/// holds. `from_row_vec` expects `n * n` weights. The solver adds and
/// subtracts cells of the matrix: the weights are signed, few and small, so
/// that this arithmetic stays far from the ends of `i64`.
#[verifier::external_body]
fn solve_assignment(n: usize, weights: Vec<i64>) -> (solution: Option<Vec<(usize, usize)>>)
    requires
        1 <= n <= MAX_SIDE,
        weights@.len() == n * n,
        forall|k: int| 0 <= k < weights@.len() ==> 0 <= #[trigger] weights@[k] <= MAX_WEIGHT,
    ensures
        solution matches Some(pairs) ==> munkres_solution(n, weights@) == Some(pairs@),
        solution is None ==> munkres_solution(n, weights@) is None,
{
    let mut matrix = munkres::WeightMatrix::from_row_vec(n, weights);
    match munkres::solve_assignment(&mut matrix) {
        Ok(positions) => Some(positions.into_iter().map(|p| (p.row, p.column)).collect()),
        Err(_) => None,
    }
}

/// The index of the first of `pairs` whose row is `row`; the number of
/// pairs if there is none.
pub open spec fn first_with_row(pairs: Seq<(usize, usize)>, row: int) -> int
    decreases pairs.len(),
{
    if pairs.len() == 0 || pairs[0].0 == row {
        0
    } else {
        1 + first_with_row(pairs.drop_first(), row)
    }
}

/// The column that `pairs` gives to `row`: that of the first pair with
/// this row.
pub open spec fn column_of(pairs: Seq<(usize, usize)>, row: int) -> int {
    pairs[first_with_row(pairs, row)].1 as int
}

/// `pairs` match the `n` rows with the `n` columns: there are `n` pairs
/// within the matrix, every row has a pair, and no two rows have the same
/// column.
pub open spec fn is_matching(n: int, pairs: Seq<(usize, usize)>) -> bool {
    &&& pairs.len() == n
    &&& forall|k: int| 0 <= k < n ==> (#[trigger] pairs[k]).0 < n && pairs[k].1 < n
    &&& forall|row: int| 0 <= row < n ==> #[trigger] first_with_row(pairs, row) < n
    &&& forall|r1: int, r2: int|
        0 <= r1 < r2 < n ==> #[trigger] column_of(pairs, r1) != #[trigger] column_of(pairs, r2)
}

/// The columns of a matching, row by row.
pub open spec fn columns_of(n: int, pairs: Seq<(usize, usize)>) -> Seq<usize> {
    Seq::new(n as nat, |row: int| column_of(pairs, row) as usize)
}

/// Each row's column in the solver's answer, if the solver answered with a
/// matching of the `n` rows.
pub open spec fn solved_columns(n: int, solution: Option<Seq<(usize, usize)>>) -> Option<Seq<usize>> {
    match solution {
        Some(pairs) => if is_matching(n, pairs) {
            Some(columns_of(n, pairs))
        } else {
            None
        },
        None => None,
    }
}

/// The first pair with a given row is found at the index before which no
/// pair has this row and at which the pair has it.
pub proof fn lemma_first_with_row_is(pairs: Seq<(usize, usize)>, row: int, at: int)
    requires
        0 <= at <= pairs.len(),
        forall|k: int| 0 <= k < at ==> pairs[k].0 != row,
        at < pairs.len() ==> pairs[at].0 == row,
    ensures
        first_with_row(pairs, row) == at,
    decreases at,
{
    if at > 0 {
        let rest = pairs.drop_first();
        assert(pairs[0].0 != row);
        assert forall|k: int| 0 <= k < at - 1 implies rest[k].0 != row by {
            assert(rest[k] == pairs[k + 1]);
        }
        if at - 1 < rest.len() {
            assert(rest[at - 1] == pairs[at]);
        }
        lemma_first_with_row_is(rest, row, at - 1);
    }
}

/// The index of the first pair with a given row lies within the pairs or
/// right behind them.
pub proof fn lemma_first_with_row_bounds(pairs: Seq<(usize, usize)>, row: int)
    ensures
        0 <= first_with_row(pairs, row) <= pairs.len(),
    decreases pairs.len(),
{
    if pairs.len() != 0 && pairs[0].0 != row {
        lemma_first_with_row_bounds(pairs.drop_first(), row);
    }
}

/// The columns of a matching lie within the matrix, and no two rows share
/// one.
pub proof fn lemma_matching_columns(n: int, pairs: Seq<(usize, usize)>)
    requires
        is_matching(n, pairs),
    ensures
        columns_of(n, pairs).len() == n,
        forall|row: int| 0 <= row < n ==> 0 <= #[trigger] columns_of(n, pairs)[row] < n,
        forall|r1: int, r2: int|
            0 <= r1 < r2 < n ==> #[trigger] columns_of(n, pairs)[r1] != #[trigger] columns_of(n, pairs)[r2],
{
    assert forall|row: int| 0 <= row < n implies 0 <= #[trigger] columns_of(n, pairs)[row] < n by {
        lemma_first_with_row_bounds(pairs, row);
        let at = first_with_row(pairs, row);
        assert(at < n);
        assert(pairs[at].1 < n);
    }
    assert forall|r1: int, r2: int| 0 <= r1 < r2 < n implies #[trigger] columns_of(n, pairs)[r1]
        != #[trigger] columns_of(n, pairs)[r2] by {
        assert(column_of(pairs, r1) != column_of(pairs, r2));
        assert(0 <= columns_of(n, pairs)[r1] < n);
        assert(0 <= columns_of(n, pairs)[r2] < n);
    }
}

/// Finds the first pair with the row `row`.
fn find_row(pairs: &Vec<(usize, usize)>, row: usize) -> (at: usize)
    ensures
        at == first_with_row(pairs@, row as int),
        at <= pairs@.len(),
        at < pairs@.len() ==> pairs@[at as int].0 == row,
{
    let mut at: usize = 0;
    while at < pairs.len() && pairs[at].0 != row
        invariant
            at <= pairs@.len(),
            forall|k: int| 0 <= k < at ==> pairs@[k].0 != row,
        decreases pairs@.len() - at,
    {
        at += 1;
    }
    proof {
        lemma_first_with_row_is(pairs@, row as int, at as int);
    }
    at
}

/// Whether every pair lies within the matrix of `n` rows.
fn all_within(n: usize, pairs: &Vec<(usize, usize)>) -> (within: bool)
    ensures
        within == (forall|k: int| 0 <= k < pairs@.len() ==> (#[trigger] pairs@[k]).0 < n && pairs@[k].1 < n),
{
    let mut k: usize = 0;
    while k < pairs.len()
        invariant
            k <= pairs@.len(),
            forall|j: int| 0 <= j < k ==> (#[trigger] pairs@[j]).0 < n && pairs@[j].1 < n,
        decreases pairs@.len() - k,
    {
        if pairs[k].0 >= n || pairs[k].1 >= n {
            return false;
        }
        k += 1;
    }
    true
}

/// Checks that `pairs` match the `n` rows with the `n` columns, and gives
/// each row's column.
pub fn matching_columns(n: usize, pairs: &Vec<(usize, usize)>) -> (columns: Option<Vec<usize>>)
    ensures
        columns is Some <==> is_matching(n as int, pairs@),
        columns matches Some(c) ==> c@ == columns_of(n as int, pairs@),
{
    if pairs.len() != n {
        return None;
    }
    if !all_within(n, pairs) {
        return None;
    }
    let mut used: Vec<bool> = Vec::new();
    let mut c: usize = 0;
    while c < n
        invariant
            c <= n,
            used@.len() == c,
            forall|j: int| 0 <= j < c ==> !used@[j],
        decreases n - c,
    {
        used.push(false);
        c += 1;
    }
    let ghost mut owner: Seq<int> = Seq::new(n as nat, |j: int| 0int);
    let mut columns: Vec<usize> = Vec::new();
    let mut row: usize = 0;
    while row < n
        invariant
            row <= n,
            pairs@.len() == n,
            forall|k: int| 0 <= k < n ==> (#[trigger] pairs@[k]).0 < n && pairs@[k].1 < n,
            used@.len() == n,
            owner.len() == n,
            columns@.len() == row,
            forall|r: int| 0 <= r < row ==> #[trigger] first_with_row(pairs@, r) < n,
            forall|r: int| 0 <= r < row ==> columns@[r] == column_of(pairs@, r),
            forall|r1: int, r2: int|
                0 <= r1 < r2 < row ==> #[trigger] column_of(pairs@, r1) != #[trigger] column_of(pairs@, r2),
            forall|j: int|
                0 <= j < n && used@[j] ==> 0 <= #[trigger] owner[j] < row && column_of(pairs@, owner[j])
                    == j,
            forall|r: int|
                0 <= r < row ==> 0 <= #[trigger] column_of(pairs@, r) < n && used@[column_of(pairs@, r)],
        decreases n - row,
    {
        let at = find_row(pairs, row);
        if at >= n {
            assert(!(first_with_row(pairs@, row as int) < n));
            return None;
        }
        let column = pairs[at].1;
        if used[column] {
            proof {
                let first = owner[column as int];
                assert(column_of(pairs@, first) == column_of(pairs@, row as int));
            }
            return None;
        }
        used.set(column, true);
        proof {
            owner = owner.update(column as int, row as int);
        }
        columns.push(column);
        row += 1;
    }
    assert(columns@ =~= columns_of(n as int, pairs@));
    Some(columns)
}

/// Asks the solver for a matching at the least total weight in the square
/// matrix of `n` rows whose cells are `weights`, row after row, and gives
/// each row's column: if the solver answers, and answers with a matching.
pub fn solve(n: usize, weights: Vec<i64>) -> (columns: Option<Vec<usize>>)
    requires
        1 <= n <= MAX_SIDE,
        weights@.len() == n * n,
        forall|k: int| 0 <= k < weights@.len() ==> 0 <= #[trigger] weights@[k] <= MAX_WEIGHT,
    ensures
        match columns {
            Some(c) => solved_columns(n as int, munkres_solution(n, weights@)) == Some(c@),
            None => solved_columns(n as int, munkres_solution(n, weights@)) is None,
        },
{
    match solve_assignment(n, weights) {
        Some(pairs) => matching_columns(n, &pairs),
        None => None,
    }
}

} // verus!
