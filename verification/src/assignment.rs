//! Matching agents to landmarks at the least total cost.
use crate::error::Error;
use crate::solver::{
    cells_fit_i32, cells_of, is_matching, kuhn_munkres_min_assignment, matrix_from_rows,
    min_weight_matching, total_cost,
};
use vstd::prelude::*;
use vstd::set_lib::{lemma_int_range, lemma_len_subset, lemma_subset_equality, set_int_range};

verus! {

/// The table has as many columns in every row as it has rows.
pub open spec fn is_square(cells: Seq<Seq<int>>) -> bool {
    forall|i: int| 0 <= i < cells.len() ==> #[trigger] cells[i].len() == cells.len()
}

/// `assignment` sends the rows `0..size` one-to-one to the columns `0..size`.
pub open spec fn is_assignment(assignment: Seq<usize>, size: nat) -> bool {
    is_matching(assignment, size, size)
}

/// Exactly one row of `assignment` is sent to `column`.
pub open spec fn uses_column_once(assignment: Seq<usize>, column: int) -> bool {
    exists|row: int|
        {
            &&& 0 <= row < assignment.len()
            &&& #[trigger] assignment[row] == column
            &&& forall|other: int|
                0 <= other < assignment.len() && #[trigger] assignment[other] == column ==> other
                    == row
        }
}

/// No assignment of the same size costs less than `assignment`.
pub open spec fn is_optimal(cells: Seq<Seq<int>>, assignment: Seq<usize>) -> bool {
    forall|other: Seq<usize>|
        is_assignment(other, assignment.len()) ==> total_cost(cells, assignment)
            <= #[trigger] total_cost(cells, other)
}

/// An assignment uses every column exactly once: rows that get distinct
/// columns out of as many columns as there are rows leave no column out.
pub proof fn lemma_assignment_uses_each_column_once(assignment: Seq<usize>, size: nat)
    requires
        is_assignment(assignment, size),
    ensures
        forall|column: int| 0 <= column < size ==> uses_column_once(assignment, column),
{
    let columns = Seq::new(size, |row: int| assignment[row] as int);
    let all = set_int_range(0, size as int);
    assert(columns.no_duplicates());
    columns.unique_seq_to_set();
    lemma_int_range(0, size as int);
    assert(columns.to_set().subset_of(all)) by {
        assert forall|c: int| columns.to_set().contains(c) implies all.contains(c) by {
            let row = choose|row: int| 0 <= row < columns.len() && columns[row] == c;
            assert(assignment[row] < size);
        }
    }
    lemma_len_subset(columns.to_set(), all);
    lemma_subset_equality(columns.to_set(), all);
    assert forall|column: int| 0 <= column < size implies uses_column_once(
        assignment,
        column,
    ) by {
        assert(all.contains(column));
        assert(columns.to_set().contains(column));
        let row = choose|row: int| 0 <= row < columns.len() && columns[row] == column;
        assert(assignment[row] == column);
        assert forall|other: int|
            0 <= other < assignment.len() && #[trigger] assignment[other] == column implies other
            == row by {
            if other < row {
                assert(assignment[other] != assignment[row]);
            } else if row < other {
                assert(assignment[row] != assignment[other]);
            }
        }
    }
}

/// Gives every agent a landmark so that the distances add up to as little
/// as possible.
///
/// Row `i` of `distances` holds the distance of agent `i` to each landmark.
/// A table that is not square is turned down. Otherwise entry `i` of the
/// answer is the landmark of agent `i`; every landmark is given to exactly
/// one agent, and no other such choice has a smaller sum. Among choices of
/// equal sum the answer is the one the solver settles on.
pub fn get_target_assignments(distances: &Vec<Vec<i32>>) -> (outcome: Result<Vec<usize>, Error>)
    ensures
        outcome is Ok <==> is_square(cells_of(distances@)),
        outcome is Err ==> outcome == Err::<Vec<usize>, Error>(Error::ShapeError),
        outcome matches Ok(assignment) ==> {
            &&& assignment@ == kuhn_munkres_min_assignment(cells_of(distances@))
            &&& is_assignment(assignment@, distances@.len())
            &&& forall|column: int|
                0 <= column < distances@.len() ==> uses_column_once(assignment@, column)
            &&& is_optimal(cells_of(distances@), assignment@)
        },
{
    let ghost cells = cells_of(distances@);
    let matrix = match matrix_from_rows(distances) {
        Ok(matrix) => matrix,
        Err(_) => {
            assert(!is_square(cells)) by {
                if is_square(cells) {
                    assert forall|i: int| 0 <= i < cells.len() implies #[trigger] cells[i].len()
                        == cells[0].len() > 0 by {
                        assert(cells[0].len() == cells.len());
                    }
                }
            }
            return Err(Error::ShapeError);
        },
    };
    let size: usize = distances.len();
    if size > 0 && distances[0].len() != size {
        assert(cells[0].len() != cells.len());
        return Err(Error::ShapeError);
    }
    assert(is_square(cells)) by {
        assert forall|i: int| 0 <= i < cells.len() implies #[trigger] cells[i].len()
            == cells.len() by {
            assert(cells[i].len() == cells[0].len());
        }
    }
    assert(cells_fit_i32(cells));
    let assignment = min_weight_matching(&matrix);
    proof {
        lemma_assignment_uses_each_column_once(assignment@, size as nat);
    }
    Ok(assignment)
}

} // verus!
