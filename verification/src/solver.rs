//! The minimum-weight matching solver of the `pathfinding` crate.
//!
//! Nothing in this module is proved: each item states what the crate's
//! `Matrix` and `kuhn_munkres_min` do, and the rest of the library is proved
//! from these statements.
use pathfinding::kuhn_munkres::kuhn_munkres_min;
use pathfinding::matrix::{Matrix, MatrixFormatError};
use vstd::prelude::*;

verus! {

/// `pathfinding::matrix::Matrix`, a dense matrix stored row by row.
#[verifier::external_type_specification]
#[verifier::external_body]
#[verifier::reject_recursive_types(C)]
pub struct ExMatrix<C>(Matrix<C>);

/// `pathfinding::matrix::MatrixFormatError`, the reason a matrix could not
/// be built.
#[verifier::external_type_specification]
#[verifier::external_body]
pub struct ExMatrixFormatError(MatrixFormatError);

/// The cells of a matrix, row by row.
pub uninterp spec fn matrix_cells(matrix: Matrix<i64>) -> Seq<Seq<int>>;

/// The column that `kuhn_munkres_min` gives to each row of a matrix with
/// these cells.
pub uninterp spec fn kuhn_munkres_min_assignment(cells: Seq<Seq<int>>) -> Seq<usize>;

/// The cells of a table of costs as mathematical integers.
pub open spec fn cells_of(rows: Seq<Vec<i32>>) -> Seq<Seq<int>> {
    Seq::new(rows.len(), |i: int| Seq::new(rows[i]@.len(), |j: int| rows[i]@[j] as int))
}

/// Every row is as long as the first one, and no row is empty.
pub open spec fn is_rectangular(cells: Seq<Seq<int>>) -> bool {
    forall|i: int| 0 <= i < cells.len() ==> #[trigger] cells[i].len() == cells[0].len() > 0
}

/// The number of columns of a rectangular table.
pub open spec fn width(cells: Seq<Seq<int>>) -> nat {
    if cells.len() == 0 {
        0
    } else {
        cells[0].len()
    }
}

/// Every cell fits in 32 bits.
pub open spec fn cells_fit_i32(cells: Seq<Seq<int>>) -> bool {
    forall|i: int, j: int|
        0 <= i < cells.len() && 0 <= j < cells[i].len() ==> i32::MIN <= #[trigger] cells[i][j]
            <= i32::MAX
}

/// `assignment` gives each of `rows` rows a column below `columns`, and no
/// column to two rows.
pub open spec fn is_matching(assignment: Seq<usize>, rows: nat, columns: nat) -> bool {
    &&& assignment.len() == rows
    &&& forall|i: int| 0 <= i < assignment.len() ==> #[trigger] assignment[i] < columns
    &&& forall|i: int, j: int|
        0 <= i < j < assignment.len() ==> #[trigger] assignment[i] != #[trigger] assignment[j]
}

/// The sum of the cells that `assignment` picks, one in each row.
pub open spec fn total_cost(cells: Seq<Seq<int>>, assignment: Seq<usize>) -> int
    decreases assignment.len(),
{
    if assignment.len() == 0 {
        0
    } else {
        total_cost(cells, assignment.drop_last()) + cells[assignment.len() - 1][assignment.last() as int]
    }
}

/// `Matrix::from_rows`, on rows whose cells are widened to 64 bits.
///
/// The call succeeds exactly when there is no row at all, or when no row is
/// empty and all rows are equally long. The matrix then holds the cells of
/// `rows` in their order.
#[verifier::external_body]
pub(crate) fn matrix_from_rows(rows: &Vec<Vec<i32>>) -> (built: Result<
    Matrix<i64>,
    MatrixFormatError,
>)
    ensures
        built is Ok <==> is_rectangular(cells_of(rows@)),
        built matches Ok(matrix) ==> matrix_cells(matrix) == cells_of(rows@),
{
    Matrix::from_rows(rows.iter().map(|row| row.iter().map(|cell| i64::from(*cell))))
}

/// `kuhn_munkres_min`, keeping the assignment and dropping the total.
///
/// The crate documents the result as a minimum-weight matching that leaves
/// no row out: every row gets a column, no column is given twice, and no
/// other such choice has a smaller sum. Among choices of equal sum the one
/// returned depends on the cells alone. The function panics when there are
/// more rows than columns, and when one of the sums it keeps overflows; with
/// 64-bit cells that hold 32-bit values these sums stay below `2^34` times
/// the number of rows, which no matrix that fits in memory can bring to
/// overflow.
#[verifier::external_body]
pub(crate) fn min_weight_matching(matrix: &Matrix<i64>) -> (assignment: Vec<usize>)
    requires
        is_rectangular(matrix_cells(*matrix)),
        matrix_cells(*matrix).len() <= width(matrix_cells(*matrix)),
        cells_fit_i32(matrix_cells(*matrix)),
    ensures
        assignment@ == kuhn_munkres_min_assignment(matrix_cells(*matrix)),
        is_matching(
            assignment@,
            matrix_cells(*matrix).len(),
            width(matrix_cells(*matrix)),
        ),
        forall|other: Seq<usize>|
            is_matching(other, matrix_cells(*matrix).len(), width(matrix_cells(*matrix)))
                ==> total_cost(matrix_cells(*matrix), assignment@) <= #[trigger] total_cost(
                matrix_cells(*matrix),
                other,
            ),
{
    kuhn_munkres_min(matrix).1
}

} // verus!
