use magent_autonomy::assignment::get_target_assignments;
use magent_autonomy::error::Error;

const PERMUTATIONS: [[usize; 3]; 6] =
    [[0, 1, 2], [0, 2, 1], [1, 0, 2], [1, 2, 0], [2, 0, 1], [2, 1, 0]];

fn total(costs: &Vec<Vec<i32>>, assignment: &[usize]) -> i64 {
    assignment.iter().enumerate().map(|(row, column)| i64::from(costs[row][*column])).sum()
}

fn assert_optimal_bijection(costs: &Vec<Vec<i32>>) {
    let assignment = get_target_assignments(costs).unwrap();
    assert_eq!(assignment.len(), 3);
    for column in 0..3 {
        assert_eq!(assignment.iter().filter(|c| **c == column).count(), 1);
    }
    let found = total(costs, &assignment);
    for permutation in PERMUTATIONS {
        assert!(found <= total(costs, &permutation));
    }
}

fn next(state: &mut u64) -> u64 {
    *state = state.wrapping_mul(6364136223846793005).wrapping_add(1442695040888963407);
    *state >> 33
}

#[test]
fn unique_optimum_is_found() {
    let costs = vec![vec![1, 2, 3], vec![2, 4, 6], vec![3, 6, 9]];
    assert_eq!(get_target_assignments(&costs), Ok(vec![2, 1, 0]));
}

#[test]
fn gallery_example_minimised() {
    let costs = vec![vec![100, 110, 90], vec![95, 130, 75], vec![95, 140, 65]];
    let assignment = get_target_assignments(&costs).unwrap();
    assert_eq!(assignment, vec![1, 0, 2]);
    assert_eq!(total(&costs, &assignment), 270);
    assert_optimal_bijection(&costs);
}

#[test]
fn conflict_between_two_agents_is_resolved_for_the_team() {
    let costs =
        vec![vec![1000, 3000, 10000], vec![1000, 5000, 10198], vec![9055, 9486, 1000]];
    assert_eq!(get_target_assignments(&costs), Ok(vec![1, 0, 2]));
}

#[test]
fn equal_costs_keep_the_rows_in_order() {
    let costs = vec![vec![0, 0, 0], vec![0, 0, 0], vec![0, 0, 0]];
    assert_eq!(get_target_assignments(&costs), Ok(vec![0, 1, 2]));
    let costs = vec![vec![7, 7, 7], vec![7, 7, 7], vec![7, 7, 7]];
    assert_eq!(get_target_assignments(&costs), Ok(vec![0, 1, 2]));
}

#[test]
fn same_table_gives_the_same_answer() {
    let costs = vec![vec![4, 4, 9], vec![4, 4, 9], vec![1, 8, 8]];
    let first = get_target_assignments(&costs);
    let second = get_target_assignments(&costs.clone());
    assert_eq!(first, second);
    assert_optimal_bijection(&costs);
}

#[test]
fn every_column_is_used_exactly_once() {
    let tables = [
        vec![vec![0, 0, 0], vec![0, 0, 0], vec![0, 0, 0]],
        vec![vec![1, 1, 1], vec![1, 1, 2], vec![1, 2, 3]],
        vec![vec![5, 1, 1], vec![1, 5, 1], vec![1, 1, 5]],
        vec![vec![9, 8, 7], vec![6, 5, 4], vec![3, 2, 1]],
    ];
    for costs in tables {
        let mut assignment = get_target_assignments(&costs).unwrap();
        assignment.sort();
        assert_eq!(assignment, vec![0, 1, 2]);
    }
}

#[test]
fn no_permutation_beats_the_answer() {
    let mut state = 0x2545_f491_4f6c_dd1d_u64;
    for _ in 0..500 {
        let mut costs = Vec::new();
        for _ in 0..3 {
            let mut row = Vec::new();
            for _ in 0..3 {
                row.push((next(&mut state) % 2000) as i32);
            }
            costs.push(row);
        }
        assert_optimal_bijection(&costs);
    }
}

#[test]
fn no_permutation_beats_the_answer_with_many_ties() {
    let mut state = 0x9e37_79b9_7f4a_7c15_u64;
    for _ in 0..500 {
        let mut costs = Vec::new();
        for _ in 0..3 {
            let mut row = Vec::new();
            for _ in 0..3 {
                row.push((next(&mut state) % 3) as i32);
            }
            costs.push(row);
        }
        assert_optimal_bijection(&costs);
    }
}

#[test]
fn extreme_costs_do_not_overflow() {
    let max = i32::MAX;
    let min = i32::MIN;
    let tables = [
        vec![vec![max, max, max], vec![max, max, max], vec![max, max, max]],
        vec![vec![max, 0, max], vec![0, max, max], vec![max, max, 0]],
        vec![vec![min, max, max], vec![max, min, 0], vec![0, max, min]],
        vec![vec![min, min, min], vec![min, min, min], vec![min, min, min]],
        vec![vec![max, min, 0], vec![min, 0, max], vec![0, max, min]],
    ];
    for costs in tables {
        assert_optimal_bijection(&costs);
    }
    let costs = vec![vec![max, 0, max], vec![0, max, max], vec![max, max, 0]];
    assert_eq!(get_target_assignments(&costs), Ok(vec![1, 0, 2]));
}

#[test]
fn other_square_sizes_are_solved() {
    assert_eq!(get_target_assignments(&Vec::new()), Ok(Vec::new()));
    assert_eq!(get_target_assignments(&vec![vec![42]]), Ok(vec![0]));
    assert_eq!(get_target_assignments(&vec![vec![5, 1], vec![1, 5]]), Ok(vec![1, 0]));
    let costs = vec![
        vec![10, 1, 10, 10],
        vec![10, 10, 10, 1],
        vec![1, 10, 10, 10],
        vec![10, 10, 1, 10],
    ];
    assert_eq!(get_target_assignments(&costs), Ok(vec![1, 3, 0, 2]));
}

#[test]
fn tables_that_are_not_square_are_turned_down() {
    let wide = vec![vec![1, 2, 3], vec![4, 5, 6]];
    assert_eq!(get_target_assignments(&wide), Err(Error::ShapeError));
    let tall = vec![vec![1, 2], vec![3, 4], vec![5, 6]];
    assert_eq!(get_target_assignments(&tall), Err(Error::ShapeError));
    let ragged = vec![vec![1, 2, 3], vec![4, 5], vec![6, 7, 8]];
    assert_eq!(get_target_assignments(&ragged), Err(Error::ShapeError));
    let ragged_same_count = vec![vec![1, 2, 3, 4], vec![5, 6], vec![7, 8, 9]];
    assert_eq!(get_target_assignments(&ragged_same_count), Err(Error::ShapeError));
    let empty_row = vec![Vec::new()];
    assert_eq!(get_target_assignments(&empty_row), Err(Error::ShapeError));
    let empty_rows = vec![Vec::new(), Vec::new()];
    assert_eq!(get_target_assignments(&empty_rows), Err(Error::ShapeError));
    let first_row_empty = vec![Vec::new(), vec![1, 2]];
    assert_eq!(get_target_assignments(&first_row_empty), Err(Error::ShapeError));
}
