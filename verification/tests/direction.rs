use magent_autonomy::action::Action;
use magent_autonomy::direction::choose_action;

fn step(rel_x: f64, rel_y: f64) -> Action {
    choose_action(rel_x.to_bits(), rel_y.to_bits())
}

fn expected(rel_x: f64, rel_y: f64) -> Action {
    if rel_x.abs() < rel_y.abs() {
        if rel_y > 0.0 {
            Action::MoveUp
        } else {
            Action::MoveDown
        }
    } else if rel_x > 0.0 {
        Action::MoveRight
    } else {
        Action::MoveLeft
    }
}

#[test]
fn zero_offset_moves_left() {
    assert_eq!(step(0.0, 0.0), Action::MoveLeft);
    assert_eq!(step(-0.0, 0.0), Action::MoveLeft);
    assert_eq!(step(0.0, -0.0), Action::MoveLeft);
}

#[test]
fn longer_x_offset_moves_along_x() {
    assert_eq!(step(5.0, -2.0), Action::MoveRight);
    assert_eq!(step(5.0, 2.0), Action::MoveRight);
    assert_eq!(step(-5.0, 2.0), Action::MoveLeft);
    assert_eq!(step(-5.0, -2.0), Action::MoveLeft);
    assert_eq!(step(0.25, 0.0), Action::MoveRight);
    assert_eq!(step(-1.0e-9, 0.0), Action::MoveLeft);
}

#[test]
fn longer_y_offset_moves_along_y() {
    assert_eq!(step(2.0, 5.0), Action::MoveUp);
    assert_eq!(step(-2.0, 5.0), Action::MoveUp);
    assert_eq!(step(2.0, -5.0), Action::MoveDown);
    assert_eq!(step(-2.0, -5.0), Action::MoveDown);
    assert_eq!(step(0.0, 1.0e-9), Action::MoveUp);
    assert_eq!(step(0.0, -0.5), Action::MoveDown);
}

#[test]
fn equal_offsets_move_along_x() {
    assert_eq!(step(3.0, 3.0), Action::MoveRight);
    assert_eq!(step(3.0, -3.0), Action::MoveRight);
    assert_eq!(step(-3.0, 3.0), Action::MoveLeft);
    assert_eq!(step(-3.0, -3.0), Action::MoveLeft);
}

#[test]
fn offsets_that_are_no_numbers_move_along_x() {
    assert_eq!(step(f64::NAN, 1.0), Action::MoveLeft);
    assert_eq!(step(1.0, f64::NAN), Action::MoveRight);
    assert_eq!(step(-1.0, f64::NAN), Action::MoveLeft);
    assert_eq!(step(f64::NAN, f64::NAN), Action::MoveLeft);
}

#[test]
fn infinite_offsets_are_the_longest() {
    assert_eq!(step(f64::MAX, f64::INFINITY), Action::MoveUp);
    assert_eq!(step(f64::MAX, f64::NEG_INFINITY), Action::MoveDown);
    assert_eq!(step(f64::INFINITY, f64::MAX), Action::MoveRight);
    assert_eq!(step(f64::NEG_INFINITY, f64::INFINITY), Action::MoveLeft);
}

#[test]
fn choose_action_agrees_with_floating_point_comparisons() {
    let values = [
        0.0,
        -0.0,
        5.0e-324,
        -5.0e-324,
        0.3,
        -0.3,
        1.0,
        -1.0,
        2.5,
        -2.5,
        1.0e12,
        -1.0e12,
        f64::MAX,
        f64::INFINITY,
        f64::NEG_INFINITY,
        f64::NAN,
    ];
    for rel_x in values {
        for rel_y in values {
            let action = step(rel_x, rel_y);
            assert_eq!(action, expected(rel_x, rel_y));
            assert_ne!(action, Action::NoAction);
            if rel_x.abs() > rel_y.abs() {
                assert_eq!(action == Action::MoveLeft, rel_x <= 0.0);
                assert_eq!(action == Action::MoveRight, rel_x > 0.0);
            }
            if rel_y.abs() > rel_x.abs() {
                assert_eq!(action == Action::MoveDown, rel_y <= 0.0);
                assert_eq!(action == Action::MoveUp, rel_y > 0.0);
            }
        }
    }
}
