use editor_core::position::Position;

#[test]
fn substract_takes_componentwise_difference() {
    let a = Position { row: 7, col: 5 };
    let b = Position { row: 2, col: 4 };
    let d = a.substract(&b);
    assert_eq!((d.row, d.col), (5, 1));
}

#[test]
fn substract_saturates_at_zero() {
    let a = Position { row: 1, col: 3 };
    let b = Position { row: 4, col: 9 };
    let d = a.substract(&b);
    assert_eq!((d.row, d.col), (0, 0));
}

#[test]
fn default_is_origin() {
    let p = Position::default();
    assert_eq!((p.row, p.col), (0, 0));
}
