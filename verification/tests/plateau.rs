use mars_rover::Plateau;

#[test]
fn plateau_reads_back_its_bounds() {
    let plateau = Plateau::new(5, 3);
    assert_eq!(plateau.max_x(), 5);
    assert_eq!(plateau.max_y(), 3);
}

#[test]
fn corners_and_inner_cells_are_within_bounds() {
    let plateau = Plateau::new(5, 3);
    assert!(plateau.is_within_bounds(0, 0));
    assert!(plateau.is_within_bounds(5, 3));
    assert!(plateau.is_within_bounds(5, 0));
    assert!(plateau.is_within_bounds(0, 3));
    assert!(plateau.is_within_bounds(2, 1));
}

#[test]
fn cells_past_an_edge_are_out_of_bounds() {
    let plateau = Plateau::new(5, 3);
    assert!(!plateau.is_within_bounds(6, 3));
    assert!(!plateau.is_within_bounds(5, 4));
    assert!(!plateau.is_within_bounds(6, 4));
    assert!(!plateau.is_within_bounds(4, 5));
    assert!(!plateau.is_within_bounds(i32::MAX, 0));
    assert!(!plateau.is_within_bounds(0, i32::MAX));
}

#[test]
fn negative_coordinates_are_out_of_bounds() {
    let plateau = Plateau::new(5, 3);
    assert!(!plateau.is_within_bounds(-1, 0));
    assert!(!plateau.is_within_bounds(0, -1));
    assert!(!plateau.is_within_bounds(-1, -1));
    assert!(!plateau.is_within_bounds(i32::MIN, 2));
    assert!(!plateau.is_within_bounds(2, i32::MIN));
}

#[test]
fn single_cell_plateau_holds_only_the_origin() {
    let plateau = Plateau::new(0, 0);
    assert!(plateau.is_within_bounds(0, 0));
    assert!(!plateau.is_within_bounds(1, 0));
    assert!(!plateau.is_within_bounds(0, 1));
    assert!(!plateau.is_within_bounds(-1, 0));
    assert!(!plateau.is_within_bounds(0, -1));
}

#[test]
fn largest_plateau_holds_every_cell_that_is_not_negative() {
    let plateau = Plateau::new(i32::MAX, i32::MAX);
    assert!(plateau.is_within_bounds(i32::MAX, i32::MAX));
    assert!(plateau.is_within_bounds(0, i32::MAX));
    assert!(!plateau.is_within_bounds(-1, i32::MAX));
}
