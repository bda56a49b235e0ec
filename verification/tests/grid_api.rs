use game_of_life::Grid;
use game_of_life::SimError;

#[test]
fn create_makes_all_dead_grid() {
    let g = Grid::create(4, 3).unwrap();
    assert_eq!(g.dimensions(), (4, 3));
    for x in 0..4 {
        for y in 0..3 {
            assert_eq!(g.get(x, y).unwrap(), false);
        }
    }
}

#[test]
fn create_rejects_zero_dimensions() {
    assert_eq!(Grid::create(0, 5).unwrap_err(), SimError::InvalidDimension);
    assert_eq!(Grid::create(5, 0).unwrap_err(), SimError::InvalidDimension);
    assert_eq!(Grid::create(0, 0).unwrap_err(), SimError::InvalidDimension);
}

#[test]
fn get_and_set_are_bounds_checked() {
    let mut g = Grid::create(3, 3).unwrap();
    assert_eq!(g.get(3, 0).unwrap_err(), SimError::OutOfBounds);
    assert_eq!(g.get(0, 3).unwrap_err(), SimError::OutOfBounds);
    assert_eq!(g.set(3, 0, true).unwrap_err(), SimError::OutOfBounds);
    assert_eq!(g.set(0, 3, true).unwrap_err(), SimError::OutOfBounds);
    assert!(g.set(2, 2, true).is_ok());
    assert_eq!(g.get(2, 2).unwrap(), true);
}

#[test]
fn set_changes_only_the_one_cell() {
    let mut g = Grid::create(5, 5).unwrap();
    g.set(2, 3, true).unwrap();
    for x in 0..5 {
        for y in 0..5 {
            let expect = x == 2 && y == 3;
            assert_eq!(g.get(x, y).unwrap(), expect);
        }
    }
    g.set(2, 3, false).unwrap();
    for x in 0..5 {
        for y in 0..5 {
            assert_eq!(g.get(x, y).unwrap(), false);
        }
    }
}
