use game_of_life::GameState;
use game_of_life::Grid;
use game_of_life::SimError;
use game_of_life::State;

fn snapshot(g: &Grid) -> Vec<Vec<bool>> {
    let (w, h) = g.dimensions();
    let mut columns = Vec::new();
    for x in 0..w {
        let mut column = Vec::new();
        for y in 0..h {
            column.push(g.get(x, y).unwrap());
        }
        columns.push(column);
    }
    columns
}

fn live_positions(g: &Grid) -> Vec<(usize, usize)> {
    let (w, h) = g.dimensions();
    let mut live = Vec::new();
    for x in 0..w {
        for y in 0..h {
            if g.get(x, y).unwrap() {
                live.push((x, y));
            }
        }
    }
    live
}

fn running_10x10() -> GameState {
    GameState::new(10, 10, 20, State::Running).unwrap()
}

#[test]
fn new_rejects_zero_dimension() {
    assert_eq!(
        GameState::new(0, 10, 20, State::Running).unwrap_err(),
        SimError::InvalidDimension
    );
    assert_eq!(
        GameState::new(10, 0, 20, State::Pause).unwrap_err(),
        SimError::InvalidDimension
    );
}

#[test]
fn new_starts_at_generation_zero() {
    let gs = GameState::new(10, 10, 20, State::Pause).unwrap();
    assert_eq!(gs.generation(), 0);
    assert_eq!(gs.state, State::Pause);
    assert_eq!(gs.target_fps, 20);
    assert!(live_positions(gs.grid()).is_empty());
}

#[test]
fn tick_increments_generation_by_one() {
    let mut gs = running_10x10();
    gs.tick();
    assert_eq!(gs.generation(), 1);
    gs.tick();
    assert_eq!(gs.generation(), 2);
}

#[test]
fn paused_tick_changes_nothing() {
    let mut gs = running_10x10();
    gs.grid.set(4, 4, true).unwrap();
    gs.grid.set(5, 4, true).unwrap();
    gs.pause_play();
    assert_eq!(gs.state, State::Pause);
    let before = snapshot(gs.grid());
    gs.tick();
    assert_eq!(gs.generation(), 0);
    assert_eq!(snapshot(gs.grid()), before);
}

#[test]
fn toggle_pause_twice_restores_state() {
    let mut gs = running_10x10();
    gs.grid.set(3, 3, true).unwrap();
    let before = snapshot(gs.grid());
    gs.pause_play();
    assert_eq!(gs.state, State::Pause);
    gs.pause_play();
    assert_eq!(gs.state, State::Running);
    assert_eq!(gs.generation(), 0);
    assert_eq!(snapshot(gs.grid()), before);
}

#[test]
fn block_is_still_life() {
    let mut gs = running_10x10();
    for (x, y) in [(4, 4), (5, 4), (4, 5), (5, 5)] {
        gs.grid.set(x, y, true).unwrap();
    }
    let before = snapshot(gs.grid());
    for _ in 0..5 {
        gs.tick();
        assert_eq!(snapshot(gs.grid()), before);
    }
    assert_eq!(gs.generation(), 5);
}

#[test]
fn blinker_oscillates_period_two() {
    let mut gs = running_10x10();
    for (x, y) in [(4, 5), (5, 5), (6, 5)] {
        gs.grid.set(x, y, true).unwrap();
    }
    let horizontal = snapshot(gs.grid());
    gs.tick();
    let mut vertical = live_positions(gs.grid());
    vertical.sort();
    assert_eq!(vertical, vec![(5, 4), (5, 5), (5, 6)]);
    gs.tick();
    assert_eq!(snapshot(gs.grid()), horizontal);
}

#[test]
fn corner_cell_never_counted() {
    let mut gs = GameState::new(3, 3, 20, State::Running).unwrap();
    gs.grid.set(0, 0, true).unwrap();
    gs.tick();
    assert!(live_positions(gs.grid()).is_empty());
    assert_eq!(gs.generation(), 1);
}

#[test]
fn max_edge_cells_are_counted() {
    // A block touching the far column and row survives: positions on the
    // last grid line do contribute to their neighbours' counts.
    let mut gs = GameState::new(5, 5, 20, State::Running).unwrap();
    for (x, y) in [(3, 3), (4, 3), (3, 4), (4, 4)] {
        gs.grid.set(x, y, true).unwrap();
    }
    let before = snapshot(gs.grid());
    gs.tick();
    assert_eq!(snapshot(gs.grid()), before);
}

#[test]
fn column_zero_cells_never_contribute() {
    // A block placed against column 0 decays: the two cells on column 0 are
    // never counted, so cells (1, 2) and (1, 3) each see only one live
    // neighbour and die. The column-0 cells themselves see the two counted
    // cells on column 1 and survive one tick — then starve.
    let mut gs = GameState::new(5, 5, 20, State::Running).unwrap();
    for (x, y) in [(0, 2), (1, 2), (0, 3), (1, 3)] {
        gs.grid.set(x, y, true).unwrap();
    }
    gs.tick();
    let mut live = live_positions(gs.grid());
    live.sort();
    assert_eq!(live, vec![(0, 2), (0, 3)]);
    gs.tick();
    assert_eq!(live_positions(gs.grid()), Vec::<(usize, usize)>::new());
}

#[test]
fn lone_cell_dies_and_generation_advances() {
    let mut gs = running_10x10();
    gs.grid.set(5, 5, true).unwrap();
    gs.tick();
    assert!(live_positions(gs.grid()).is_empty());
    assert_eq!(gs.generation(), 1);
}

#[test]
fn clear_grid_kills_all_cells() {
    let mut gs = running_10x10();
    for (x, y) in [(0, 0), (4, 4), (9, 9)] {
        gs.grid.set(x, y, true).unwrap();
    }
    gs.tick();
    gs.clear_grid();
    assert!(live_positions(gs.grid()).is_empty());
    assert_eq!(gs.generation(), 1);
    assert_eq!(gs.state, State::Running);
}

#[test]
fn reseed_resets_generation_and_stays_interior() {
    let mut gs = running_10x10();
    gs.grid.set(0, 0, true).unwrap();
    gs.grid.set(9, 9, true).unwrap();
    gs.tick();
    gs.tick();
    gs.reset_and_reseed(30).unwrap();
    assert_eq!(gs.generation(), 0);
    let live = live_positions(gs.grid());
    assert!(!live.is_empty());
    assert!(live.len() <= 30);
    for (x, y) in live {
        assert!(1 <= x && x < 9, "live cell off the interior: ({}, {})", x, y);
        assert!(1 <= y && y < 9, "live cell off the interior: ({}, {})", x, y);
    }
    assert_eq!(gs.state, State::Running);
}

#[test]
fn reseed_rejects_tiny_grid() {
    let mut gs = GameState::new(2, 8, 20, State::Running).unwrap();
    gs.tick();
    assert_eq!(gs.reset_and_reseed(5).unwrap_err(), SimError::InvalidArgument);
    assert_eq!(gs.generation(), 1);
    let mut narrow = GameState::new(8, 2, 20, State::Running).unwrap();
    assert_eq!(narrow.reset_and_reseed(5).unwrap_err(), SimError::InvalidArgument);
}

#[test]
fn reseed_zero_leaves_grid_dead() {
    let mut gs = running_10x10();
    gs.grid.set(5, 5, true).unwrap();
    gs.reset_and_reseed(0).unwrap();
    assert!(live_positions(gs.grid()).is_empty());
    assert_eq!(gs.generation(), 0);
}

#[test]
fn reseed_hits_the_single_interior_cell() {
    // On a 3x3 grid the interior is the lone cell (1, 1): every random draw
    // must land there.
    let mut gs = GameState::new(3, 3, 20, State::Running).unwrap();
    gs.reset_and_reseed(7).unwrap();
    assert_eq!(live_positions(gs.grid()), vec![(1, 1)]);
}

#[test]
fn reseed_spreads_over_interior() {
    // 200 draws over an 8x8 interior: more than one distinct cell comes up,
    // so the seeder really consults its random source.
    let mut gs = running_10x10();
    gs.reset_and_reseed(200).unwrap();
    assert!(live_positions(gs.grid()).len() >= 2);
}
