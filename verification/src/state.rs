//! The simulation controller: owns the grid, the generation counter, the
//! tick rate and the run/pause state, and advances or reseeds them in
//! response to the host's tick and command events.

use vstd::prelude::*;

use crate::engine;
use crate::grid::Grid;
use crate::grid::SimError;
use crate::grid::all_dead;
use crate::grid::lemma_all_dead_live_count;
use crate::grid::live_count;
use crate::seeder;
use crate::seeder::in_interior;

verus! {

/// The run/pause state of the simulation.
#[derive(Clone, Copy, Debug, PartialEq, Eq, Structural)]
pub enum State {
    Running,
    Pause,
}

/// The run state after one pause toggle.
pub open spec fn toggled(s: State) -> State {
    match s {
        State::Running => State::Pause,
        State::Pause => State::Running,
    }
}

/// The whole simulation: grid, generation counter, tick rate and run state.
#[derive(Debug)]
pub struct GameState {
    pub grid: Grid,
    /// Completed transitions since start or since the last reseed.
    pub generation: usize,
    /// Ticks per unit time; consumed by the host's clock, not enforced here.
    pub target_fps: u32,
    pub state: State,
}

/// The controller state after one pause toggle: only the run state flips.
pub open spec fn after_toggle(gs: GameState) -> GameState {
    GameState { state: toggled(gs.state), ..gs }
}

impl GameState {
    /// The controller's structural invariant: its grid is well-formed.
    pub open spec fn wf(&self) -> bool {
        self.grid.wf()
    }

    /// Builds a simulation over an all-dead `width x height` grid with
    /// generation 0 and the given initial run state. Returns
    /// `InvalidDimension` when either dimension is zero.
    pub fn new(width: usize, height: usize, target_fps: u32, state: State) -> (r: Result<
        GameState,
        SimError,
    >)
        requires
            target_fps >= 1,
        ensures
            r is Ok <==> (width > 0 && height > 0),
            r is Ok ==> {
                let gs = r->Ok_0;
                &&& gs.wf()
                &&& gs.grid.width == width
                &&& gs.grid.height == height
                &&& all_dead(gs.grid@)
                &&& gs.generation == 0
                &&& gs.target_fps == target_fps
                &&& gs.state == state
            },
            r is Err ==> r->Err_0 == SimError::InvalidDimension,
    {
        match Grid::create(width, height) {
            Ok(grid) => Ok(GameState { grid, generation: 0, target_fps, state }),
            Err(e) => Err(e),
        }
    }

    /// Replaces the grid with its next generation under the transition rule,
    /// every cell judged against the same snapshot. Nothing else changes —
    /// in particular not the generation counter.
    pub fn update_grid_state(&mut self)
        requires
            old(self).wf(),
        ensures
            final(self).wf(),
            final(self).grid.width == old(self).grid.width,
            final(self).grid.height == old(self).grid.height,
            final(self).grid@ == engine::step(
                old(self).grid@,
                old(self).grid.width as int,
                old(self).grid.height as int,
            ),
            final(self).generation == old(self).generation,
            final(self).target_fps == old(self).target_fps,
            final(self).state == old(self).state,
    {
        let next = engine::next_generation(&self.grid);
        self.grid = next;
    }

    /// One host clock tick. When running: advance the grid one generation
    /// and increment the generation counter by exactly 1. When paused:
    /// change nothing at all.
    pub fn tick(&mut self)
        requires
            old(self).wf(),
            old(self).state == State::Running ==> old(self).generation < usize::MAX,
        ensures
            final(self).wf(),
            old(self).state == State::Running ==> {
                &&& final(self).grid.width == old(self).grid.width
                &&& final(self).grid.height == old(self).grid.height
                &&& final(self).grid@ == engine::step(
                    old(self).grid@,
                    old(self).grid.width as int,
                    old(self).grid.height as int,
                )
                &&& final(self).generation == old(self).generation + 1
                &&& final(self).target_fps == old(self).target_fps
                &&& final(self).state == old(self).state
            },
            old(self).state == State::Pause ==> *final(self) == *old(self),
    {
        match self.state {
            State::Running => {
                self.update_grid_state();
                self.generation = self.generation + 1;
            },
            State::Pause => {},
        }
    }

    /// Flips the run state; the grid, the generation counter and the tick
    /// rate are untouched.
    pub fn pause_play(&mut self)
        ensures
            *final(self) == after_toggle(*old(self)),
    {
        match self.state {
            State::Running => self.state = State::Pause,
            State::Pause => self.state = State::Running,
        }
    }

    /// Rebuilds the grid all dead, with the same dimensions; the generation
    /// counter, the tick rate and the run state are untouched.
    pub fn clear_grid(&mut self)
        requires
            old(self).wf(),
        ensures
            final(self).wf(),
            final(self).grid.width == old(self).grid.width,
            final(self).grid.height == old(self).grid.height,
            all_dead(final(self).grid@),
            final(self).generation == old(self).generation,
            final(self).target_fps == old(self).target_fps,
            final(self).state == old(self).state,
    {
        seeder::clear(&mut self.grid);
    }

    /// Clears the grid, places `count` random live cells in its interior and
    /// resets the generation counter to 0; the run state and the tick rate
    /// are untouched. Returns `InvalidArgument` — and changes nothing — exactly
    /// when the interior is empty, that is when width or height is at most 2.
    pub fn reset_and_reseed(&mut self, count: u32) -> (r: Result<(), SimError>)
        requires
            old(self).wf(),
        ensures
            final(self).wf(),
            final(self).grid.width == old(self).grid.width,
            final(self).grid.height == old(self).grid.height,
            final(self).target_fps == old(self).target_fps,
            final(self).state == old(self).state,
            r is Ok <==> (old(self).grid.width > 2 && old(self).grid.height > 2),
            r is Err ==> *final(self) == *old(self) && r->Err_0 == SimError::InvalidArgument,
            r is Ok ==> {
                &&& final(self).generation == 0
                &&& live_count(final(self).grid@) <= count
                &&& (count >= 1 ==> live_count(final(self).grid@) >= 1)
                &&& forall|x: int, y: int|
                    0 <= x < old(self).grid.width && 0 <= y < old(self).grid.height
                        && #[trigger] final(self).grid@[x][y] ==> in_interior(
                        old(self).grid.width as int,
                        old(self).grid.height as int,
                        x,
                        y,
                    )
            },
    {
        if self.grid.width <= 2 || self.grid.height <= 2 {
            return Err(SimError::InvalidArgument);
        }
        seeder::clear(&mut self.grid);
        proof {
            lemma_all_dead_live_count(self.grid@);
        }
        match seeder::random_fill(&mut self.grid, count) {
            Ok(_) => {
                self.generation = 0;
                Ok(())
            },
            Err(_) => {
                proof {
                    assert(false);
                }
                Err(SimError::InvalidArgument)
            },
        }
    }

    /// A borrowed view of the grid, for the host to render.
    pub fn grid(&self) -> (r: &Grid)
        ensures
            *r == self.grid,
    {
        &self.grid
    }

    /// The number of completed transitions since start or last reseed.
    pub fn generation(&self) -> (r: usize)
        ensures
            r == self.generation,
    {
        self.generation
    }
}

} // verus!
