//! A bounded Game-of-Life simulation engine: a dense two-dimensional grid of
//! boolean cell states, the per-generation transition rule, random seeding of
//! the grid interior, and run/pause control.

pub mod engine;
pub mod grid;
pub mod laws;
pub mod seeder;
pub mod state;

pub use grid::Grid;
pub use grid::SimError;
pub use state::GameState;
pub use state::State;
