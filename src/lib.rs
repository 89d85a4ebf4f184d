//! Elementary (Wolfram-style) cellular automata: rule decoding, neighbourhood
//! codes, and the computation of a square grid of generations.

pub mod cell;
pub mod grid;
pub mod rule;
pub mod seed;
pub mod settings;

pub use cell::{Cell, CellState};
pub use grid::{compute_grid, neighborhood_index, next_generation, update_cell_grid, CellGrid};
pub use rule::decode_rule;
pub use seed::{fixed_seed_row, random_seed_row};
pub use settings::{CellSettings, RuleChanged};
