//! A single cell of the grid and its state.
use vstd::prelude::*;

verus! {

/// Whether a cell is alive or dead.
#[derive(Clone, Copy, Debug, PartialEq, Eq, Structural)]
pub enum CellState {
    Alive,
    Dead,
}

/// One cell: its state and its place in the grid (column, row).
#[derive(Clone, Copy, Debug, PartialEq, Eq, Structural)]
pub struct Cell {
    pub state: CellState,
    pub position_x: u32,
    pub position_y: u32,
}

/// The state that stands for a boolean "alive".
pub open spec fn state_of(alive: bool) -> CellState {
    if alive {
        CellState::Alive
    } else {
        CellState::Dead
    }
}

impl CellState {
    /// Whether this state is `Alive`.
    pub fn is_alive(&self) -> (r: bool)
        ensures
            r == (*self == CellState::Alive),
    {
        match self {
            CellState::Alive => true,
            CellState::Dead => false,
        }
    }

    /// `Alive` for `true`, `Dead` for `false`.
    pub fn from_alive(alive: bool) -> (r: CellState)
        ensures
            r == state_of(alive),
    {
        if alive {
            CellState::Alive
        } else {
            CellState::Dead
        }
    }
}

} // verus!
