//! The state that the passes work on: the grid, the clock and the inputs.

pub mod automata_package;
pub mod input_manager_package;
pub mod time_package;
