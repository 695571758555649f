//! The parts that are put together per simulation.

pub mod automata;
