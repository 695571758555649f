//! Double-buffered cellular automaton: grid store, edit queue, kernels and
//! the per-frame scheduler.

pub mod utility;
pub mod packages;
pub mod bundles;
