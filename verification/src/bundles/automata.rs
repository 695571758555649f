//! The cellular automaton: its edit queue, its kernels and the per-frame
//! schedule that drives them.

pub mod automata_bundle;
pub mod automata_compute_pipeline;
pub mod automata_queue_compute_pipeline;
