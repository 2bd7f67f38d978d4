//! The decision core of a noise-field explorer: the wraparound counters that select the active
//! noise generator and visualizer, the catalog they index, the row-major sweep over the grid,
//! the grid references seen through a viewport, and the names tried for an exported drawing.

pub mod consts;
pub mod counter;
pub mod export;
pub mod grid;
pub mod mode_selector;
pub mod noise;
pub mod visualizer;
pub mod world_view;
