//! The visualizers that can draw the grid, addressed by a stable index.

use vstd::prelude::*;

verus! {

/// How many visualizers there are.
pub const VISUALIZER_COUNT: usize = 2;

/// A way of drawing the grid.
#[derive(Clone, Copy, Debug, PartialEq, Eq, Structural)]
pub enum VisualizerKind {
    /// One oriented line segment per cell.
    LineSegments,
    /// One circle per cell.
    Circles,
}

/// The visualizer registered at `index`.
pub open spec fn visualizer_kind_at(index: int) -> VisualizerKind
    recommends
        0 <= index < VISUALIZER_COUNT,
{
    if index == 0 {
        VisualizerKind::LineSegments
    } else {
        VisualizerKind::Circles
    }
}

impl VisualizerKind {
    /// The index that the visualizer is registered at.
    pub open spec fn spec_index(self) -> int {
        match self {
            VisualizerKind::LineSegments => 0,
            VisualizerKind::Circles => 1,
        }
    }

    /// The index that the visualizer is registered at.
    pub fn index(self) -> (index: usize)
        ensures
            index == self.spec_index(),
            index < VISUALIZER_COUNT,
    {
        match self {
            VisualizerKind::LineSegments => 0,
            VisualizerKind::Circles => 1,
        }
    }

    /// Picks the visualizer to build for an index.
    pub fn from_index(index: usize) -> (kind: VisualizerKind)
        requires
            index < VISUALIZER_COUNT,
        ensures
            kind == visualizer_kind_at(index as int),
            kind.spec_index() == index,
    {
        match index {
            0 => VisualizerKind::LineSegments,
            _ => VisualizerKind::Circles,
        }
    }
}

/// The index and the visualizer determine each other.
pub proof fn lemma_visualizer_index_is_stable(index: int, kind: VisualizerKind)
    ensures
        0 <= kind.spec_index() < VISUALIZER_COUNT,
        visualizer_kind_at(kind.spec_index()) == kind,
        0 <= index < VISUALIZER_COUNT ==> visualizer_kind_at(index).spec_index() == index,
{
}

} // verus!
