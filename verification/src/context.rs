//! The position of one thread inside a launch, as plain register values.
use vstd::prelude::*;

verus! {

/// One 32-bit value per axis, as the hardware's special registers hold them.
#[derive(Clone, Copy, Debug, PartialEq, Eq, Structural)]
pub struct Dim3 {
    pub x: u32,
    pub y: u32,
    pub z: u32,
}

impl Dim3 {
    /// Builds a triple from its three components.
    pub fn new(x: u32, y: u32, z: u32) -> (d: Dim3)
        ensures
            d.x == x,
            d.y == y,
            d.z == z,
    {
        Dim3 { x, y, z }
    }

    /// Every component lies strictly below the matching component of `bound`.
    pub open spec fn within(self, bound: Dim3) -> bool {
        self.x < bound.x && self.y < bound.y && self.z < bound.z
    }
}

/// Everything a thread can learn about where it runs: its coordinate inside
/// its group, the extent of a group, the index of its group inside the grid
/// and the number of groups in the grid.
///
/// All four triples are read at one moment for one thread; a value of this
/// type is that snapshot, so the queries made against it always describe the
/// same execution context.
#[derive(Clone, Copy, Debug, PartialEq, Eq, Structural)]
pub struct ThreadContext {
    pub thread_idx: Dim3,
    pub block_dim: Dim3,
    pub block_idx: Dim3,
    pub grid_dim: Dim3,
}

impl ThreadContext {
    /// Takes a snapshot from the four register triples.
    pub fn new(thread_idx: Dim3, block_dim: Dim3, block_idx: Dim3, grid_dim: Dim3) -> (ctx:
        ThreadContext)
        ensures
            ctx.thread_idx == thread_idx,
            ctx.block_dim == block_dim,
            ctx.block_idx == block_idx,
            ctx.grid_dim == grid_dim,
    {
        ThreadContext { thread_idx, block_dim, block_idx, grid_dim }
    }

    /// The snapshot is one that a launch can produce: along every axis the
    /// thread lies inside its group and the group lies inside the grid.
    pub open spec fn valid_launch(self) -> bool {
        self.thread_idx.within(self.block_dim) && self.block_idx.within(self.grid_dim)
    }

    /// Tells whether the snapshot is one that a launch can produce.
    pub fn is_valid_launch(&self) -> (r: bool)
        ensures
            r == self.valid_launch(),
    {
        self.thread_idx.x < self.block_dim.x && self.thread_idx.y < self.block_dim.y
            && self.thread_idx.z < self.block_dim.z && self.block_idx.x < self.grid_dim.x
            && self.block_idx.y < self.grid_dim.y && self.block_idx.z < self.grid_dim.z
    }
}

} // verus!
