//! Linear buffer offsets for SIMT kernels.
//!
//! A thread of a data-parallel launch is identified by its coordinate inside
//! its group and by the index of that group inside the grid. This crate turns
//! that hierarchical position into one linear offset into a shared buffer and
//! proves the arithmetic behind it: the formulas, the absence of overflow, and
//! the fact that distinct threads of a launch own distinct slots.
use vstd::prelude::*;

pub mod context;
pub mod space;
pub mod flat;
pub mod projection;
pub mod launch;
pub mod view;
pub mod presence;

