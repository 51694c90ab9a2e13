//! The two addressing modes: relative to the thread's own group, or to the
//! whole grid.
use vstd::prelude::*;
use crate::context::ThreadContext;

verus! {

/// An addressing mode: where a thread stands along each axis, and how far
/// each axis reaches.
pub trait Space {
    /// The thread's coordinate along X, as a number.
    spec fn coord_x(ctx: ThreadContext) -> nat;

    /// The thread's coordinate along Y, as a number.
    spec fn coord_y(ctx: ThreadContext) -> nat;

    /// The thread's coordinate along Z, as a number.
    spec fn coord_z(ctx: ThreadContext) -> nat;

    /// How far X reaches, as a number.
    spec fn extent_x(ctx: ThreadContext) -> nat;

    /// How far Y reaches, as a number.
    spec fn extent_y(ctx: ThreadContext) -> nat;

    /// How far Z reaches, as a number.
    spec fn extent_z(ctx: ThreadContext) -> nat;

    /// Every value that a space shows fits in 64 bits.
    proof fn lemma_fits_64_bits(ctx: ThreadContext)
        ensures
            Self::coord_x(ctx) <= u64::MAX,
            Self::coord_y(ctx) <= u64::MAX,
            Self::coord_z(ctx) <= u64::MAX,
            Self::extent_x(ctx) <= u64::MAX,
            Self::extent_y(ctx) <= u64::MAX,
            Self::extent_z(ctx) <= u64::MAX,
    ;

    /// The thread's coordinate along X.
    fn index_x(ctx: &ThreadContext) -> (r: u64)
        ensures
            r == Self::coord_x(*ctx),
    ;

    /// The thread's coordinate along Y.
    fn index_y(ctx: &ThreadContext) -> (r: u64)
        ensures
            r == Self::coord_y(*ctx),
    ;

    /// The thread's coordinate along Z.
    fn index_z(ctx: &ThreadContext) -> (r: u64)
        ensures
            r == Self::coord_z(*ctx),
    ;

    /// The number of coordinates along X.
    fn size_x(ctx: &ThreadContext) -> (r: u64)
        ensures
            r == Self::extent_x(*ctx),
    ;

    /// The number of coordinates along Y.
    fn size_y(ctx: &ThreadContext) -> (r: u64)
        ensures
            r == Self::extent_y(*ctx),
    ;

    /// The number of coordinates along Z.
    fn size_z(ctx: &ThreadContext) -> (r: u64)
        ensures
            r == Self::extent_z(*ctx),
    ;
}

/// Coordinates and extents relative to the thread's own group.
pub struct BlockSpace;

impl Space for BlockSpace {
    open spec fn coord_x(ctx: ThreadContext) -> nat {
        ctx.thread_idx.x as nat
    }

    open spec fn coord_y(ctx: ThreadContext) -> nat {
        ctx.thread_idx.y as nat
    }

    open spec fn coord_z(ctx: ThreadContext) -> nat {
        ctx.thread_idx.z as nat
    }

    open spec fn extent_x(ctx: ThreadContext) -> nat {
        ctx.block_dim.x as nat
    }

    open spec fn extent_y(ctx: ThreadContext) -> nat {
        ctx.block_dim.y as nat
    }

    open spec fn extent_z(ctx: ThreadContext) -> nat {
        ctx.block_dim.z as nat
    }

    proof fn lemma_fits_64_bits(ctx: ThreadContext) {
    }

    fn index_x(ctx: &ThreadContext) -> (r: u64)
        ensures
            r == ctx.thread_idx.x,
    {
        ctx.thread_idx.x as u64
    }

    fn index_y(ctx: &ThreadContext) -> (r: u64)
        ensures
            r == ctx.thread_idx.y,
    {
        ctx.thread_idx.y as u64
    }

    fn index_z(ctx: &ThreadContext) -> (r: u64)
        ensures
            r == ctx.thread_idx.z,
    {
        ctx.thread_idx.z as u64
    }

    fn size_x(ctx: &ThreadContext) -> (r: u64)
        ensures
            r == ctx.block_dim.x,
    {
        ctx.block_dim.x as u64
    }

    fn size_y(ctx: &ThreadContext) -> (r: u64)
        ensures
            r == ctx.block_dim.y,
    {
        ctx.block_dim.y as u64
    }

    fn size_z(ctx: &ThreadContext) -> (r: u64)
        ensures
            r == ctx.block_dim.z,
    {
        ctx.block_dim.z as u64
    }
}

/// The offset of a group's first thread plus the thread's place in the group,
/// `t + g * b`, stays below `2^64` for 32-bit values, in whichever order the
/// product is formed.
pub proof fn lemma_global_coord_fits(t: u32, g: u32, b: u32)
    ensures
        t + g * b <= u64::MAX,
        t + b * g == t + g * b,
{
    assert(g * b <= 0xffff_ffff * 0xffff_ffff) by (nonlinear_arith)
        requires
            g <= 0xffff_ffff,
            b <= 0xffff_ffff,
    ;
    assert(b * g == g * b) by (nonlinear_arith);
}

/// The extent of the whole grid along one axis: `b * n`, which stays below
/// `2^64` for 32-bit factors.
pub proof fn lemma_global_extent_fits(b: u32, n: u32)
    ensures
        b * n <= u64::MAX,
{
    assert(b * n <= 0xffff_ffff * 0xffff_ffff) by (nonlinear_arith)
        requires
            b <= 0xffff_ffff,
            n <= 0xffff_ffff,
    ;
}

/// Coordinates and extents relative to the whole grid.
pub struct GlobalSpace;

impl Space for GlobalSpace {
    open spec fn coord_x(ctx: ThreadContext) -> nat {
        (ctx.thread_idx.x + ctx.block_idx.x * ctx.block_dim.x) as nat
    }

    open spec fn coord_y(ctx: ThreadContext) -> nat {
        (ctx.thread_idx.y + ctx.block_idx.y * ctx.block_dim.y) as nat
    }

    open spec fn coord_z(ctx: ThreadContext) -> nat {
        (ctx.thread_idx.z + ctx.block_idx.z * ctx.block_dim.z) as nat
    }

    open spec fn extent_x(ctx: ThreadContext) -> nat {
        (ctx.block_dim.x * ctx.grid_dim.x) as nat
    }

    open spec fn extent_y(ctx: ThreadContext) -> nat {
        (ctx.block_dim.y * ctx.grid_dim.y) as nat
    }

    open spec fn extent_z(ctx: ThreadContext) -> nat {
        (ctx.block_dim.z * ctx.grid_dim.z) as nat
    }

    proof fn lemma_fits_64_bits(ctx: ThreadContext) {
        lemma_global_coord_fits(ctx.thread_idx.x, ctx.block_idx.x, ctx.block_dim.x);
        lemma_global_coord_fits(ctx.thread_idx.y, ctx.block_idx.y, ctx.block_dim.y);
        lemma_global_coord_fits(ctx.thread_idx.z, ctx.block_idx.z, ctx.block_dim.z);
        lemma_global_extent_fits(ctx.block_dim.x, ctx.grid_dim.x);
        lemma_global_extent_fits(ctx.block_dim.y, ctx.grid_dim.y);
        lemma_global_extent_fits(ctx.block_dim.z, ctx.grid_dim.z);
    }

    fn index_x(ctx: &ThreadContext) -> (r: u64)
        ensures
            r == ctx.thread_idx.x + ctx.block_idx.x * ctx.block_dim.x,
    {
        proof {
            lemma_global_coord_fits(ctx.thread_idx.x, ctx.block_idx.x, ctx.block_dim.x);
        }
        ctx.thread_idx.x as u64 + ctx.block_dim.x as u64 * ctx.block_idx.x as u64
    }

    fn index_y(ctx: &ThreadContext) -> (r: u64)
        ensures
            r == ctx.thread_idx.y + ctx.block_idx.y * ctx.block_dim.y,
    {
        proof {
            lemma_global_coord_fits(ctx.thread_idx.y, ctx.block_idx.y, ctx.block_dim.y);
        }
        ctx.thread_idx.y as u64 + ctx.block_dim.y as u64 * ctx.block_idx.y as u64
    }

    fn index_z(ctx: &ThreadContext) -> (r: u64)
        ensures
            r == ctx.thread_idx.z + ctx.block_idx.z * ctx.block_dim.z,
    {
        proof {
            lemma_global_coord_fits(ctx.thread_idx.z, ctx.block_idx.z, ctx.block_dim.z);
        }
        ctx.thread_idx.z as u64 + ctx.block_dim.z as u64 * ctx.block_idx.z as u64
    }

    fn size_x(ctx: &ThreadContext) -> (r: u64)
        ensures
            r == ctx.block_dim.x * ctx.grid_dim.x,
    {
        proof {
            lemma_global_extent_fits(ctx.block_dim.x, ctx.grid_dim.x);
        }
        ctx.block_dim.x as u64 * ctx.grid_dim.x as u64
    }

    fn size_y(ctx: &ThreadContext) -> (r: u64)
        ensures
            r == ctx.block_dim.y * ctx.grid_dim.y,
    {
        proof {
            lemma_global_extent_fits(ctx.block_dim.y, ctx.grid_dim.y);
        }
        ctx.block_dim.y as u64 * ctx.grid_dim.y as u64
    }

    fn size_z(ctx: &ThreadContext) -> (r: u64)
        ensures
            r == ctx.block_dim.z * ctx.grid_dim.z,
    {
        proof {
            lemma_global_extent_fits(ctx.block_dim.z, ctx.grid_dim.z);
        }
        ctx.block_dim.z as u64 * ctx.grid_dim.z as u64
    }
}

} // verus!
