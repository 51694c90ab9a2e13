//! What holds across the threads of one launch: every thread's offset lies
//! inside the box spanned by the extents, and no two threads share an offset.
use vstd::prelude::*;
use crate::context::ThreadContext;
use crate::flat::{lemma_flat2_bound, lemma_flat2_injective, lemma_flat3_injective};
use crate::projection::{IndexSource, X, XY, XYZ, XZ, Y, YZ, Z};
use crate::space::{BlockSpace, GlobalSpace, Space};

verus! {

/// Along every axis the thread's coordinate in `S` lies below the extent.
pub open spec fn in_extent<S: Space>(ctx: ThreadContext) -> bool {
    &&& S::coord_x(ctx) < S::extent_x(ctx)
    &&& S::coord_y(ctx) < S::extent_y(ctx)
    &&& S::coord_z(ctx) < S::extent_z(ctx)
}

/// Two snapshots show the same six values in `S`.
pub open spec fn same_state<S: Space>(a: ThreadContext, b: ThreadContext) -> bool {
    &&& S::coord_x(a) == S::coord_x(b)
    &&& S::coord_y(a) == S::coord_y(b)
    &&& S::coord_z(a) == S::coord_z(b)
    &&& S::extent_x(a) == S::extent_x(b)
    &&& S::extent_y(a) == S::extent_y(b)
    &&& S::extent_z(a) == S::extent_z(b)
}

/// A projection reads nothing but the six values of its space: two snapshots
/// that agree on them get the same offset from every projection, so asking
/// twice about one snapshot gives one answer.
pub proof fn lemma_same_state_same_offset<S: Space>(a: ThreadContext, b: ThreadContext)
    requires
        same_state::<S>(a, b),
    ensures
        X::<S>::offset(a) == X::<S>::offset(b),
        Y::<S>::offset(a) == Y::<S>::offset(b),
        Z::<S>::offset(a) == Z::<S>::offset(b),
        XY::<S>::offset(a) == XY::<S>::offset(b),
        XZ::<S>::offset(a) == XZ::<S>::offset(b),
        YZ::<S>::offset(a) == YZ::<S>::offset(b),
        XYZ::<S>::offset(a) == XYZ::<S>::offset(b),
{
}

/// The thread at the origin of a space gets offset zero from every
/// projection, whatever the extents are.
pub proof fn lemma_origin_maps_to_zero<S: Space>(ctx: ThreadContext)
    requires
        S::coord_x(ctx) == 0,
        S::coord_y(ctx) == 0,
        S::coord_z(ctx) == 0,
    ensures
        X::<S>::offset(ctx) == 0,
        Y::<S>::offset(ctx) == 0,
        Z::<S>::offset(ctx) == 0,
        XY::<S>::offset(ctx) == 0,
        XZ::<S>::offset(ctx) == 0,
        YZ::<S>::offset(ctx) == 0,
        XYZ::<S>::offset(ctx) == 0,
{
    let ex = S::extent_x(ctx);
    let ey = S::extent_y(ctx);
    assert(0 * ex == 0 && 0 * ey == 0 && 0 * ex * ey == 0) by (nonlinear_arith);
}

/// In a snapshot that a launch can produce, the thread lies inside the
/// extents of both spaces.
pub proof fn lemma_valid_launch_in_extent(ctx: ThreadContext)
    requires
        ctx.valid_launch(),
    ensures
        in_extent::<BlockSpace>(ctx),
        in_extent::<GlobalSpace>(ctx),
{
    lemma_flat2_bound(
        ctx.thread_idx.x as nat,
        ctx.block_idx.x as nat,
        ctx.block_dim.x as nat,
        ctx.grid_dim.x as nat,
    );
    lemma_flat2_bound(
        ctx.thread_idx.y as nat,
        ctx.block_idx.y as nat,
        ctx.block_dim.y as nat,
        ctx.grid_dim.y as nat,
    );
    lemma_flat2_bound(
        ctx.thread_idx.z as nat,
        ctx.block_idx.z as nat,
        ctx.block_dim.z as nat,
        ctx.grid_dim.z as nat,
    );
}

/// A thread inside the extents of `S` gets, from every projection, an offset
/// below the product of the extents that the projection combines: a region
/// of that many slots holds every thread's slot.
pub proof fn lemma_offsets_in_bounds<S: Space>(ctx: ThreadContext)
    requires
        in_extent::<S>(ctx),
    ensures
        X::<S>::offset(ctx) < S::extent_x(ctx),
        Y::<S>::offset(ctx) < S::extent_y(ctx),
        Z::<S>::offset(ctx) < S::extent_z(ctx),
        XY::<S>::offset(ctx) < S::extent_x(ctx) * S::extent_y(ctx),
        XZ::<S>::offset(ctx) < S::extent_x(ctx) * S::extent_z(ctx),
        YZ::<S>::offset(ctx) < S::extent_y(ctx) * S::extent_z(ctx),
        XYZ::<S>::offset(ctx) < S::extent_x(ctx) * S::extent_y(ctx) * S::extent_z(ctx),
{
    XY::<S>::lemma_offset_below_span(ctx);
    XZ::<S>::lemma_offset_below_span(ctx);
    YZ::<S>::lemma_offset_below_span(ctx);
    XYZ::<S>::lemma_offset_below_span(ctx);
}

/// Two threads in rows of the same length of `S` that get the same offset
/// from a two-axis projection agree on both of its axes.
pub proof fn lemma_two_axes_injective<S: Space>(a: ThreadContext, b: ThreadContext)
    requires
        in_extent::<S>(a),
        in_extent::<S>(b),
        S::extent_x(a) == S::extent_x(b),
        S::extent_y(a) == S::extent_y(b),
    ensures
        XY::<S>::offset(a) == XY::<S>::offset(b) ==> {
            &&& S::coord_x(a) == S::coord_x(b)
            &&& S::coord_y(a) == S::coord_y(b)
        },
        XZ::<S>::offset(a) == XZ::<S>::offset(b) ==> {
            &&& S::coord_x(a) == S::coord_x(b)
            &&& S::coord_z(a) == S::coord_z(b)
        },
        YZ::<S>::offset(a) == YZ::<S>::offset(b) ==> {
            &&& S::coord_y(a) == S::coord_y(b)
            &&& S::coord_z(a) == S::coord_z(b)
        },
{
    if XY::<S>::offset(a) == XY::<S>::offset(b) {
        lemma_flat2_injective(
            S::coord_x(a),
            S::coord_y(a),
            S::coord_x(b),
            S::coord_y(b),
            S::extent_x(a),
        );
    }
    if XZ::<S>::offset(a) == XZ::<S>::offset(b) {
        lemma_flat2_injective(
            S::coord_x(a),
            S::coord_z(a),
            S::coord_x(b),
            S::coord_z(b),
            S::extent_x(a),
        );
    }
    if YZ::<S>::offset(a) == YZ::<S>::offset(b) {
        lemma_flat2_injective(
            S::coord_y(a),
            S::coord_z(a),
            S::coord_y(b),
            S::coord_z(b),
            S::extent_y(a),
        );
    }
}

/// Two threads inside the same extents of `S` that get the same offset from
/// the three-axis projection stand at the same coordinate.
pub proof fn lemma_xyz_injective<S: Space>(a: ThreadContext, b: ThreadContext)
    requires
        in_extent::<S>(a),
        in_extent::<S>(b),
        S::extent_x(a) == S::extent_x(b),
        S::extent_y(a) == S::extent_y(b),
        XYZ::<S>::offset(a) == XYZ::<S>::offset(b),
    ensures
        S::coord_x(a) == S::coord_x(b),
        S::coord_y(a) == S::coord_y(b),
        S::coord_z(a) == S::coord_z(b),
{
    lemma_flat3_injective(
        S::coord_x(a),
        S::coord_y(a),
        S::coord_z(a),
        S::coord_x(b),
        S::coord_y(b),
        S::coord_z(b),
        S::extent_x(a),
        S::extent_y(a),
    );
}

/// Two threads of groups of one shape that get the same offset from the
/// three-axis projection inside the group stand at the same place in their
/// groups.
pub proof fn lemma_group_threads_distinct_slots(a: ThreadContext, b: ThreadContext)
    requires
        a.thread_idx.within(a.block_dim),
        b.thread_idx.within(b.block_dim),
        a.block_dim == b.block_dim,
        XYZ::<BlockSpace>::offset(a) == XYZ::<BlockSpace>::offset(b),
    ensures
        a.thread_idx == b.thread_idx,
{
    lemma_xyz_injective::<BlockSpace>(a, b);
}

/// Two threads of one launch that get the same offset from the three-axis
/// projection over the whole grid are one and the same thread: under that
/// projection every thread owns a slot of its own.
pub proof fn lemma_distinct_threads_distinct_slots(a: ThreadContext, b: ThreadContext)
    requires
        a.valid_launch(),
        b.valid_launch(),
        a.block_dim == b.block_dim,
        a.grid_dim == b.grid_dim,
        XYZ::<GlobalSpace>::offset(a) == XYZ::<GlobalSpace>::offset(b),
    ensures
        a == b,
{
    lemma_valid_launch_in_extent(a);
    lemma_valid_launch_in_extent(b);
    lemma_xyz_injective::<GlobalSpace>(a, b);
    lemma_flat2_injective(
        a.thread_idx.x as nat,
        a.block_idx.x as nat,
        b.thread_idx.x as nat,
        b.block_idx.x as nat,
        a.block_dim.x as nat,
    );
    lemma_flat2_injective(
        a.thread_idx.y as nat,
        a.block_idx.y as nat,
        b.thread_idx.y as nat,
        b.block_idx.y as nat,
        a.block_dim.y as nat,
    );
    lemma_flat2_injective(
        a.thread_idx.z as nat,
        a.block_idx.z as nat,
        b.thread_idx.z as nat,
        b.block_idx.z as nat,
        a.block_dim.z as nat,
    );
}

} // verus!
