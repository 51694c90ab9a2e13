//! Projections: one linear offset out of one, two or three axes of a space.
//!
//! The layout is row-major with X varying fastest: a step along Y skips one
//! row of `extent_x` slots, a step along Z skips one plane of
//! `extent_x * extent_y` slots.
use core::marker::PhantomData;
use vstd::prelude::*;
use crate::context::ThreadContext;
use crate::flat::{
    flat2, flat3, flatten2, flatten3, lemma_flat2_bound, lemma_flat3_bound, try_flatten2,
    try_flatten3,
};
use crate::space::Space;

verus! {

/// A projection: a rule that gives the current thread one linear offset.
pub trait IndexSource {
    /// The offset this projection assigns to the thread that `ctx` describes.
    spec fn offset(ctx: ThreadContext) -> nat;

    /// The number of slots a region needs under this projection: the product
    /// of the extents of the axes it combines.
    spec fn span(ctx: ThreadContext) -> nat;

    /// Along every axis that this projection combines, the thread's
    /// coordinate lies below the extent.
    spec fn in_range(ctx: ThreadContext) -> bool;

    /// A thread inside the extents gets an offset inside the span.
    proof fn lemma_offset_below_span(ctx: ThreadContext)
        requires
            Self::in_range(ctx),
        ensures
            Self::offset(ctx) < Self::span(ctx),
    ;

    /// The offset of the current thread. The offset must fit in 64 bits; no
    /// other check is made, and sizing the buffer is the caller's business.
    fn produce_index(ctx: &ThreadContext) -> (r: u64)
        requires
            Self::offset(*ctx) <= u64::MAX,
        ensures
            r == Self::offset(*ctx),
    ;

    /// The offset of the current thread, or `None` exactly when it does not
    /// fit in 64 bits.
    fn try_produce_index(ctx: &ThreadContext) -> (r: Option<u64>)
        ensures
            Self::offset(*ctx) <= u64::MAX ==> r == Some(Self::offset(*ctx) as u64),
            Self::offset(*ctx) > u64::MAX ==> r.is_none(),
    ;
}

/// The X coordinate alone.
pub struct X<SPACE>(pub PhantomData<SPACE>);

impl<SPACE: Space> IndexSource for X<SPACE> {
    open spec fn offset(ctx: ThreadContext) -> nat {
        SPACE::coord_x(ctx)
    }

    open spec fn span(ctx: ThreadContext) -> nat {
        SPACE::extent_x(ctx)
    }

    open spec fn in_range(ctx: ThreadContext) -> bool {
        SPACE::coord_x(ctx) < SPACE::extent_x(ctx)
    }

    proof fn lemma_offset_below_span(ctx: ThreadContext) {
    }

    fn produce_index(ctx: &ThreadContext) -> (r: u64)
        ensures
            r == SPACE::coord_x(*ctx),
    {
        SPACE::index_x(ctx)
    }

    fn try_produce_index(ctx: &ThreadContext) -> (r: Option<u64>)
        ensures
            r == Some(SPACE::coord_x(*ctx) as u64),
    {
        Some(SPACE::index_x(ctx))
    }
}

/// The Y coordinate alone.
pub struct Y<SPACE>(pub PhantomData<SPACE>);

impl<SPACE: Space> IndexSource for Y<SPACE> {
    open spec fn offset(ctx: ThreadContext) -> nat {
        SPACE::coord_y(ctx)
    }

    open spec fn span(ctx: ThreadContext) -> nat {
        SPACE::extent_y(ctx)
    }

    open spec fn in_range(ctx: ThreadContext) -> bool {
        SPACE::coord_y(ctx) < SPACE::extent_y(ctx)
    }

    proof fn lemma_offset_below_span(ctx: ThreadContext) {
    }

    fn produce_index(ctx: &ThreadContext) -> (r: u64)
        ensures
            r == SPACE::coord_y(*ctx),
    {
        SPACE::index_y(ctx)
    }

    fn try_produce_index(ctx: &ThreadContext) -> (r: Option<u64>)
        ensures
            r == Some(SPACE::coord_y(*ctx) as u64),
    {
        Some(SPACE::index_y(ctx))
    }
}

/// The Z coordinate alone.
pub struct Z<SPACE>(pub PhantomData<SPACE>);

impl<SPACE: Space> IndexSource for Z<SPACE> {
    open spec fn offset(ctx: ThreadContext) -> nat {
        SPACE::coord_z(ctx)
    }

    open spec fn span(ctx: ThreadContext) -> nat {
        SPACE::extent_z(ctx)
    }

    open spec fn in_range(ctx: ThreadContext) -> bool {
        SPACE::coord_z(ctx) < SPACE::extent_z(ctx)
    }

    proof fn lemma_offset_below_span(ctx: ThreadContext) {
    }

    fn produce_index(ctx: &ThreadContext) -> (r: u64)
        ensures
            r == SPACE::coord_z(*ctx),
    {
        SPACE::index_z(ctx)
    }

    fn try_produce_index(ctx: &ThreadContext) -> (r: Option<u64>)
        ensures
            r == Some(SPACE::coord_z(*ctx) as u64),
    {
        Some(SPACE::index_z(ctx))
    }
}

/// X, then Y in rows of `extent_x`.
pub struct XY<SPACE>(pub PhantomData<SPACE>);

impl<SPACE: Space> IndexSource for XY<SPACE> {
    open spec fn offset(ctx: ThreadContext) -> nat {
        flat2(SPACE::coord_x(ctx), SPACE::coord_y(ctx), SPACE::extent_x(ctx))
    }

    open spec fn span(ctx: ThreadContext) -> nat {
        SPACE::extent_x(ctx) * SPACE::extent_y(ctx)
    }

    open spec fn in_range(ctx: ThreadContext) -> bool {
        SPACE::coord_x(ctx) < SPACE::extent_x(ctx) && SPACE::coord_y(ctx) < SPACE::extent_y(ctx)
    }

    proof fn lemma_offset_below_span(ctx: ThreadContext) {
        lemma_flat2_bound(
            SPACE::coord_x(ctx),
            SPACE::coord_y(ctx),
            SPACE::extent_x(ctx),
            SPACE::extent_y(ctx),
        );
    }

    fn produce_index(ctx: &ThreadContext) -> (r: u64)
        ensures
            r == SPACE::coord_x(*ctx) + SPACE::coord_y(*ctx) * SPACE::extent_x(*ctx),
    {
        flatten2(SPACE::index_x(ctx), SPACE::index_y(ctx), SPACE::size_x(ctx))
    }

    fn try_produce_index(ctx: &ThreadContext) -> (r: Option<u64>) {
        try_flatten2(SPACE::index_x(ctx), SPACE::index_y(ctx), SPACE::size_x(ctx))
    }
}

/// X, then Z in rows of `extent_x`.
pub struct XZ<SPACE>(pub PhantomData<SPACE>);

impl<SPACE: Space> IndexSource for XZ<SPACE> {
    open spec fn offset(ctx: ThreadContext) -> nat {
        flat2(SPACE::coord_x(ctx), SPACE::coord_z(ctx), SPACE::extent_x(ctx))
    }

    open spec fn span(ctx: ThreadContext) -> nat {
        SPACE::extent_x(ctx) * SPACE::extent_z(ctx)
    }

    open spec fn in_range(ctx: ThreadContext) -> bool {
        SPACE::coord_x(ctx) < SPACE::extent_x(ctx) && SPACE::coord_z(ctx) < SPACE::extent_z(ctx)
    }

    proof fn lemma_offset_below_span(ctx: ThreadContext) {
        lemma_flat2_bound(
            SPACE::coord_x(ctx),
            SPACE::coord_z(ctx),
            SPACE::extent_x(ctx),
            SPACE::extent_z(ctx),
        );
    }

    fn produce_index(ctx: &ThreadContext) -> (r: u64)
        ensures
            r == SPACE::coord_x(*ctx) + SPACE::coord_z(*ctx) * SPACE::extent_x(*ctx),
    {
        flatten2(SPACE::index_x(ctx), SPACE::index_z(ctx), SPACE::size_x(ctx))
    }

    fn try_produce_index(ctx: &ThreadContext) -> (r: Option<u64>) {
        try_flatten2(SPACE::index_x(ctx), SPACE::index_z(ctx), SPACE::size_x(ctx))
    }
}

/// Y, then Z in rows of `extent_y`.
pub struct YZ<SPACE>(pub PhantomData<SPACE>);

impl<SPACE: Space> IndexSource for YZ<SPACE> {
    open spec fn offset(ctx: ThreadContext) -> nat {
        flat2(SPACE::coord_y(ctx), SPACE::coord_z(ctx), SPACE::extent_y(ctx))
    }

    open spec fn span(ctx: ThreadContext) -> nat {
        SPACE::extent_y(ctx) * SPACE::extent_z(ctx)
    }

    open spec fn in_range(ctx: ThreadContext) -> bool {
        SPACE::coord_y(ctx) < SPACE::extent_y(ctx) && SPACE::coord_z(ctx) < SPACE::extent_z(ctx)
    }

    proof fn lemma_offset_below_span(ctx: ThreadContext) {
        lemma_flat2_bound(
            SPACE::coord_y(ctx),
            SPACE::coord_z(ctx),
            SPACE::extent_y(ctx),
            SPACE::extent_z(ctx),
        );
    }

    fn produce_index(ctx: &ThreadContext) -> (r: u64)
        ensures
            r == SPACE::coord_y(*ctx) + SPACE::coord_z(*ctx) * SPACE::extent_y(*ctx),
    {
        flatten2(SPACE::index_y(ctx), SPACE::index_z(ctx), SPACE::size_y(ctx))
    }

    fn try_produce_index(ctx: &ThreadContext) -> (r: Option<u64>) {
        try_flatten2(SPACE::index_y(ctx), SPACE::index_z(ctx), SPACE::size_y(ctx))
    }
}

/// X, then Y in rows of `extent_x`, then Z in planes of
/// `extent_x * extent_y`.
pub struct XYZ<SPACE>(pub PhantomData<SPACE>);

impl<SPACE: Space> IndexSource for XYZ<SPACE> {
    open spec fn offset(ctx: ThreadContext) -> nat {
        flat3(
            SPACE::coord_x(ctx),
            SPACE::coord_y(ctx),
            SPACE::coord_z(ctx),
            SPACE::extent_x(ctx),
            SPACE::extent_y(ctx),
        )
    }

    open spec fn span(ctx: ThreadContext) -> nat {
        SPACE::extent_x(ctx) * SPACE::extent_y(ctx) * SPACE::extent_z(ctx)
    }

    open spec fn in_range(ctx: ThreadContext) -> bool {
        SPACE::coord_x(ctx) < SPACE::extent_x(ctx) && SPACE::coord_y(ctx) < SPACE::extent_y(ctx)
            && SPACE::coord_z(ctx) < SPACE::extent_z(ctx)
    }

    proof fn lemma_offset_below_span(ctx: ThreadContext) {
        lemma_flat3_bound(
            SPACE::coord_x(ctx),
            SPACE::coord_y(ctx),
            SPACE::coord_z(ctx),
            SPACE::extent_x(ctx),
            SPACE::extent_y(ctx),
            SPACE::extent_z(ctx),
        );
    }

    fn produce_index(ctx: &ThreadContext) -> (r: u64)
        ensures
            r == SPACE::coord_x(*ctx) + SPACE::coord_y(*ctx) * SPACE::extent_x(*ctx)
                + SPACE::coord_z(*ctx) * SPACE::extent_x(*ctx) * SPACE::extent_y(*ctx),
    {
        flatten3(
            SPACE::index_x(ctx),
            SPACE::index_y(ctx),
            SPACE::index_z(ctx),
            SPACE::size_x(ctx),
            SPACE::size_y(ctx),
        )
    }

    fn try_produce_index(ctx: &ThreadContext) -> (r: Option<u64>) {
        try_flatten3(
            SPACE::index_x(ctx),
            SPACE::index_y(ctx),
            SPACE::index_z(ctx),
            SPACE::size_x(ctx),
            SPACE::size_y(ctx),
        )
    }
}

} // verus!
