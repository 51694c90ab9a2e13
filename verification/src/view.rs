//! A buffer shared by the threads of a launch, seen through one projection.
use core::marker::PhantomData;
use vstd::prelude::*;
use crate::context::ThreadContext;
use crate::projection::IndexSource;

verus! {

/// The shape of a shared region of `A` elements of rank `D`, bound to the
/// projection `P` that says which slot each thread owns.
///
/// The value records how many slots the region has and nothing else: it owns
/// no memory and touches none. Whoever holds the region itself takes the
/// offsets computed here and is responsible for the region outliving the
/// kernel and for letting each thread touch its own slot only.
pub struct SimtArr<A, D, P> {
    len: usize,
    elem_marker: PhantomData<A>,
    rank_marker: PhantomData<D>,
    xyz_marker: PhantomData<P>,
}

impl<A, D, P: IndexSource> SimtArr<A, D, P> {
    /// The number of slots in the region.
    pub closed spec fn slots(&self) -> nat {
        self.len as nat
    }

    /// The thread that `ctx` describes owns a slot of this region.
    pub open spec fn owns_slot(&self, ctx: ThreadContext) -> bool {
        P::offset(ctx) < self.slots()
    }

    /// Describes a region of `len` slots.
    pub fn new(len: usize) -> (arr: Self)
        ensures
            arr.slots() == len,
    {
        SimtArr { len, elem_marker: PhantomData, rank_marker: PhantomData, xyz_marker: PhantomData }
    }

    /// The number of slots in the region.
    pub fn len(&self) -> (r: usize)
        ensures
            r == self.slots(),
    {
        self.len
    }

    /// The slot that the current thread owns. The caller answers for the
    /// region being large enough; nothing is tested here.
    pub fn index(&self, ctx: &ThreadContext) -> (r: usize)
        requires
            self.owns_slot(*ctx),
        ensures
            r == P::offset(*ctx),
    {
        P::produce_index(ctx) as usize
    }

    /// The slot that the current thread owns, or `None` exactly when the
    /// projection points past the end of the region.
    pub fn try_index(&self, ctx: &ThreadContext) -> (r: Option<usize>)
        ensures
            self.owns_slot(*ctx) ==> r == Some(P::offset(*ctx) as usize),
            !self.owns_slot(*ctx) ==> r.is_none(),
    {
        match P::try_produce_index(ctx) {
            Some(offset) => {
                if offset < self.len as u64 {
                    Some(offset as usize)
                } else {
                    None
                }
            },
            None => None,
        }
    }
}

/// A region with at least as many slots as the projection spans holds the
/// slot of every thread that lies inside the extents.
pub proof fn lemma_sized_region_owns_all<A, D, P: IndexSource>(
    arr: SimtArr<A, D, P>,
    ctx: ThreadContext,
)
    requires
        P::in_range(ctx),
        P::span(ctx) <= arr.slots(),
    ensures
        arr.owns_slot(ctx),
{
    P::lemma_offset_below_span(ctx);
}

} // verus!
