//! Which axes of a view still lack an index source.
//!
//! A view starts with every axis of its rank unbound. Each state is a type of
//! its own, binding an axis moves to the state without that axis, and only
//! the state with nothing left unbound can be traded for an offset. A caller
//! that forgets an axis therefore does not compile.
use vstd::prelude::*;
use crate::context::ThreadContext;
use crate::projection::IndexSource;
use crate::view::SimtArr;

verus! {

/// The axes that a state leaves unbound.
pub struct Unbound {
    pub x: bool,
    pub y: bool,
    pub z: bool,
}

/// A state of the binding process.
pub trait AxisState {
    /// The axes that still lack an index source in this state.
    spec fn missing() -> Unbound;
}

/// A state in which X is unbound.
pub trait MissingX: AxisState + Sized {
    type Target: AxisState;

    /// Binds X: the next state lacks what this one lacks, except X.
    fn assoc_x(self) -> (next: Self::Target)
        ensures
            Self::missing().x,
            Self::Target::missing() == (Unbound { x: false, ..Self::missing() }),
    ;
}

/// A state in which Y is unbound.
pub trait MissingY: AxisState + Sized {
    type Target: AxisState;

    /// Binds Y: the next state lacks what this one lacks, except Y.
    fn assoc_y(self) -> (next: Self::Target)
        ensures
            Self::missing().y,
            Self::Target::missing() == (Unbound { y: false, ..Self::missing() }),
    ;
}

/// A state in which Z is unbound.
pub trait MissingZ: AxisState + Sized {
    type Target: AxisState;

    /// Binds Z: the next state lacks what this one lacks, except Z.
    fn assoc_z(self) -> (next: Self::Target)
        ensures
            Self::missing().z,
            Self::Target::missing() == (Unbound { z: false, ..Self::missing() }),
    ;
}

/// A state in which X and Y are unbound.
pub trait MissingXY: MissingX + MissingY {

}

/// A state in which X and Z are unbound.
pub trait MissingXZ: MissingX + MissingZ {

}

/// A state in which Y and Z are unbound.
pub trait MissingYZ: MissingY + MissingZ {

}

/// A state in which all three axes are unbound.
pub trait MissingXYZ: MissingX + MissingY + MissingZ {

}

/// Only X is unbound.
pub struct MissingXType;

/// Only Y is unbound.
pub struct MissingYType;

/// Only Z is unbound.
pub struct MissingZType;

/// X and Y are unbound.
pub struct MissingXYType;

/// X and Z are unbound.
pub struct MissingXZType;

/// Y and Z are unbound.
pub struct MissingYZType;

/// All three axes are unbound.
pub struct MissingXYZType;

/// Every axis is bound. A value of this type comes out of the last binding
/// step and from nowhere else.
pub struct AllPresent {
    sealed: (),
}

impl AxisState for MissingXType {
    open spec fn missing() -> Unbound {
        Unbound { x: true, y: false, z: false }
    }
}

impl AxisState for MissingYType {
    open spec fn missing() -> Unbound {
        Unbound { x: false, y: true, z: false }
    }
}

impl AxisState for MissingZType {
    open spec fn missing() -> Unbound {
        Unbound { x: false, y: false, z: true }
    }
}

impl AxisState for MissingXYType {
    open spec fn missing() -> Unbound {
        Unbound { x: true, y: true, z: false }
    }
}

impl AxisState for MissingXZType {
    open spec fn missing() -> Unbound {
        Unbound { x: true, y: false, z: true }
    }
}

impl AxisState for MissingYZType {
    open spec fn missing() -> Unbound {
        Unbound { x: false, y: true, z: true }
    }
}

impl AxisState for MissingXYZType {
    open spec fn missing() -> Unbound {
        Unbound { x: true, y: true, z: true }
    }
}

impl AxisState for AllPresent {
    open spec fn missing() -> Unbound {
        Unbound { x: false, y: false, z: false }
    }
}

impl MissingX for MissingXType {
    type Target = AllPresent;

    fn assoc_x(self) -> (next: AllPresent) {
        AllPresent { sealed: () }
    }
}

impl MissingX for MissingXYType {
    type Target = MissingYType;

    fn assoc_x(self) -> (next: MissingYType) {
        MissingYType
    }
}

impl MissingX for MissingXZType {
    type Target = MissingZType;

    fn assoc_x(self) -> (next: MissingZType) {
        MissingZType
    }
}

impl MissingX for MissingXYZType {
    type Target = MissingYZType;

    fn assoc_x(self) -> (next: MissingYZType) {
        MissingYZType
    }
}

impl MissingY for MissingYType {
    type Target = AllPresent;

    fn assoc_y(self) -> (next: AllPresent) {
        AllPresent { sealed: () }
    }
}

impl MissingY for MissingXYType {
    type Target = MissingXType;

    fn assoc_y(self) -> (next: MissingXType) {
        MissingXType
    }
}

impl MissingY for MissingYZType {
    type Target = MissingZType;

    fn assoc_y(self) -> (next: MissingZType) {
        MissingZType
    }
}

impl MissingY for MissingXYZType {
    type Target = MissingXZType;

    fn assoc_y(self) -> (next: MissingXZType) {
        MissingXZType
    }
}

impl MissingZ for MissingZType {
    type Target = AllPresent;

    fn assoc_z(self) -> (next: AllPresent) {
        AllPresent { sealed: () }
    }
}

impl MissingZ for MissingXZType {
    type Target = MissingXType;

    fn assoc_z(self) -> (next: MissingXType) {
        MissingXType
    }
}

impl MissingZ for MissingYZType {
    type Target = MissingYType;

    fn assoc_z(self) -> (next: MissingYType) {
        MissingYType
    }
}

impl MissingZ for MissingXYZType {
    type Target = MissingXYType;

    fn assoc_z(self) -> (next: MissingXYType) {
        MissingXYType
    }
}

impl MissingXY for MissingXYType {

}

impl MissingXY for MissingXYZType {

}

impl MissingXZ for MissingXZType {

}

impl MissingXZ for MissingXYZType {

}

impl MissingYZ for MissingYZType {

}

impl MissingYZ for MissingXYZType {

}

impl MissingXYZ for MissingXYZType {

}

impl AllPresent {
    /// The slot of `arr` that the current thread owns, handed out only to a
    /// caller that has bound every axis.
    pub fn index<A, D, P: IndexSource>(&self, arr: &SimtArr<A, D, P>, ctx: &ThreadContext) -> (r:
        usize)
        requires
            arr.owns_slot(*ctx),
        ensures
            r == P::offset(*ctx),
    {
        arr.index(ctx)
    }
}

/// Each of the seven starting and intermediate states lacks at least one
/// axis, and the final state lacks none: no state but the final one stands
/// for a fully bound view.
pub proof fn lemma_only_final_state_lacks_nothing()
    ensures
        MissingXType::missing().x,
        MissingYType::missing().y,
        MissingZType::missing().z,
        MissingXYType::missing().x && MissingXYType::missing().y,
        MissingXZType::missing().x && MissingXZType::missing().z,
        MissingYZType::missing().y && MissingYZType::missing().z,
        MissingXYZType::missing().x && MissingXYZType::missing().y && MissingXYZType::missing().z,
        AllPresent::missing() == (Unbound { x: false, y: false, z: false }),
{
}

} // verus!
