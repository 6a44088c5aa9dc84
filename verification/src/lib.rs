//! 2D geometry primitives whose parts can be picked by axis: ranges,
//! rectangles, vectors and rays, with an `Axis` that is known either at
//! compile time (`XAXIS`, `YAXIS`) or at run time (`AxisDyn`).

use vstd::prelude::*;

pub mod order;
pub mod range;
pub mod ray;
pub mod rect;
pub mod scalar;
pub mod vec;
pub mod vec2;

pub use crate::range::range;
pub use crate::range::Range;
pub use crate::ray::ray;
pub use crate::ray::CastResult;
pub use crate::ray::Ray;
pub use crate::rect::rect;
pub use crate::rect::Rect;
pub use crate::vec2::vec2;
pub use crate::vec2::vec2same;
pub use crate::vec2::Vec2;

verus! {

/// An axis chosen at run time, as opposed to one known statically through
/// `impl Axis`.
#[derive(Copy, Clone, Debug, PartialEq, Eq, Structural)]
#[must_use]
pub enum AxisDyn {
    X,
    Y,
}

impl AxisDyn {
    /// The other axis.
    pub open spec fn next_spec(self) -> AxisDyn {
        match self {
            AxisDyn::X => AxisDyn::Y,
            AxisDyn::Y => AxisDyn::X,
        }
    }

    /// Returns true if both are the same axis.
    #[must_use]
    pub fn is_equal_to(&self, other: AxisDyn) -> (r: bool)
        ensures
            r == (*self == other),
    {
        matches!((self, other), (AxisDyn::X, AxisDyn::X) | (AxisDyn::Y, AxisDyn::Y))
    }

    /// Returns true for the x axis.
    #[must_use]
    pub fn is_xaxis(self) -> (r: bool)
        ensures
            r == (self == AxisDyn::X),
    {
        match self {
            AxisDyn::X => true,
            AxisDyn::Y => false,
        }
    }

    /// Returns the other axis.
    pub fn next(&self) -> (r: Self)
        ensures
            r == self.next_spec(),
    {
        match self {
            AxisDyn::X => AxisDyn::Y,
            AxisDyn::Y => AxisDyn::X,
        }
    }
}

/// An axis value: something that is either the x axis or the y axis. Code
/// that takes an `impl Axis` is compiled once per axis when the axis is one
/// of the two marker types, so the choice costs nothing at run time.
pub trait Axis: Sync + Send + Copy + Clone {
    /// Whether this value stands for the x axis.
    spec fn is_xaxis_spec(&self) -> bool;

    fn is_xaxis(&self) -> (r: bool)
        ensures
            r == self.is_xaxis_spec(),
    ;

    /// Convert a statically known axis into a dynamic one. Nothing is lost:
    /// the dynamic axis stands for the x axis exactly when this one does.
    fn to_dyn(&self) -> (r: AxisDyn)
        ensures
            r == (if self.is_xaxis_spec() {
                AxisDyn::X
            } else {
                AxisDyn::Y
            }),
            (r == AxisDyn::X) == self.is_xaxis_spec(),
    {
        if self.is_xaxis() {
            AxisDyn::X
        } else {
            AxisDyn::Y
        }
    }
}

/// An axis known at compile time. Its `Next` is the type of the other axis:
/// the x marker's is the y marker and the y marker's is the x marker.
pub trait StaticAxis: Axis {
    type Next: Axis;

    /// The value of the other axis.
    spec fn next_spec(&self) -> Self::Next;

    /// The other axis is not this one.
    proof fn lemma_next_flips(&self)
        ensures
            self.next_spec().is_xaxis_spec() != self.is_xaxis_spec(),
    ;

    fn next(&self) -> (r: Self::Next)
        ensures
            r == self.next_spec(),
            r.is_xaxis_spec() != self.is_xaxis_spec(),
    ;

    /// Returns true if `other` stands for the same axis, whatever its type.
    fn is_equal_to<B: Axis>(&self, other: B) -> (r: bool)
        ensures
            r == (self.is_xaxis_spec() == other.is_xaxis_spec()),
    ;
}

///The x axis implementation of the Axis
#[derive(Copy, Clone, Debug, PartialEq, Eq, Structural)]
pub struct XAXIS;

///The y axis implementation of the Axis
#[derive(Copy, Clone, Debug, PartialEq, Eq, Structural)]
pub struct YAXIS;

impl Axis for XAXIS {
    open spec fn is_xaxis_spec(&self) -> bool {
        true
    }

    fn is_xaxis(&self) -> (r: bool) {
        true
    }
}

impl StaticAxis for XAXIS {
    type Next = YAXIS;

    open spec fn next_spec(&self) -> YAXIS {
        YAXIS
    }

    proof fn lemma_next_flips(&self) {
    }

    fn next(&self) -> (r: YAXIS) {
        YAXIS
    }

    fn is_equal_to<B: Axis>(&self, other: B) -> (r: bool) {
        self.to_dyn().is_equal_to(other.to_dyn())
    }
}

impl Axis for YAXIS {
    open spec fn is_xaxis_spec(&self) -> bool {
        false
    }

    fn is_xaxis(&self) -> (r: bool) {
        false
    }
}

impl StaticAxis for YAXIS {
    type Next = XAXIS;

    open spec fn next_spec(&self) -> XAXIS {
        XAXIS
    }

    proof fn lemma_next_flips(&self) {
    }

    fn next(&self) -> (r: XAXIS) {
        XAXIS
    }

    fn is_equal_to<B: Axis>(&self, other: B) -> (r: bool) {
        self.to_dyn().is_equal_to(other.to_dyn())
    }
}

impl Axis for AxisDyn {
    open spec fn is_xaxis_spec(&self) -> bool {
        *self == AxisDyn::X
    }

    fn is_xaxis(&self) -> (r: bool) {
        match self {
            AxisDyn::X => true,
            AxisDyn::Y => false,
        }
    }
}

/// Taking the other axis twice gives the axis back, and the other axis is
/// never the axis itself.
pub proof fn lemma_next_involution(a: AxisDyn)
    ensures
        a.next_spec().next_spec() == a,
        a.next_spec() != a,
        a.next_spec().is_xaxis_spec() != a.is_xaxis_spec(),
{
}

/// For axes known at compile time: the other axis of the other axis stands
/// for the axis one started from, and the other axis never does.
pub proof fn lemma_static_next_involution<A: StaticAxis>(a: A) where A::Next: StaticAxis
    ensures
        a.next_spec().next_spec().is_xaxis_spec() == a.is_xaxis_spec(),
        a.next_spec().is_xaxis_spec() != a.is_xaxis_spec(),
{
    a.lemma_next_flips();
    a.next_spec().lemma_next_flips();
}

/// The two marker types are each other's `Next`, so taking the other axis
/// twice gives back the very value.
pub proof fn lemma_marker_next_involution(x: XAXIS, y: YAXIS)
    ensures
        x.next_spec().next_spec() == x,
        y.next_spec().next_spec() == y,
        x.next_spec() == y,
        y.next_spec() == x,
{
}

} // verus!
