use crate::order::lt;
use crate::scalar::{lemma_product_bounds, within_reach};
use crate::Axis;
use core::ops::{Add, AddAssign, Div, DivAssign, Mul, MulAssign, Neg, Sub, SubAssign};
use vstd::prelude::*;
use vstd::std_specs::cmp::PartialOrdSpec;
use vstd::std_specs::convert::{IntoSpec, TryIntoSpec};
use vstd::std_specs::ops::{AddSpec, DivSpec, MulSpec, NegSpec, SubSpec};

verus! {

///A 2D vector.
#[derive(Copy, Clone, Debug, PartialEq, Eq, Hash)]
#[must_use]
pub struct Vec2<N> {
    pub x: N,
    pub y: N,
}

///Convenience function to create a vector.
pub fn vec2<N>(x: N, y: N) -> (r: Vec2<N>)
    ensures
        r == (Vec2 { x, y }),
{
    Vec2 { x, y }
}

///Convenience function to create a vector where both component are the same.
pub fn vec2same<N: Copy>(a: N) -> (r: Vec2<N>)
    ensures
        r == (Vec2 { x: a, y: a }),
{
    Vec2 { x: a, y: a }
}

/// The difference of the larger and the smaller of two values: `y - x`
/// where `x < y`, else `x - y`.
pub open spec fn absdiff_spec<T: Sub<Output = T> + PartialOrd>(x: T, y: T) -> T {
    if lt(x, y) {
        y.sub_spec(x)
    } else {
        x.sub_spec(y)
    }
}

/// The subtraction that `absdiff` makes is one that `T` allows.
pub open spec fn absdiff_req<T: Sub<Output = T> + PartialOrd>(x: T, y: T) -> bool {
    if lt(x, y) {
        y.sub_req(x)
    } else {
        x.sub_req(y)
    }
}

/// The difference of two values, taken so that the smaller is subtracted
/// from the larger.
pub fn absdiff<T>(x: T, y: T) -> (r: T) where T: Sub<Output = T> + PartialOrd
    requires
        T::obeys_partial_cmp_spec(),
        absdiff_req(x, y),
    ensures
        T::obeys_sub_spec() ==> r == absdiff_spec(x, y),
{
    if x < y {
        y - x
    } else {
        x - y
    }
}

impl<S: Add<Output = S> + Sub<Output = S> + PartialOrd + Copy> Vec2<S> {
    /// The sum of the component-wise differences.
    pub open spec fn manhattan_dis_spec(&self, other: Vec2<S>) -> S {
        absdiff_spec(self.x, other.x).add_spec(absdiff_spec(self.y, other.y))
    }

    /// Each step of `manhattan_dis` is one that `S` allows.
    pub open spec fn manhattan_dis_req(&self, other: Vec2<S>) -> bool {
        &&& absdiff_req(self.x, other.x)
        &&& absdiff_req(self.y, other.y)
        &&& absdiff_spec(self.x, other.x).add_req(absdiff_spec(self.y, other.y))
    }

    /// The distance to `other` along the axes: `|x - other.x| + |y - other.y|`.
    pub fn manhattan_dis(&self, other: Vec2<S>) -> (r: S)
        requires
            S::obeys_partial_cmp_spec(),
            S::obeys_sub_spec(),
            self.manhattan_dis_req(other),
        ensures
            S::obeys_add_spec() ==> r == self.manhattan_dis_spec(other),
    {
        absdiff(self.x, other.x) + absdiff(self.y, other.y)
    }
}

/// `(ax - bx)^2 + (ay - by)^2` in the arithmetic of `T`.
pub open spec fn sum_of_squared_diffs<T: Sub<Output = T> + Mul<Output = T> + Add<Output = T>>(
    ax: T,
    bx: T,
    ay: T,
    by: T,
) -> T {
    let dx = ax.sub_spec(bx);
    let dy = ay.sub_spec(by);
    dx.mul_spec(dx).add_spec(dy.mul_spec(dy))
}

/// Each step of `(ax - bx)^2 + (ay - by)^2` is one that `T` allows.
pub open spec fn sum_of_squared_diffs_req<
    T: Sub<Output = T> + Mul<Output = T> + Add<Output = T>,
>(ax: T, bx: T, ay: T, by: T) -> bool {
    let dx = ax.sub_spec(bx);
    let dy = ay.sub_spec(by);
    &&& ax.sub_req(bx)
    &&& ay.sub_req(by)
    &&& dx.mul_req(dx)
    &&& dy.mul_req(dy)
    &&& dx.mul_spec(dx).add_req(dy.mul_spec(dy))
}

/// For four `i64` of at most 2^29 in absolute value the sum of the squared
/// differences is computed without leaving `i64`, and is the number
/// `(ax - bx)^2 + (ay - by)^2`.
pub proof fn lemma_sum_of_squared_diffs_within_reach(ax: i64, bx: i64, ay: i64, by: i64)
    requires
        within_reach(ax),
        within_reach(bx),
        within_reach(ay),
        within_reach(by),
    ensures
        sum_of_squared_diffs_req(ax, bx, ay, by),
        sum_of_squared_diffs(ax, bx, ay, by) == (ax - bx) * (ax - bx) + (ay - by) * (ay - by),
        0 <= sum_of_squared_diffs(ax, bx, ay, by),
{
    let b: int = 0x4000_0000;
    lemma_product_bounds(ax - bx, ax - bx, b, b);
    lemma_product_bounds(ay - by, ay - by, b, b);
    assert(b * b == 0x1000_0000_0000_0000) by (nonlinear_arith)
        requires
            b == 0x4000_0000,
    ;
    assert((ax - bx) * (ax - bx) >= 0) by (nonlinear_arith);
    assert((ay - by) * (ay - by) >= 0) by (nonlinear_arith);
}

impl<T: Copy + PartialOrd + Sub<Output = T> + Mul<Output = T> + Add<Output = T>> Vec2<T> {
    /// The squared distance between the two points.
    #[must_use]
    pub fn distance_squared_to_point(&self, point: Vec2<T>) -> (r: T)
        requires
            T::obeys_sub_spec(),
            T::obeys_mul_spec(),
            sum_of_squared_diffs_req(point.x, self.x, point.y, self.y),
        ensures
            T::obeys_add_spec() ==> r == sum_of_squared_diffs(point.x, self.x, point.y, self.y),
    {
        (point.x - self.x) * (point.x - self.x) + (point.y - self.y) * (point.y - self.y)
    }
}

impl<T: Copy + Mul<Output = T>> Vec2<T> {
    /// Multiplies component by component.
    pub fn scale(&self, other: Vec2<T>) -> (r: Vec2<T>)
        requires
            self.x.mul_req(other.x),
            self.y.mul_req(other.y),
        ensures
            T::obeys_mul_spec() ==> r == (Vec2 {
                x: self.x.mul_spec(other.x),
                y: self.y.mul_spec(other.y),
            }),
    {
        vec2(self.x * other.x, self.y * other.y)
    }
}

impl<T: Copy + Div<Output = T>> Vec2<T> {
    /// Divides component by component.
    pub fn inv_scale(&self, other: Vec2<T>) -> (r: Vec2<T>)
        requires
            self.x.div_req(other.x),
            self.y.div_req(other.y),
        ensures
            T::obeys_div_spec() ==> r == (Vec2 {
                x: self.x.div_spec(other.x),
                y: self.y.div_spec(other.y),
            }),
    {
        vec2(self.x / other.x, self.y / other.y)
    }
}

impl<T: Copy + Mul<Output = T> + Add<Output = T>> Vec2<T> {
    /// `x * other.x + y * other.y` in the arithmetic of `T`.
    pub open spec fn dot_spec(&self, other: Vec2<T>) -> T {
        self.x.mul_spec(other.x).add_spec(self.y.mul_spec(other.y))
    }

    /// Each step of the dot product is one that `T` allows.
    pub open spec fn dot_req(&self, other: Vec2<T>) -> bool {
        &&& self.x.mul_req(other.x)
        &&& self.y.mul_req(other.y)
        &&& self.x.mul_spec(other.x).add_req(self.y.mul_spec(other.y))
    }

    /// The dot product.
    #[must_use]
    pub fn dot(&self, other: Vec2<T>) -> (r: T)
        requires
            T::obeys_mul_spec(),
            self.dot_req(other),
        ensures
            T::obeys_add_spec() ==> r == self.dot_spec(other),
    {
        self.x * other.x + self.y * other.y
    }

    /// The squared length: the dot product of the vector with itself.
    #[must_use]
    pub fn magnitude2(&self) -> (r: T)
        requires
            T::obeys_mul_spec(),
            self.dot_req(*self),
        ensures
            T::obeys_add_spec() ==> r == self.dot_spec(*self),
    {
        self.x * self.x + self.y * self.y
    }
}

impl<T: Copy + Neg<Output = T>> Vec2<T> {
    /// Turns the vector by a quarter turn: `(x, y)` becomes `(-y, x)`. Only
    /// a swap and a negation, so nothing is rounded.
    pub fn rotate_90deg_right(&self) -> (r: Vec2<T>)
        requires
            self.y.neg_req(),
        ensures
            r.y == self.x,
            T::obeys_neg_spec() ==> r.x == self.y.neg_spec(),
    {
        vec2(self.y.neg(), self.x)
    }
}

impl<T: Copy> Vec2<T> {
    /// Swaps the components: `(x, y)` becomes `(y, x)`.
    pub fn rotate_90deg_left(&self) -> (r: Vec2<T>)
        ensures
            r == (Vec2 { x: self.y, y: self.x }),
    {
        vec2(self.y, self.x)
    }
}

impl<'a, B: Copy> From<&'a [B; 2]> for Vec2<B> {
    fn from(a: &'a [B; 2]) -> (r: Self) {
        vec2(a[0], a[1])
    }
}

impl<'a, B: Copy> vstd::std_specs::convert::FromSpecImpl<&'a [B; 2]> for Vec2<B> {
    open spec fn obeys_from_spec() -> bool {
        true
    }

    open spec fn from_spec(a: &'a [B; 2]) -> Self {
        Vec2 { x: a@[0], y: a@[1] }
    }
}

impl<B: Copy> From<[B; 2]> for Vec2<B> {
    fn from(a: [B; 2]) -> (r: Self) {
        vec2(a[0], a[1])
    }
}

impl<B: Copy> vstd::std_specs::convert::FromSpecImpl<[B; 2]> for Vec2<B> {
    open spec fn obeys_from_spec() -> bool {
        true
    }

    open spec fn from_spec(a: [B; 2]) -> Self {
        Vec2 { x: a@[0], y: a@[1] }
    }
}

impl<B> From<Vec2<B>> for [B; 2] {
    fn from(a: Vec2<B>) -> (r: Self) {
        [a.x, a.y]
    }
}

impl<B> vstd::std_specs::convert::FromSpecImpl<Vec2<B>> for [B; 2] {
    open spec fn obeys_from_spec() -> bool {
        true
    }

    open spec fn from_spec(a: Vec2<B>) -> Self {
        [a.x, a.y]
    }
}

impl<B> Vec2<B> {
    /// The component on the given axis.
    pub open spec fn get_axis_spec(&self, is_xaxis: bool) -> B {
        if is_xaxis {
            self.x
        } else {
            self.y
        }
    }

    ///Get the range of one axis.
    #[must_use]
    pub fn get_axis(&self, axis: impl Axis) -> (r: &B)
        ensures
            *r == self.get_axis_spec(axis.is_xaxis_spec()),
    {
        if axis.is_xaxis() {
            &self.x
        } else {
            &self.y
        }
    }

    ///Get the mutable range of one axis.
    #[must_use]
    pub fn get_axis_mut(&mut self, axis: impl Axis) -> (r: &mut B)
        ensures
            *r == old(self).get_axis_spec(axis.is_xaxis_spec()),
            *final(self) == (if axis.is_xaxis_spec() {
                Vec2 { x: *final(r), y: old(self).y }
            } else {
                Vec2 { x: old(self).x, y: *final(r) }
            }),
    {
        if axis.is_xaxis() {
            &mut self.x
        } else {
            &mut self.y
        }
    }

    /// Converts both components with `Into`.
    pub fn inner_into<A>(self) -> (r: Vec2<A>) where B: Into<A>
        ensures
            B::obeys_into_spec() ==> r == (Vec2 { x: self.x.into_spec(), y: self.y.into_spec() }),
    {
        let x = self.x.into();
        let y = self.y.into();
        vec2(x, y)
    }

    /// Converts both components with `TryInto`. Fails with the error of the
    /// first component that does not convert, `x` before `y`.
    pub fn inner_try_into<A>(self) -> (r: Result<Vec2<A>, B::Error>) where B: TryInto<A>
        ensures
            B::obeys_try_into_spec() ==> r == (match (
                self.x.try_into_spec(),
                self.y.try_into_spec(),
            ) {
                (Ok(x), Ok(y)) => Ok(Vec2 { x, y }),
                (Err(e), _) => Err(e),
                (Ok(_), Err(e)) => Err(e),
            }),
    {
        let x = self.x.try_into();
        let y = self.y.try_into();
        match (x, y) {
            (Ok(x), Ok(y)) => Ok(vec2(x, y)),
            (Ok(_), Err(e)) => Err(e),
            (Err(e), Ok(_)) => Err(e),
            (Err(e), Err(_)) => Err(e),
        }
    }
}

impl<S: Add<Output = S> + Copy> Add<Self> for Vec2<S> {
    type Output = Self;

    fn add(self, rhs: Self) -> (r: Self) {
        vec2(self.x + rhs.x, self.y + rhs.y)
    }
}

impl<S: Add<Output = S> + Copy> vstd::std_specs::ops::AddSpecImpl<Self> for Vec2<S> {
    open spec fn obeys_add_spec() -> bool {
        S::obeys_add_spec()
    }

    open spec fn add_req(self, rhs: Self) -> bool {
        self.x.add_req(rhs.x) && self.y.add_req(rhs.y)
    }

    open spec fn add_spec(self, rhs: Self) -> Self {
        Vec2 { x: self.x.add_spec(rhs.x), y: self.y.add_spec(rhs.y) }
    }
}

impl<S: Sub<Output = S> + Copy> Sub<Self> for Vec2<S> {
    type Output = Self;

    fn sub(self, rhs: Self) -> (r: Self) {
        vec2(self.x - rhs.x, self.y - rhs.y)
    }
}

impl<S: Sub<Output = S> + Copy> vstd::std_specs::ops::SubSpecImpl<Self> for Vec2<S> {
    open spec fn obeys_sub_spec() -> bool {
        S::obeys_sub_spec()
    }

    open spec fn sub_req(self, rhs: Self) -> bool {
        self.x.sub_req(rhs.x) && self.y.sub_req(rhs.y)
    }

    open spec fn sub_spec(self, rhs: Self) -> Self {
        Vec2 { x: self.x.sub_spec(rhs.x), y: self.y.sub_spec(rhs.y) }
    }
}

impl<S: Mul<Output = S> + Copy> Mul<S> for Vec2<S> {
    type Output = Self;

    fn mul(self, rhs: S) -> (r: Self) {
        vec2(self.x * rhs, self.y * rhs)
    }
}

impl<S: Mul<Output = S> + Copy> vstd::std_specs::ops::MulSpecImpl<S> for Vec2<S> {
    open spec fn obeys_mul_spec() -> bool {
        S::obeys_mul_spec()
    }

    open spec fn mul_req(self, rhs: S) -> bool {
        self.x.mul_req(rhs) && self.y.mul_req(rhs)
    }

    open spec fn mul_spec(self, rhs: S) -> Self {
        Vec2 { x: self.x.mul_spec(rhs), y: self.y.mul_spec(rhs) }
    }
}

impl<S: Div<Output = S> + Copy> Div<S> for Vec2<S> {
    type Output = Self;

    fn div(self, rhs: S) -> (r: Self) {
        vec2(self.x / rhs, self.y / rhs)
    }
}

impl<S: Div<Output = S> + Copy> vstd::std_specs::ops::DivSpecImpl<S> for Vec2<S> {
    open spec fn obeys_div_spec() -> bool {
        S::obeys_div_spec()
    }

    open spec fn div_req(self, rhs: S) -> bool {
        self.x.div_req(rhs) && self.y.div_req(rhs)
    }

    open spec fn div_spec(self, rhs: S) -> Self {
        Vec2 { x: self.x.div_spec(rhs), y: self.y.div_spec(rhs) }
    }
}

impl<S: Neg<Output = S>> Neg for Vec2<S> {
    type Output = Vec2<S>;

    fn neg(self) -> (r: Vec2<S>) {
        vec2(self.x.neg(), self.y.neg())
    }
}

impl<S: Neg<Output = S>> vstd::std_specs::ops::NegSpecImpl for Vec2<S> {
    open spec fn obeys_neg_spec() -> bool {
        S::obeys_neg_spec()
    }

    open spec fn neg_req(self) -> bool {
        self.x.neg_req() && self.y.neg_req()
    }

    open spec fn neg_spec(self) -> Vec2<S> {
        Vec2 { x: self.x.neg_spec(), y: self.y.neg_spec() }
    }
}

impl<S: Div<Output = S> + Copy> DivAssign<S> for Vec2<S> {
    fn div_assign(&mut self, scalar: S)
        requires
            old(self).div_req(scalar),
        ensures
            S::obeys_div_spec() ==> *final(self) == old(self).div_spec(scalar),
    {
        self.x = self.x / scalar;
        self.y = self.y / scalar;
    }
}

impl<S: Mul<Output = S> + Copy> MulAssign<S> for Vec2<S> {
    fn mul_assign(&mut self, scalar: S)
        requires
            old(self).mul_req(scalar),
        ensures
            S::obeys_mul_spec() ==> *final(self) == old(self).mul_spec(scalar),
    {
        self.x = self.x * scalar;
        self.y = self.y * scalar;
    }
}

impl<S: Add<Output = S> + Copy> AddAssign<Self> for Vec2<S> {
    fn add_assign(&mut self, rhs: Self)
        requires
            old(self).add_req(rhs),
        ensures
            S::obeys_add_spec() ==> *final(self) == old(self).add_spec(rhs),
    {
        self.x = self.x + rhs.x;
        self.y = self.y + rhs.y;
    }
}

impl<S: Sub<Output = S> + Copy> SubAssign<Self> for Vec2<S> {
    fn sub_assign(&mut self, rhs: Self)
        requires
            old(self).sub_req(rhs),
        ensures
            S::obeys_sub_spec() ==> *final(self) == old(self).sub_spec(rhs),
    {
        self.x = self.x - rhs.x;
        self.y = self.y - rhs.y;
    }
}

} // verus!
