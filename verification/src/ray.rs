use crate::order::{ge, gt, is_total_order, le, lemma_transitive, lemma_trichotomy, lt};
use crate::range::Range;
use crate::rect::Rect;
use crate::scalar::{
    abs_int, lemma_product_bounds, lemma_truncating_div_bounds, lemma_truncating_div_remainder,
    to_int, truncating_div, within_reach, zero_i64,
};
use crate::vec2::Vec2;
use crate::{Axis, XAXIS, YAXIS};
use core::cmp::Ordering;
use core::ops::{Add, Div, Mul, Sub};
use vstd::prelude::*;
use vstd::std_specs::cmp::{PartialEqSpec, PartialOrdSpec};
use vstd::std_specs::convert::{FromSpec, TryIntoSpec};
use vstd::std_specs::ops::{AddSpec, DivSpec, MulSpec, SubSpec};

verus! {

///A Ray.
#[derive(Debug, Copy, Clone)]
#[must_use]
pub struct Ray<N> {
    pub point: Vec2<N>,
    pub dir: Vec2<N>,
}

///Convenience function to create a ray.
#[must_use]
pub fn ray<N>(point: Vec2<N>, dir: Vec2<N>) -> (r: Ray<N>)
    ensures
        r == (Ray { point, dir }),
{
    Ray { point, dir }
}

///Describes if a ray hit a rectangle.
#[derive(Copy, Clone, Debug, PartialEq, Eq)]
#[must_use]
pub enum CastResult<N> {
    Hit(N),
    NoHit,
}

/// The real roots of a quadratic equation, as a solver reports them.
#[derive(Copy, Clone, Debug, PartialEq, Eq)]
pub enum QuadraticRoots<N> {
    /// No real root.
    No,
    /// One real root.
    One(N),
    /// Two real roots, in any order.
    Two(N, N),
}

/// `r` is a hit at the number `t`, or no hit where there is no `t`.
pub open spec fn hits_at(r: CastResult<i64>, t: Option<int>) -> bool {
    match (r, t) {
        (CastResult::Hit(a), Some(b)) => a == b,
        (CastResult::NoHit, None) => true,
        _ => false,
    }
}

impl<N> CastResult<N> {
    /// Applies `func` to the distance of a hit.
    pub fn map<X>(self, func: impl FnOnce(N) -> X) -> (r: CastResult<X>)
        requires
            self matches CastResult::Hit(a) ==> call_requires(func, (a,)),
        ensures
            match self {
                CastResult::Hit(a) => r matches CastResult::Hit(x) && call_ensures(func, (a,), x),
                CastResult::NoHit => r is NoHit,
            },
    {
        match self {
            CastResult::Hit(a) => CastResult::Hit(func(a)),
            CastResult::NoHit => CastResult::NoHit,
        }
    }

    /// The distance of a hit. There must be one.
    pub fn unwrap(self) -> (r: N)
        requires
            self is Hit,
        ensures
            self == CastResult::Hit(r),
    {
        match self {
            CastResult::Hit(a) => a,
            CastResult::NoHit => unreached(),
        }
    }
}

impl<N: PartialOrd + Copy> CastResult<N> {
    /// Where a ray first meets a circle, read off the roots of the equation
    /// that puts the ray's points on the circle. A root below `zero` lies
    /// behind the start of the ray and is no hit. With one root, the ray
    /// touches the circle there. With two, the ray is inside the circle
    /// between them: a ray that starts there, or on the circle itself, hits
    /// at `zero`, and a ray that starts before both hits at the smaller.
    pub open spec fn from_quadratic_roots_spec(roots: QuadraticRoots<N>, zero: N) -> CastResult<N> {
        match roots {
            QuadraticRoots::No => CastResult::NoHit,
            QuadraticRoots::One(a) => if lt(a, zero) {
                CastResult::NoHit
            } else {
                CastResult::Hit(a)
            },
            QuadraticRoots::Two(a, b) => {
                let closer = if lt(a, b) {
                    a
                } else {
                    b
                };
                let further = if lt(a, b) {
                    b
                } else {
                    a
                };
                if lt(closer, zero) && lt(further, zero) {
                    CastResult::NoHit
                } else if lt(closer, zero) && ge(further, zero) {
                    CastResult::Hit(zero)
                } else {
                    CastResult::Hit(closer)
                }
            },
        }
    }

    /// Picks the hit from the roots of the ray-circle equation: none where
    /// there is no root or every root is negative, the start of the ray
    /// (`zero`) where it lies inside or on the circle, which shows as one
    /// negative root and one that is not, and else the smaller root. A hit is
    /// never behind the start of the ray.
    pub fn from_quadratic_roots(roots: QuadraticRoots<N>, zero: N) -> (r: CastResult<N>)
        ensures
            N::obeys_partial_cmp_spec() ==> r == Self::from_quadratic_roots_spec(roots, zero),
            is_total_order::<N>() ==> (r matches CastResult::Hit(t) ==> ge(t, zero)),
    {
        proof {
            if is_total_order::<N>() {
                lemma_from_quadratic_roots_not_behind(roots, zero);
            }
        }
        match roots {
            QuadraticRoots::No => CastResult::NoHit,
            QuadraticRoots::One(a) => {
                if a < zero {
                    CastResult::NoHit
                } else {
                    CastResult::Hit(a)
                }
            },
            QuadraticRoots::Two(a, b) => {
                let (closer, further) = if a < b {
                    (a, b)
                } else {
                    (b, a)
                };

                if closer < zero && further < zero {
                    CastResult::NoHit
                } else if closer < zero && further >= zero {
                    CastResult::Hit(zero)
                } else {
                    CastResult::Hit(closer)
                }
            },
        }
    }
}

/// For a totally ordered `N`, the hit read off the roots is never behind the
/// start of the ray, and there is none exactly where every root is below
/// `zero`. A hit is at the one root, or with two roots at `zero` or at the
/// smaller of them.
pub proof fn lemma_from_quadratic_roots_not_behind<N: PartialOrd + Copy>(
    roots: QuadraticRoots<N>,
    zero: N,
)
    requires
        is_total_order::<N>(),
    ensures
        CastResult::from_quadratic_roots_spec(roots, zero) matches CastResult::Hit(t) ==> ge(
            t,
            zero,
        ),
        CastResult::from_quadratic_roots_spec(roots, zero) is NoHit <==> (match roots {
            QuadraticRoots::No => true,
            QuadraticRoots::One(a) => lt(a, zero),
            QuadraticRoots::Two(a, b) => lt(a, zero) && lt(b, zero),
        }),
        CastResult::from_quadratic_roots_spec(roots, zero) matches CastResult::Hit(t) ==> (
        match roots {
            QuadraticRoots::No => false,
            QuadraticRoots::One(a) => t == a,
            QuadraticRoots::Two(a, b) => t == zero || ((t == a || t == b) && le(t, a) && le(t, b)),
        }),
{
    match roots {
        QuadraticRoots::No => {},
        QuadraticRoots::One(a) => {
            lemma_trichotomy(a, zero);
        },
        QuadraticRoots::Two(a, b) => {
            lemma_trichotomy(a, b);
            lemma_trichotomy(a, zero);
            lemma_trichotomy(b, zero);
            lemma_trichotomy(zero, zero);
            lemma_trichotomy(a, a);
            lemma_trichotomy(b, b);
            lemma_transitive(a, b, zero);
            lemma_transitive(b, a, zero);
        },
    }
}

impl<N: Copy + Add<Output = N> + Mul<Output = N>> Ray<N> {
    /// The point `point + dir * tval`.
    pub open spec fn point_at_tval_spec(&self, tval: N) -> Vec2<N> {
        Vec2 {
            x: self.point.x.add_spec(self.dir.x.mul_spec(tval)),
            y: self.point.y.add_spec(self.dir.y.mul_spec(tval)),
        }
    }

    /// The point that the ray reaches at `tval`.
    pub fn point_at_tval(&self, tval: N) -> (r: Vec2<N>)
        requires
            N::obeys_mul_spec(),
            self.dir.x.mul_req(tval),
            self.dir.y.mul_req(tval),
            self.point.x.add_req(self.dir.x.mul_spec(tval)),
            self.point.y.add_req(self.dir.y.mul_spec(tval)),
        ensures
            N::obeys_add_spec() ==> r == self.point_at_tval_spec(tval),
    {
        crate::vec2::vec2(self.point.x + self.dir.x * tval, self.point.y + self.dir.y * tval)
    }
}

impl<N> Ray<N> {
    /// Converts the four components with `From`.
    pub fn inner_into<B: From<N>>(self) -> (r: Ray<B>)
        ensures
            B::obeys_from_spec() ==> r == (Ray {
                point: Vec2 { x: B::from_spec(self.point.x), y: B::from_spec(self.point.y) },
                dir: Vec2 { x: B::from_spec(self.dir.x), y: B::from_spec(self.dir.y) },
            }),
    {
        let point = self.point.inner_into();
        let dir = self.dir.inner_into();
        Ray { point, dir }
    }

    /// What `inner_try_into` gives: the converted ray, or the error of the
    /// first component that does not convert, in the order point x, point
    /// y, direction x, direction y.
    pub open spec fn inner_try_into_spec<B>(self) -> Result<Ray<B>, N::Error> where
        N: TryInto<B>,
     {
        match (
            self.point.x.try_into_spec(),
            self.point.y.try_into_spec(),
            self.dir.x.try_into_spec(),
            self.dir.y.try_into_spec(),
        ) {
            (Ok(px), Ok(py), Ok(dx), Ok(dy)) => Ok(
                Ray { point: Vec2 { x: px, y: py }, dir: Vec2 { x: dx, y: dy } },
            ),
            (Err(e), _, _, _) => Err(e),
            (Ok(_), Err(e), _, _) => Err(e),
            (Ok(_), Ok(_), Err(e), _) => Err(e),
            (Ok(_), Ok(_), Ok(_), Err(e)) => Err(e),
        }
    }

    /// Converts the four components with `TryInto`.
    pub fn inner_try_into<B>(self) -> (r: Result<Ray<B>, N::Error>) where N: TryInto<B>
        ensures
            N::obeys_try_into_spec() ==> r == self.inner_try_into_spec::<B>(),
    {
        let point = self.point.inner_try_into();
        let dir = self.dir.inner_try_into();
        match (point, dir) {
            (Ok(point), Ok(dir)) => Ok(Ray { point, dir }),
            (Err(e), Ok(_)) => Err(e),
            (Ok(_), Err(e)) => Err(e),
            (Err(e), Err(_)) => Err(e),
        }
    }
}

impl<N: PartialOrd + Copy> Ray<N> {
    /// On which side of `range` the start of the ray lies along `axis`.
    pub fn range_side(&self, axis: impl Axis, range: &Range<N>) -> (r: Ordering)
        ensures
            N::obeys_partial_cmp_spec() ==> r == range.contains_ext_spec(
                self.point.get_axis_spec(axis.is_xaxis_spec()),
            ),
    {
        let v = if axis.is_xaxis() {
            self.point.x
        } else {
            self.point.y
        };

        range.contains_ext(v)
    }
}

/// The comparisons and the four operators of `N` do what `N` specifies of
/// them. Every primitive integer type satisfies this.
pub open spec fn obeys_arithmetic<
    N: PartialOrd + Add<Output = N> + Sub<Output = N> + Mul<Output = N> + Div<Output = N>,
>() -> bool {
    &&& N::obeys_eq_spec()
    &&& N::obeys_partial_cmp_spec()
    &&& N::obeys_add_spec()
    &&& N::obeys_sub_spec()
    &&& N::obeys_mul_spec()
    &&& N::obeys_div_spec()
}

impl<
    N: Copy + PartialOrd + Add<Output = N> + Sub<Output = N> + Mul<Output = N> + Div<Output = N>,
> Ray<N> {
    /// The hit of the ray on the line that crosses the axis at `line`: at
    /// `t = (line - p) / d`, for the start `p` and the direction `d` along
    /// that axis. There is none where the ray runs parallel to the line
    /// (`d == zero`) or where `t` is not greater than `zero`: a line at or
    /// behind the start is not hit.
    pub open spec fn cast_to_aaline_with_zero_spec(
        &self,
        is_xaxis: bool,
        line: N,
        zero: N,
    ) -> CastResult<N> {
        let p = self.point.get_axis_spec(is_xaxis);
        let d = self.dir.get_axis_spec(is_xaxis);
        if d.eq_spec(&zero) {
            CastResult::NoHit
        } else {
            let t = line.sub_spec(p).div_spec(d);
            if gt(t, zero) {
                CastResult::Hit(t)
            } else {
                CastResult::NoHit
            }
        }
    }

    /// The subtraction and the division that `cast_to_aaline_with_zero`
    /// makes are ones that `N` allows.
    pub open spec fn cast_to_aaline_with_zero_req(&self, is_xaxis: bool, line: N, zero: N) -> bool {
        let p = self.point.get_axis_spec(is_xaxis);
        let d = self.dir.get_axis_spec(is_xaxis);
        !d.eq_spec(&zero) ==> line.sub_req(p) && line.sub_spec(p).div_req(d)
    }

    /// The coordinate along the given axis of the point that the ray
    /// reaches at `tval`: `p + d * tval`.
    pub open spec fn coordinate_at_spec(&self, tval: N, is_xaxis: bool) -> N {
        self.point.get_axis_spec(is_xaxis).add_spec(
            self.dir.get_axis_spec(is_xaxis).mul_spec(tval),
        )
    }

    /// A hit at `tval` if the point that the ray reaches there lies inside
    /// the range of `rect` on the given axis, and else none.
    pub open spec fn prune_rect_axis_spec(
        &self,
        tval: N,
        rect: &Rect<N>,
        is_xaxis: bool,
    ) -> CastResult<N> {
        if rect.get_range_spec(is_xaxis).contains_spec(self.coordinate_at_spec(tval, is_xaxis)) {
            CastResult::Hit(tval)
        } else {
            CastResult::NoHit
        }
    }

    /// The product and the sum in `p + d * tval` are ones that `N` allows.
    pub open spec fn prune_rect_axis_req(&self, tval: N, is_xaxis: bool) -> bool {
        let p = self.point.get_axis_spec(is_xaxis);
        let d = self.dir.get_axis_spec(is_xaxis);
        d.mul_req(tval) && p.add_req(d.mul_spec(tval))
    }

    /// The face of `rect` across the given axis that the ray is heading
    /// toward: the start of the range where the direction is at least
    /// `zero`, else the end.
    pub open spec fn near_face_spec(&self, rect: &Rect<N>, is_xaxis: bool, zero: N) -> N {
        let range = rect.get_range_spec(is_xaxis);
        if ge(self.dir.get_axis_spec(is_xaxis), zero) {
            range.start
        } else {
            range.end
        }
    }

    /// For a ray that starts outside `rect`: the `t` at which it meets the
    /// near face that is tried, and the axis along which the point reached
    /// is then checked (true for x). Where the ray meets both near faces,
    /// the later one is tried; where the two are met at once, or do not
    /// compare, the face across the y axis.
    pub open spec fn candidate_spec(&self, rect: &Rect<N>, zero: N) -> Option<(N, bool)> {
        let tx = self.cast_to_aaline_with_zero_spec(
            true,
            self.near_face_spec(rect, true, zero),
            zero,
        );
        let ty = self.cast_to_aaline_with_zero_spec(
            false,
            self.near_face_spec(rect, false, zero),
            zero,
        );
        match (tx, ty) {
            (CastResult::Hit(a), CastResult::Hit(b)) => if gt(a, b) {
                Some((a, false))
            } else {
                Some((b, true))
            },
            (CastResult::Hit(a), CastResult::NoHit) => Some((a, false)),
            (CastResult::NoHit, CastResult::Hit(b)) => Some((b, true)),
            (CastResult::NoHit, CastResult::NoHit) => None,
        }
    }

    /// The first hit of the ray on `rect`: at `zero` for a ray that starts
    /// inside, else at the `t` of the near face that is tried, if the point
    /// reached there lies on the rectangle.
    pub open spec fn cast_to_rect_with_zero_spec(&self, rect: &Rect<N>, zero: N) -> CastResult<N> {
        if rect.contains_point_spec(self.point) {
            CastResult::Hit(zero)
        } else {
            match self.candidate_spec(rect, zero) {
                Some((t, is_xaxis)) => self.prune_rect_axis_spec(t, rect, is_xaxis),
                None => CastResult::NoHit,
            }
        }
    }

    /// Every step of `cast_to_rect_with_zero` is one that `N` allows.
    pub open spec fn cast_to_rect_with_zero_req(&self, rect: &Rect<N>, zero: N) -> bool {
        !rect.contains_point_spec(self.point) ==> {
            &&& self.cast_to_aaline_with_zero_req(
                true,
                self.near_face_spec(rect, true, zero),
                zero,
            )
            &&& self.cast_to_aaline_with_zero_req(
                false,
                self.near_face_spec(rect, false, zero),
                zero,
            )
            &&& match self.candidate_spec(rect, zero) {
                Some((t, is_xaxis)) => self.prune_rect_axis_req(t, is_xaxis),
                None => true,
            }
        }
    }

    /// Casts the ray to the line that crosses `a` at `line`, with `zero`
    /// being the zero of `N`.
    //if axis is x, then the line is top to bottom
    //if axis is y, then the line is left to right
    pub fn cast_to_aaline_with_zero<A: Axis>(&self, a: A, line: N, zero: N) -> (r: CastResult<N>)
        requires
            obeys_arithmetic::<N>(),
            self.cast_to_aaline_with_zero_req(a.is_xaxis_spec(), line, zero),
        ensures
            r == self.cast_to_aaline_with_zero_spec(a.is_xaxis_spec(), line, zero),
            r matches CastResult::Hit(t) ==> gt(t, zero),
    {
        let ray = self;
        let tval = if a.is_xaxis() {
            if ray.dir.x == zero {
                return CastResult::NoHit;
            }
            (line - ray.point.x) / ray.dir.x
        } else {
            if ray.dir.y == zero {
                return CastResult::NoHit;
            }
            (line - ray.point.y) / ray.dir.y
        };

        if tval > zero {
            CastResult::Hit(tval)
        } else {
            CastResult::NoHit
        }
    }

    /// Keeps a hit at `tval` if the point reached there lies inside the
    /// range of `rect` on `axis`.
    fn prune_rect_axis<A: Axis>(&self, tval: N, rect: &Rect<N>, axis: A) -> (r: CastResult<N>)
        requires
            obeys_arithmetic::<N>(),
            self.prune_rect_axis_req(tval, axis.is_xaxis_spec()),
        ensures
            r == self.prune_rect_axis_spec(tval, rect, axis.is_xaxis_spec()),
    {
        if axis.is_xaxis() {
            let xx = self.point.x + self.dir.x * tval;
            if rect.x.contains(xx) {
                CastResult::Hit(tval)
            } else {
                CastResult::NoHit
            }
        } else {
            let yy = self.point.y + self.dir.y * tval;
            if rect.y.contains(yy) {
                CastResult::Hit(tval)
            } else {
                CastResult::NoHit
            }
        }
    }

    /// Casts the ray to the rectangle, with `zero` being the zero of `N`.
    /// A ray that starts inside hits at `zero`. Any other ray is cast to the
    /// two faces that it is heading toward, one across each axis; of the
    /// faces it meets, the later one is kept, and it is a hit if the point
    /// reached there lies on the rectangle.
    pub fn cast_to_rect_with_zero(&self, rect: &Rect<N>, zero: N) -> (r: CastResult<N>)
        requires
            obeys_arithmetic::<N>(),
            self.cast_to_rect_with_zero_req(rect, zero),
        ensures
            r == self.cast_to_rect_with_zero_spec(rect, zero),
            rect.contains_point_spec(self.point) ==> r == CastResult::Hit(zero),
            !rect.contains_point_spec(self.point) ==> (r matches CastResult::Hit(t) ==> gt(
                t,
                zero,
            )),
            is_total_order::<N>() ==> (r == CastResult::Hit(zero) <==> rect.contains_point_spec(
                self.point,
            )),
    {
        proof {
            lemma_cast_to_rect_hits_at_zero_iff_inside(*self, *rect, zero);
        }
        if rect.contains_point(self.point) {
            return CastResult::Hit(zero);
        }
        let startx = rect.x.start;
        let endx = rect.x.end;
        let starty = rect.y.start;
        let endy = rect.y.end;

        let x = if self.dir.x >= zero {
            startx
        } else {
            endx
        };

        let y = if self.dir.y >= zero {
            starty
        } else {
            endy
        };

        let tval1 = self.cast_to_aaline_with_zero(XAXIS, x, zero);
        let tval2 = self.cast_to_aaline_with_zero(YAXIS, y, zero);

        match (tval1, tval2) {
            (CastResult::Hit(a), CastResult::Hit(b)) => {
                //xaxis hit
                if a > b {
                    self.prune_rect_axis(a, rect, YAXIS)
                } else {
                    self.prune_rect_axis(b, rect, XAXIS)
                }
            },
            (CastResult::Hit(a), CastResult::NoHit) => { self.prune_rect_axis(a, rect, YAXIS) },
            (CastResult::NoHit, CastResult::Hit(b)) => { self.prune_rect_axis(b, rect, XAXIS) },
            (CastResult::NoHit, CastResult::NoHit) => { CastResult::NoHit },
        }
    }
}

impl Ray<i64> {
    /// The `t` at which the ray meets the line that crosses the axis at
    /// `line`: `(line - p) / d` rounded toward zero, for the start `p` and
    /// the direction `d` along that axis. There is none where the ray runs
    /// parallel to the line (`d == 0`) or where that `t` is not positive.
    pub open spec fn cast_to_aaline_int(&self, is_xaxis: bool, line: i64) -> Option<int> {
        let p = self.point.get_axis_spec(is_xaxis);
        let d = self.dir.get_axis_spec(is_xaxis);
        if d == 0 {
            None
        } else {
            let t = truncating_div(line - p, to_int(d));
            if t > 0 {
                Some(t)
            } else {
                None
            }
        }
    }

    /// The difference `line - p` and its quotient by `d` are numbers that an
    /// `i64` holds.
    pub open spec fn cast_to_aaline_fits(&self, is_xaxis: bool, line: i64) -> bool {
        let p = self.point.get_axis_spec(is_xaxis);
        let d = self.dir.get_axis_spec(is_xaxis);
        d != 0 ==> i64::MIN <= line - p <= i64::MAX && !(line - p == i64::MIN && d == -1)
    }

    /// The coordinate along the given axis of the point that the ray
    /// reaches at `tval`.
    pub open spec fn coordinate_at_int(&self, tval: int, is_xaxis: bool) -> int {
        self.point.get_axis_spec(is_xaxis) + self.dir.get_axis_spec(is_xaxis) * tval
    }

    /// `tval`, if the point that the ray reaches at `tval` lies inside the
    /// range of `rect` on the given axis.
    pub open spec fn prune_rect_axis_int(&self, tval: int, rect: &Rect<i64>, is_xaxis: bool) -> Option<
        int,
    > {
        let range = rect.get_range_spec(is_xaxis);
        let v = self.coordinate_at_int(tval, is_xaxis);
        if range.start <= v < range.end {
            Some(tval)
        } else {
            None
        }
    }

    /// The product `d * tval` and the coordinate reached are numbers that an
    /// `i64` holds.
    pub open spec fn prune_rect_axis_fits(&self, tval: int, is_xaxis: bool) -> bool {
        &&& i64::MIN <= self.dir.get_axis_spec(is_xaxis) * tval <= i64::MAX
        &&& i64::MIN <= self.coordinate_at_int(tval, is_xaxis) <= i64::MAX
    }

    /// The face of `rect` across the given axis that the ray is heading
    /// toward: the start of the range where the direction is not negative,
    /// else the end.
    pub open spec fn near_face_int(&self, rect: &Rect<i64>, is_xaxis: bool) -> i64 {
        let range = rect.get_range_spec(is_xaxis);
        if self.dir.get_axis_spec(is_xaxis) >= 0 {
            range.start
        } else {
            range.end
        }
    }

    /// For a ray that starts outside `rect`: the `t` at which it meets the
    /// near face that is tried, and the axis along which the point reached
    /// is then checked (true for x). Where the ray meets both near faces,
    /// the later one is tried, and on equal `t` the face across the y axis.
    pub open spec fn candidate_int(&self, rect: &Rect<i64>) -> Option<(int, bool)> {
        let tx = self.cast_to_aaline_int(true, self.near_face_int(rect, true));
        let ty = self.cast_to_aaline_int(false, self.near_face_int(rect, false));
        match (tx, ty) {
            (Some(a), Some(b)) => if a > b {
                Some((a, false))
            } else {
                Some((b, true))
            },
            (Some(a), None) => Some((a, false)),
            (None, Some(b)) => Some((b, true)),
            (None, None) => None,
        }
    }

    /// The `t` at which the ray first meets `rect`: 0 for a ray that starts
    /// inside, else the `t` of the near face that is tried if the point
    /// reached there lies on the rectangle.
    pub open spec fn cast_to_rect_int(&self, rect: &Rect<i64>) -> Option<int> {
        if rect.contains_point_spec(self.point) {
            Some(0)
        } else {
            match self.candidate_int(rect) {
                Some((t, is_xaxis)) => self.prune_rect_axis_int(t, rect, is_xaxis),
                None => None,
            }
        }
    }

    /// Every number that `cast_to_rect` computes is one that an `i64`
    /// holds.
    pub open spec fn cast_to_rect_fits(&self, rect: &Rect<i64>) -> bool {
        !rect.contains_point_spec(self.point) ==> {
            &&& self.cast_to_aaline_fits(true, self.near_face_int(rect, true))
            &&& self.cast_to_aaline_fits(false, self.near_face_int(rect, false))
            &&& match self.candidate_int(rect) {
                Some((t, is_xaxis)) => self.prune_rect_axis_fits(t, is_xaxis),
                None => true,
            }
        }
    }

    /// Casts the ray to the line that crosses `a` at `line`.
    pub fn cast_to_aaline<A: Axis>(&self, a: A, line: i64) -> (r: CastResult<i64>)
        requires
            self.cast_to_aaline_fits(a.is_xaxis_spec(), line),
        ensures
            hits_at(r, self.cast_to_aaline_int(a.is_xaxis_spec(), line)),
            r == self.cast_to_aaline_with_zero_spec(a.is_xaxis_spec(), line, 0),
            r matches CastResult::Hit(t) ==> t > 0,
    {
        proof {
            lemma_cast_to_aaline_int(*self, a.is_xaxis_spec(), line);
        }
        self.cast_to_aaline_with_zero(a, line, zero_i64())
    }

    /// Casts the ray to the rectangle. A ray that starts inside hits at 0.
    /// Any other ray is cast to the two faces that it is heading toward, one
    /// across each axis; of the faces it meets, the later one is kept, and
    /// it is a hit if the point reached there lies on the rectangle.
    pub fn cast_to_rect(&self, rect: &Rect<i64>) -> (r: CastResult<i64>)
        requires
            self.cast_to_rect_fits(rect),
        ensures
            hits_at(r, self.cast_to_rect_int(rect)),
            r == self.cast_to_rect_with_zero_spec(rect, 0),
            r == CastResult::Hit(0i64) <==> rect.contains_point_spec(self.point),
            !rect.contains_point_spec(self.point) ==> (r matches CastResult::Hit(t) ==> t > 0),
    {
        proof {
            lemma_cast_to_rect_int(*self, *rect);
        }
        self.cast_to_rect_with_zero(rect, zero_i64())
    }
}

/// Whatever the direction of the ray, and whether or not the numbers on the
/// way can be computed: a ray that starts inside the rectangle hits it at
/// `zero`, and any hit of a ray that starts outside is above `zero`. For a
/// totally ordered `N` a hit is therefore at `zero` exactly when the ray
/// starts inside.
pub proof fn lemma_cast_to_rect_hits_at_zero_iff_inside<
    N: Copy + PartialOrd + Add<Output = N> + Sub<Output = N> + Mul<Output = N> + Div<Output = N>,
>(ray: Ray<N>, rect: Rect<N>, zero: N)
    ensures
        rect.contains_point_spec(ray.point) ==> ray.cast_to_rect_with_zero_spec(&rect, zero)
            == CastResult::Hit(zero),
        !rect.contains_point_spec(ray.point) ==> (ray.cast_to_rect_with_zero_spec(&rect, zero)
            matches CastResult::Hit(t) ==> gt(t, zero)),
        is_total_order::<N>() ==> (ray.cast_to_rect_with_zero_spec(&rect, zero) == CastResult::Hit(
            zero,
        ) <==> rect.contains_point_spec(ray.point)),
{
    if is_total_order::<N>() {
        lemma_trichotomy(zero, zero);
    }
}

/// The same of the integers: whatever the direction, the ray meets the
/// rectangle at 0 exactly when it starts inside, and anywhere else it meets
/// it, it does so at a `t` above 0.
pub proof fn lemma_cast_to_rect_int_hits_at_zero_iff_inside(ray: Ray<i64>, rect: Rect<i64>)
    ensures
        ray.cast_to_rect_int(&rect) == Some(0int) <==> rect.contains_point_spec(ray.point),
        !rect.contains_point_spec(ray.point) ==> (ray.cast_to_rect_int(&rect) matches Some(t)
            ==> t > 0),
{
}

/// At `i64`, with 0 for the zero, casting to a line does what the integers
/// say: where the numbers fit, the steps are allowed and the hit is at the
/// quotient rounded toward zero.
pub proof fn lemma_cast_to_aaline_int(ray: Ray<i64>, is_xaxis: bool, line: i64)
    requires
        ray.cast_to_aaline_fits(is_xaxis, line),
    ensures
        obeys_arithmetic::<i64>(),
        ray.cast_to_aaline_with_zero_req(is_xaxis, line, 0),
        hits_at(
            ray.cast_to_aaline_with_zero_spec(is_xaxis, line, 0),
            ray.cast_to_aaline_int(is_xaxis, line),
        ),
{
    let p = ray.point.get_axis_spec(is_xaxis);
    let d = ray.dir.get_axis_spec(is_xaxis);
    if d != 0 {
        lemma_truncating_div_bounds(line - p, to_int(d));
    }
}

/// At `i64`, with 0 for the zero, casting to a rectangle does what the
/// integers say: where the numbers fit, the steps are allowed and the hit
/// is the one that `cast_to_rect_int` gives.
pub proof fn lemma_cast_to_rect_int(ray: Ray<i64>, rect: Rect<i64>)
    requires
        ray.cast_to_rect_fits(&rect),
    ensures
        obeys_arithmetic::<i64>(),
        ray.cast_to_rect_with_zero_req(&rect, 0),
        hits_at(ray.cast_to_rect_with_zero_spec(&rect, 0), ray.cast_to_rect_int(&rect)),
        ray.cast_to_rect_int(&rect) matches Some(t) ==> t >= 0,
{
    if !rect.contains_point_spec(ray.point) {
        lemma_cast_to_aaline_int(ray, true, ray.near_face_int(&rect, true));
        lemma_cast_to_aaline_int(ray, false, ray.near_face_int(&rect, false));
    }
}

/// A hit on a line is ahead of the ray's start, and the point reached there
/// is less than one step of the ray short of the line, never past it.
pub proof fn lemma_cast_to_aaline_reaches_line(ray: Ray<i64>, is_xaxis: bool, line: i64)
    ensures
        match ray.cast_to_aaline_int(is_xaxis, line) {
            Some(t) => {
                let p = ray.point.get_axis_spec(is_xaxis);
                let d = ray.dir.get_axis_spec(is_xaxis);
                &&& t > 0
                &&& abs_int(line - ray.coordinate_at_int(t, is_xaxis)) < abs_int(to_int(d))
                &&& (line >= p ==> ray.coordinate_at_int(t, is_xaxis) <= line)
                &&& (line <= p ==> ray.coordinate_at_int(t, is_xaxis) >= line)
            },
            None => true,
        },
{
    let p = ray.point.get_axis_spec(is_xaxis);
    let d = ray.dir.get_axis_spec(is_xaxis);
    if d != 0 {
        lemma_truncating_div_remainder(line - p, to_int(d));
    }
}

/// A ray and a rectangle whose eight coordinates are all at most 2^29 in
/// absolute value can be cast: no number on the way leaves `i64`.
pub proof fn lemma_cast_to_rect_within_reach(ray: Ray<i64>, rect: Rect<i64>)
    requires
        within_reach(ray.point.x),
        within_reach(ray.point.y),
        within_reach(ray.dir.x),
        within_reach(ray.dir.y),
        within_reach(rect.x.start),
        within_reach(rect.x.end),
        within_reach(rect.y.start),
        within_reach(rect.y.end),
    ensures
        ray.cast_to_rect_fits(&rect),
        ray.cast_to_aaline_fits(true, rect.x.start),
        ray.cast_to_aaline_fits(true, rect.x.end),
        ray.cast_to_aaline_fits(false, rect.y.start),
        ray.cast_to_aaline_fits(false, rect.y.end),
{
    let lx = ray.near_face_int(&rect, true);
    let ly = ray.near_face_int(&rect, false);
    let b: int = 0x4000_0000;
    let c: int = 0x2000_0000;
    if ray.dir.x != 0 {
        let t = truncating_div(lx - ray.point.x, to_int(ray.dir.x));
        lemma_truncating_div_bounds(lx - ray.point.x, to_int(ray.dir.x));
        lemma_product_bounds(to_int(ray.dir.y), t, c, b);
    }
    if ray.dir.y != 0 {
        let t = truncating_div(ly - ray.point.y, to_int(ray.dir.y));
        lemma_truncating_div_bounds(ly - ray.point.y, to_int(ray.dir.y));
        lemma_product_bounds(to_int(ray.dir.x), t, c, b);
    }
    assert(c * b == 0x800_0000_0000_0000) by (nonlinear_arith)
        requires
            b == 0x4000_0000,
            c == 0x2000_0000,
    ;
}

} // verus!
