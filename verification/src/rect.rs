use crate::order::{
    gt, is_total_order, le, lemma_transitive, lemma_trichotomy, lt, partial_max, partial_min,
};
use crate::range::{lemma_intersects_iff_common_point, Range};
use crate::scalar::{lemma_square_le, truncating_div, within_reach};
use crate::vec2::{
    lemma_sum_of_squared_diffs_within_reach, sum_of_squared_diffs, sum_of_squared_diffs_req, vec2,
    Vec2,
};
use crate::{Axis, XAXIS, YAXIS};
use core::ops::{Add, Mul, Sub};
use vstd::prelude::*;
use vstd::std_specs::cmp::PartialOrdSpec;
use vstd::std_specs::convert::{IntoSpec, TryIntoSpec};
use vstd::std_specs::ops::{AddSpec, MulSpec, SubSpec};

verus! {

///An axis aligned rectangle. Stored as two Ranges.
///
/// A point lies inside the rectangle when each of its components lies
/// inside the range of its axis, which is half-open: `[start, end)`.
#[derive(Copy, Clone, Debug, Eq, PartialEq)]
#[must_use]
pub struct Rect<T> {
    pub x: Range<T>,
    pub y: Range<T>,
}

///Convenience function to create a Rect.
pub fn rect<T>(xstart: T, xend: T, ystart: T, yend: T) -> (r: Rect<T>)
    ensures
        r == (Rect {
            x: Range { start: xstart, end: xend },
            y: Range { start: ystart, end: yend },
        }),
{
    Rect::new(xstart, xend, ystart, yend)
}

/// `v` held between `lo` and `hi`: `lo` where `v < lo`, `hi` where
/// `v > hi`, else `v` itself.
pub open spec fn clamp_spec<T: PartialOrd>(v: T, lo: T, hi: T) -> T {
    if lt(v, lo) {
        lo
    } else if gt(v, hi) {
        hi
    } else {
        v
    }
}

/// Holds `v` between `lo` and `hi` by comparing only.
fn clamp<T: PartialOrd + Copy>(v: T, lo: T, hi: T) -> (r: T)
    ensures
        T::obeys_partial_cmp_spec() ==> r == clamp_spec(v, lo, hi),
{
    if v < lo {
        lo
    } else if v > hi {
        hi
    } else {
        v
    }
}

/// The bound of `[a, b]` that is further from `px`: `b` where
/// `b - px > px - a`, else `a`.
pub open spec fn reverse_clamp_spec<N: PartialOrd + Sub<Output = N>>(px: N, a: N, b: N) -> N {
    if gt(b.sub_spec(px), px.sub_spec(a)) {
        b
    } else {
        a
    }
}

/// Picks the bound of `[a, b]` that is further from `px`.
fn reverse_clamp<N: PartialOrd + Sub<Output = N> + Copy>(px: N, a: N, b: N) -> (r: N)
    requires
        px.sub_req(a),
        b.sub_req(px),
    ensures
        N::obeys_partial_cmp_spec() && N::obeys_sub_spec() ==> r == reverse_clamp_spec(px, a, b),
{
    let aa = px - a;
    let bb = b - px;
    if bb > aa {
        b
    } else {
        a
    }
}

impl<S> Rect<S> {
    /// Converts the four bounds with `Into`.
    pub fn inner_into<A>(self) -> (r: Rect<A>) where S: Into<A>
        ensures
            S::obeys_into_spec() ==> r == (Rect {
                x: Range { start: self.x.start.into_spec(), end: self.x.end.into_spec() },
                y: Range { start: self.y.start.into_spec(), end: self.y.end.into_spec() },
            }),
    {
        let x = self.x.inner_into();
        let y = self.y.inner_into();

        Rect { x, y }
    }

    /// What `inner_try_into` gives: the converted rectangle, or the error of
    /// the first bound that does not convert, in the order x start, x end,
    /// y start, y end.
    pub open spec fn inner_try_into_spec<A>(self) -> Result<Rect<A>, S::Error> where
        S: TryInto<A>,
     {
        match (
            self.x.start.try_into_spec(),
            self.x.end.try_into_spec(),
            self.y.start.try_into_spec(),
            self.y.end.try_into_spec(),
        ) {
            (Ok(xs), Ok(xe), Ok(ys), Ok(ye)) => Ok(
                Rect { x: Range { start: xs, end: xe }, y: Range { start: ys, end: ye } },
            ),
            (Err(e), _, _, _) => Err(e),
            (Ok(_), Err(e), _, _) => Err(e),
            (Ok(_), Ok(_), Err(e), _) => Err(e),
            (Ok(_), Ok(_), Ok(_), Err(e)) => Err(e),
        }
    }

    /// Converts the four bounds with `TryInto`.
    pub fn inner_try_into<A>(self) -> (r: Result<Rect<A>, S::Error>) where S: TryInto<A>
        ensures
            S::obeys_try_into_spec() ==> r == self.inner_try_into_spec::<A>(),
    {
        let x = self.x.inner_try_into();
        let y = self.y.inner_try_into();
        match (x, y) {
            (Ok(x), Ok(y)) => Ok(Rect { x, y }),
            (Ok(_), Err(e)) => Err(e),
            (Err(e), Ok(_)) => Err(e),
            (Err(e1), Err(_)) => Err(e1),
        }
    }
}

impl<T: Copy + Sub<Output = T> + Add<Output = T>> Rect<T> {
    /// Create a rectangle from a point and radius.
    pub fn from_point(point: Vec2<T>, radius: Vec2<T>) -> (r: Rect<T>)
        requires
            point.x.sub_req(radius.x),
            point.x.add_req(radius.x),
            point.y.sub_req(radius.y),
            point.y.add_req(radius.y),
        ensures
            T::obeys_sub_spec() && T::obeys_add_spec() ==> r == (Rect {
                x: Range::from_point_spec(point.x, radius.x),
                y: Range::from_point_spec(point.y, radius.y),
            }),
    {
        let x = Range::from_point(point.x, radius.x);
        let y = Range::from_point(point.y, radius.y);
        Rect { x, y }
    }

    /// The rectangle widened by `radius` on all four sides.
    pub open spec fn grow_spec(self, radius: T) -> Rect<T> {
        Rect { x: self.x.grow_spec(radius), y: self.y.grow_spec(radius) }
    }

    ///Grow a rectangle of a radius.
    pub fn grow(self, radius: T) -> (r: Rect<T>)
        requires
            self.x.end.add_req(radius),
            self.x.start.sub_req(radius),
            self.y.end.add_req(radius),
            self.y.start.sub_req(radius),
        ensures
            T::obeys_sub_spec() && T::obeys_add_spec() ==> r == self.grow_spec(radius),
    {
        Rect { x: self.x.grow(radius), y: self.y.grow(radius) }
    }
}

impl<B: Copy> From<[B; 4]> for Rect<B> {
    fn from(a: [B; 4]) -> (r: Self) {
        Rect::new(a[0], a[1], a[2], a[3])
    }
}

impl<B: Copy> vstd::std_specs::convert::FromSpecImpl<[B; 4]> for Rect<B> {
    open spec fn obeys_from_spec() -> bool {
        true
    }

    open spec fn from_spec(a: [B; 4]) -> Self {
        Rect { x: Range { start: a@[0], end: a@[1] }, y: Range { start: a@[2], end: a@[3] } }
    }
}

impl<B> From<Rect<B>> for [B; 4] {
    fn from(a: Rect<B>) -> (r: Self) {
        [a.x.start, a.x.end, a.y.start, a.y.end]
    }
}

impl<B> vstd::std_specs::convert::FromSpecImpl<Rect<B>> for [B; 4] {
    open spec fn obeys_from_spec() -> bool {
        true
    }

    open spec fn from_spec(a: Rect<B>) -> Self {
        [a.x.start, a.x.end, a.y.start, a.y.end]
    }
}

impl<'a, B: Copy> From<&'a Rect<B>> for [B; 4] {
    fn from(a: &'a Rect<B>) -> (r: Self) {
        [a.x.start, a.x.end, a.y.start, a.y.end]
    }
}

impl<'a, B: Copy> vstd::std_specs::convert::FromSpecImpl<&'a Rect<B>> for [B; 4] {
    open spec fn obeys_from_spec() -> bool {
        true
    }

    open spec fn from_spec(a: &'a Rect<B>) -> Self {
        [a.x.start, a.x.end, a.y.start, a.y.end]
    }
}

impl<T> Rect<T> {
    /// The range on the given axis.
    pub open spec fn get_range_spec(&self, is_xaxis: bool) -> Range<T> {
        if is_xaxis {
            self.x
        } else {
            self.y
        }
    }

    ///Get the range of one axis.
    pub fn get_range(&self, axis: impl Axis) -> (r: &Range<T>)
        ensures
            *r == self.get_range_spec(axis.is_xaxis_spec()),
    {
        if axis.is_xaxis() {
            &self.x
        } else {
            &self.y
        }
    }

    ///Get the mutable range of one axis.
    pub fn get_range_mut(&mut self, axis: impl Axis) -> (r: &mut Range<T>)
        ensures
            *r == old(self).get_range_spec(axis.is_xaxis_spec()),
            *final(self) == (if axis.is_xaxis_spec() {
                Rect { x: *final(r), y: old(self).y }
            } else {
                Rect { x: old(self).x, y: *final(r) }
            }),
    {
        if axis.is_xaxis() {
            &mut self.x
        } else {
            &mut self.y
        }
    }

    ///Constructor.
    ///(xstart,xend) is the x component range.
    ///(ystart,yend) is the y component range.
    pub fn new(xstart: T, xend: T, ystart: T, yend: T) -> (r: Rect<T>)
        ensures
            r == (Rect {
                x: Range { start: xstart, end: xend },
                y: Range { start: ystart, end: yend },
            }),
    {
        Rect { x: Range { start: xstart, end: xend }, y: Range { start: ystart, end: yend } }
    }
}

impl<T: Copy> Rect<T> {
    /// The corner where both ranges start.
    pub fn top_left(&self) -> (r: Vec2<T>)
        ensures
            r == (Vec2 { x: self.x.start, y: self.y.start }),
    {
        vec2(self.x.start, self.y.start)
    }

    ///Returns each corner in this order:
    ///topleft
    ///topright
    ///bottomright
    ///bottomleft
    pub fn get_corners(&self) -> (r: [Vec2<T>; 4])
        ensures
            r@ == seq![
                Vec2 { x: self.x.start, y: self.y.start },
                Vec2 { x: self.x.end, y: self.y.start },
                Vec2 { x: self.x.end, y: self.y.end },
                Vec2 { x: self.x.start, y: self.y.end },
            ],
    {
        let r = [
            vec2(self.x.start, self.y.start),
            vec2(self.x.end, self.y.start),
            vec2(self.x.end, self.y.end),
            vec2(self.x.start, self.y.end),
        ];
        assert(r@ =~= seq![
            Vec2 { x: self.x.start, y: self.y.start },
            Vec2 { x: self.x.end, y: self.y.start },
            Vec2 { x: self.x.end, y: self.y.end },
            Vec2 { x: self.x.start, y: self.y.end },
        ]);
        r
    }

    ///(a,b) is the x component range.
    ///(c,d) is the y component range.
    pub fn get(&self) -> (r: ((T, T), (T, T)))
        ensures
            r == ((self.x.start, self.x.end), (self.y.start, self.y.end)),
    {
        let f = self;
        ((f.x.start, f.x.end), (f.y.start, f.y.end))
    }
}

impl<T: PartialOrd + Copy> Rect<T> {
    /// Both components of `a` lie inside the range of their axis.
    pub open spec fn contains_point_spec(&self, a: Vec2<T>) -> bool {
        self.x.contains_spec(a.x) && self.y.contains_spec(a.y)
    }

    /// Both ranges are valid.
    pub open spec fn is_valid_spec(&self) -> bool {
        self.x.is_valid_spec() && self.y.is_valid_spec()
    }

    /// On both axes the range of `self` contains that of `rect`.
    pub open spec fn contains_rect_spec(&self, rect: &Rect<T>) -> bool {
        self.x.contains_range_spec(&rect.x) && self.y.contains_range_spec(&rect.y)
    }

    /// Some point lies in both rectangles.
    pub open spec fn shares_point_spec(&self, other: &Rect<T>) -> bool {
        exists|p: Vec2<T>| #[trigger] self.contains_point_spec(p) && other.contains_point_spec(p)
    }

    /// On both axes the ranges intersect. In a total order this says that
    /// some point lies in both rectangles.
    pub open spec fn intersects_rect_spec(&self, other: &Rect<T>) -> bool {
        other.x.intersects_spec(&self.x) && other.y.intersects_spec(&self.y)
    }

    /// The rectangle after `grow_to_fit`: on both axes the range grown to
    /// fit that of `rect`.
    pub open spec fn grow_to_fit_spec(&self, rect: &Rect<T>) -> Rect<T> {
        Rect { x: self.x.grow_to_fit_spec(&rect.x), y: self.y.grow_to_fit_spec(&rect.y) }
    }

    /// A range after it was stretched to reach `p`: the start moves down to
    /// a `p` before it, else the end moves up to a `p` past it.
    pub open spec fn stretch_spec(r: Range<T>, p: T) -> Range<T> {
        if lt(p, r.start) {
            Range { start: p, end: r.end }
        } else if lt(r.end, p) {
            Range { start: r.start, end: p }
        } else {
            r
        }
    }

    /// The rectangle after `grow_to_fit_point`.
    pub open spec fn grow_to_fit_point_spec(&self, point: Vec2<T>) -> Rect<T> {
        Rect { x: Self::stretch_spec(self.x, point.x), y: Self::stretch_spec(self.y, point.y) }
    }

    /// The two parts that `subdivide` gives. The divider is first held
    /// within the range that is split, so a divider outside it gives one
    /// empty part and the whole rectangle as the other.
    pub open spec fn subdivide_spec(&self, is_xaxis: bool, divider: T) -> (Rect<T>, Rect<T>) {
        let rel = self.get_range_spec(is_xaxis);
        let carry_thru = self.get_range_spec(!is_xaxis);
        let d = clamp_spec(divider, rel.start, rel.end);
        let l = Range { start: rel.start, end: d };
        let r = Range { start: d, end: rel.end };
        if is_xaxis {
            (Rect { x: l, y: carry_thru }, Rect { x: r, y: carry_thru })
        } else {
            (Rect { x: carry_thru, y: l }, Rect { x: carry_thru, y: r })
        }
    }

    /// What two ranges share: the range from the larger start to the smaller
    /// end, or nothing where no point lies in it.
    pub open spec fn overlap_spec(a: Range<T>, b: Range<T>) -> Option<Range<T>> {
        let range = Range { start: partial_max(b.start, a.start), end: partial_min(b.end, a.end) };
        if le(range.end, range.start) {
            None
        } else {
            Some(range)
        }
    }

    /// The rectangle that two rectangles share, or nothing where they share
    /// no point.
    pub open spec fn get_intersect_rect_spec(&self, other: &Rect<T>) -> Option<Rect<T>> {
        match (Self::overlap_spec(self.x, other.x), Self::overlap_spec(self.y, other.y)) {
            (Some(x), Some(y)) => Some(Rect { x, y }),
            _ => None,
        }
    }

    ///Returns true if the point is contained in the the ranges of both axis.
    pub fn contains_point(&self, a: Vec2<T>) -> (r: bool)
        ensures
            T::obeys_partial_cmp_spec() ==> r == self.contains_point_spec(a),
            T::obeys_partial_cmp_spec() ==> r == (self.x.contains_spec(a.x) && self.y.contains_spec(
                a.y,
            )),
    {
        self.x.contains(a.x) && self.y.contains(a.y)
    }

    ///Subdivides the rectangle.
    ///No floating point calculations are done.
    ///
    /// The range on `axis` is split at `divider` and the range on the other
    /// axis is carried through into both parts. A divider outside the range
    /// that is split is first moved to the nearer bound of that range, so
    /// the split never fails: one part is then empty and the other is the
    /// whole rectangle.
    pub fn subdivide<A: Axis>(&self, axis: A, divider: T) -> (r: (Rect<T>, Rect<T>))
        requires
            is_total_order::<T>(),
            self.get_range_spec(axis.is_xaxis_spec()).is_valid_spec(),
        ensures
            r == self.subdivide_spec(axis.is_xaxis_spec(), divider),
            r.0.get_range_spec(!axis.is_xaxis_spec()) == self.get_range_spec(!axis.is_xaxis_spec()),
            r.1.get_range_spec(!axis.is_xaxis_spec()) == self.get_range_spec(!axis.is_xaxis_spec()),
            r.0.get_range_spec(axis.is_xaxis_spec()).start == self.get_range_spec(
                axis.is_xaxis_spec(),
            ).start,
            r.1.get_range_spec(axis.is_xaxis_spec()).end == self.get_range_spec(
                axis.is_xaxis_spec(),
            ).end,
            r.0.get_range_spec(axis.is_xaxis_spec()).end == r.1.get_range_spec(
                axis.is_xaxis_spec(),
            ).start,
            r.0.get_range_spec(axis.is_xaxis_spec()).is_valid_spec(),
            r.1.get_range_spec(axis.is_xaxis_spec()).is_valid_spec(),
    {
        let is_x = axis.is_xaxis();
        let rel = if is_x {
            self.x
        } else {
            self.y
        };
        let carry_thru = if is_x {
            self.y
        } else {
            self.x
        };
        let d = clamp(divider, rel.start, rel.end);
        proof {
            lemma_trichotomy(divider, rel.start);
            lemma_trichotomy(divider, rel.end);
            lemma_trichotomy(rel.start, rel.start);
            lemma_trichotomy(rel.end, rel.end);
            lemma_trichotomy(rel.start, rel.end);
        }
        let (l, r) = rel.subdivide(d);

        if is_x {
            (Rect { x: l, y: carry_thru }, Rect { x: r, y: carry_thru })
        } else {
            (Rect { x: carry_thru, y: l }, Rect { x: carry_thru, y: r })
        }
    }

    ///Returns true if the rectangle's ranges are not degenerate.
    pub fn is_valid(&self) -> (r: bool)
        ensures
            T::obeys_partial_cmp_spec() ==> r == self.is_valid_spec(),
    {
        self.x.is_valid() && self.y.is_valid()
    }

    ///Returns true if the specified rect is inside of this rect.
    pub fn contains_rect(&self, rect: &Rect<T>) -> (r: bool)
        ensures
            T::obeys_partial_cmp_spec() ==> r == self.contains_rect_spec(rect),
    {
        self.x.contains_range(&rect.x) && self.y.contains_range(&rect.y)
    }

    /// Stretches the rectangle until it reaches `point`, moving on each axis
    /// at most one bound, to the point's component.
    pub fn grow_to_fit_point(&mut self, point: Vec2<T>) -> (r: &mut Self)
        ensures
            T::obeys_partial_cmp_spec() ==> *r == old(self).grow_to_fit_point_spec(point),
            *final(self) == *final(r),
    {
        if point.x < self.x.start {
            self.x.start = point.x
        } else if self.x.end < point.x {
            self.x.end = point.x
        }
        if point.y < self.y.start {
            self.y.start = point.y
        } else if self.y.end < point.y {
            self.y.end = point.y
        }
        self
    }

    ///Grow the rectangle to fit the specified rectangle by replacing values
    ///with the specified rectangle. No floating point computations.
    pub fn grow_to_fit(&mut self, rect: &Rect<T>) -> (r: &mut Self)
        ensures
            T::obeys_partial_cmp_spec() ==> *r == old(self).grow_to_fit_spec(rect),
            is_total_order::<T>() ==> r.contains_rect_spec(&*old(self)) && r.contains_rect_spec(
                rect,
            ),
            *final(self) == *final(r),
    {
        self.x.grow_to_fit(&rect.x);
        self.y.grow_to_fit(&rect.y);
        self
    }

    /// What the range `xf` shares with the range `xr`.
    fn overlap(xf: &Range<T>, xr: &Range<T>) -> (r: Option<Range<T>>)
        ensures
            T::obeys_partial_cmp_spec() ==> r == Self::overlap_spec(*xf, *xr),
    {
        let range = Range {
            start: partial_min_max::max(xr.start, xf.start),
            end: partial_min_max::min(xr.end, xf.end),
        };

        if range.end <= range.start {
            return None;
        }
        Some(range)
    }

    ///Get an intersecting rectangle.
    ///No floating point calculations as the new rectangle is made up of
    ///values from this rectangle and the specified rectangle.
    pub fn get_intersect_rect(&self, other: &Rect<T>) -> (r: Option<Rect<T>>)
        ensures
            T::obeys_partial_cmp_spec() ==> r == self.get_intersect_rect_spec(other),
    {
        let x = match Self::overlap(self.get_range(XAXIS), other.get_range(XAXIS)) {
            Some(x) => x,
            None => {
                return None;
            },
        };
        let y = match Self::overlap(self.get_range(YAXIS), other.get_range(YAXIS)) {
            Some(y) => y,
            None => {
                return None;
            },
        };
        Some(Rect { x, y })
    }

    /// Returns true if the two rectangles intersect: if some point lies in
    /// both. A rectangle that holds no point intersects nothing.
    pub fn intersects_rect(&self, other: &Rect<T>) -> (r: bool)
        ensures
            T::obeys_partial_cmp_spec() ==> r == self.intersects_rect_spec(other),
            is_total_order::<T>() ==> r == self.shares_point_spec(other),
    {
        proof {
            if is_total_order::<T>() {
                lemma_intersects_rect_iff_common_point(*self, *other);
            }
        }
        other.x.intersects(&self.x) && other.y.intersects(&self.y)
    }
}

impl<T: Copy + PartialOrd + Sub<Output = T> + Mul<Output = T> + Add<Output = T>> Rect<T> {
    /// The corner of the rectangle that is furthest from `point`, picked on
    /// each axis by itself.
    pub open spec fn furthest_corner_spec(&self, point: Vec2<T>) -> Vec2<T> {
        Vec2 {
            x: reverse_clamp_spec(point.x, self.x.start, self.x.end),
            y: reverse_clamp_spec(point.y, self.y.start, self.y.end),
        }
    }

    /// The squared distance from `point` to the furthest corner.
    pub open spec fn furthest_distance_squared_to_point_spec(&self, point: Vec2<T>) -> T {
        let c = self.furthest_corner_spec(point);
        sum_of_squared_diffs(c.x, point.x, c.y, point.y)
    }

    /// Each step of `furthest_distance_squared_to_point` is one that `T`
    /// allows.
    pub open spec fn furthest_distance_squared_to_point_req(&self, point: Vec2<T>) -> bool {
        let c = self.furthest_corner_spec(point);
        &&& point.x.sub_req(self.x.start)
        &&& self.x.end.sub_req(point.x)
        &&& point.y.sub_req(self.y.start)
        &&& self.y.end.sub_req(point.y)
        &&& sum_of_squared_diffs_req(c.x, point.x, c.y, point.y)
    }

    ///Returns the squared distance from a point to the furthest corner
    ///of the rectangle.
    pub fn furthest_distance_squared_to_point(&self, point: Vec2<T>) -> (r: T)
        requires
            T::obeys_partial_cmp_spec(),
            T::obeys_sub_spec(),
            T::obeys_mul_spec(),
            self.furthest_distance_squared_to_point_req(point),
        ensures
            T::obeys_add_spec() ==> r == self.furthest_distance_squared_to_point_spec(point),
    {
        let (px, py) = (point.x, point.y);

        let ((a, b), (c, d)) = self.get();

        let xx = reverse_clamp(px, a, b);
        let yy = reverse_clamp(py, c, d);

        (xx - px) * (xx - px) + (yy - py) * (yy - py)
    }

    /// The point of the rectangle's closure that is nearest to `point`.
    pub open spec fn nearest_point_spec(&self, point: Vec2<T>) -> Vec2<T> {
        Vec2 {
            x: clamp_spec(point.x, self.x.start, self.x.end),
            y: clamp_spec(point.y, self.y.start, self.y.end),
        }
    }

    /// `point` lies strictly between the bounds on both axes.
    pub open spec fn is_interior_spec(&self, point: Vec2<T>) -> bool {
        let n = self.nearest_point_spec(point);
        &&& gt(n.x, self.x.start)
        &&& lt(n.x, self.x.end)
        &&& gt(n.y, self.y.start)
        &&& lt(n.y, self.y.end)
    }

    /// Nothing for a point strictly inside the rectangle, else the squared
    /// distance from `point` to the nearest point of the rectangle.
    pub open spec fn distance_squared_to_point_spec(&self, point: Vec2<T>) -> Option<T> {
        let n = self.nearest_point_spec(point);
        if self.is_interior_spec(point) {
            None
        } else {
            Some(sum_of_squared_diffs(n.x, point.x, n.y, point.y))
        }
    }

    ///If the point is outside the rectangle, returns the squared distance from the closest corner of the rectangle.
    ///If the point is inside the rectangle, it will return None.
    pub fn distance_squared_to_point(&self, point: Vec2<T>) -> (r: Option<T>)
        requires
            T::obeys_partial_cmp_spec(),
            T::obeys_sub_spec(),
            T::obeys_mul_spec(),
            self.is_valid_spec(),
            ({
                let n = self.nearest_point_spec(point);
                sum_of_squared_diffs_req(n.x, point.x, n.y, point.y)
            }),
        ensures
            T::obeys_add_spec() ==> r == self.distance_squared_to_point_spec(point),
            r is None <==> self.is_interior_spec(point),
    {
        let (px, py) = (point.x, point.y);

        let ((a, b), (c, d)) = self.get();

        let xx = clamp(px, a, b);
        let yy = clamp(py, c, d);

        let dis = (xx - px) * (xx - px) + (yy - py) * (yy - py);

        if xx > a && xx < b && yy > c && yy < d {
            None
        } else {
            Some(dis)
        }
    }
}

impl Rect<i64> {
    /// The middle of the rectangle: on each axis the start plus half the
    /// length, the half rounded toward zero.
    pub open spec fn derive_center_spec(&self) -> (int, int) {
        (
            self.x.start + truncating_div(self.x.end - self.x.start, 2),
            self.y.start + truncating_div(self.y.end - self.y.start, 2),
        )
    }

    /// The middle of the rectangle.
    pub fn derive_center(&self) -> (r: Vec2<i64>)
        requires
            i64::MIN <= self.x.end - self.x.start <= i64::MAX,
            i64::MIN <= self.y.end - self.y.start <= i64::MAX,
        ensures
            r.x == self.derive_center_spec().0,
            r.y == self.derive_center_spec().1,
    {
        let two: i64 = 2;
        let ((a, b), (c, d)) = self.get();
        vec2(a + (b - a) / two, c + (d - c) / two)
    }
}

/// For a rectangle and a point of `i64` coordinates that are all at most
/// 2^29 in absolute value, both squared distances are computed without
/// leaving `i64`.
pub proof fn lemma_distances_within_reach(rect: Rect<i64>, point: Vec2<i64>)
    requires
        within_reach(rect.x.start),
        within_reach(rect.x.end),
        within_reach(rect.y.start),
        within_reach(rect.y.end),
        within_reach(point.x),
        within_reach(point.y),
    ensures
        rect.furthest_distance_squared_to_point_req(point),
        ({
            let n = rect.nearest_point_spec(point);
            sum_of_squared_diffs_req(n.x, point.x, n.y, point.y)
        }),
{
    let c = rect.furthest_corner_spec(point);
    let n = rect.nearest_point_spec(point);
    lemma_sum_of_squared_diffs_within_reach(c.x, point.x, c.y, point.y);
    lemma_sum_of_squared_diffs_within_reach(n.x, point.x, n.y, point.y);
}

/// For a valid rectangle of small `i64` coordinates, no point between its
/// bounds is further from `point` than the corner that
/// `furthest_distance_squared_to_point` measures to.
pub proof fn lemma_furthest_corner_is_furthest(rect: Rect<i64>, point: Vec2<i64>, q: Vec2<i64>)
    requires
        rect.is_valid_spec(),
        within_reach(rect.x.start),
        within_reach(rect.x.end),
        within_reach(rect.y.start),
        within_reach(rect.y.end),
        within_reach(point.x),
        within_reach(point.y),
        rect.x.start <= q.x <= rect.x.end,
        rect.y.start <= q.y <= rect.y.end,
    ensures
        sum_of_squared_diffs(q.x, point.x, q.y, point.y)
            <= rect.furthest_distance_squared_to_point_spec(point),
{
    let c = rect.furthest_corner_spec(point);
    lemma_sum_of_squared_diffs_within_reach(c.x, point.x, c.y, point.y);
    lemma_sum_of_squared_diffs_within_reach(q.x, point.x, q.y, point.y);
    lemma_square_le(q.x - point.x, c.x - point.x);
    lemma_square_le(q.y - point.y, c.y - point.y);
}

/// For a valid rectangle of small `i64` coordinates, no point between its
/// bounds is nearer to `point` than the point that
/// `distance_squared_to_point` measures to.
pub proof fn lemma_nearest_point_is_nearest(rect: Rect<i64>, point: Vec2<i64>, q: Vec2<i64>)
    requires
        rect.is_valid_spec(),
        within_reach(rect.x.start),
        within_reach(rect.x.end),
        within_reach(rect.y.start),
        within_reach(rect.y.end),
        within_reach(point.x),
        within_reach(point.y),
        rect.x.start <= q.x <= rect.x.end,
        rect.y.start <= q.y <= rect.y.end,
    ensures
        ({
            let n = rect.nearest_point_spec(point);
            &&& rect.x.start <= n.x <= rect.x.end
            &&& rect.y.start <= n.y <= rect.y.end
            &&& sum_of_squared_diffs(n.x, point.x, n.y, point.y) <= sum_of_squared_diffs(
                q.x,
                point.x,
                q.y,
                point.y,
            )
        }),
{
    let n = rect.nearest_point_spec(point);
    lemma_sum_of_squared_diffs_within_reach(n.x, point.x, n.y, point.y);
    lemma_sum_of_squared_diffs_within_reach(q.x, point.x, q.y, point.y);
    lemma_square_le(n.x - point.x, q.x - point.x);
    lemma_square_le(n.y - point.y, q.y - point.y);
}

/// Splitting a rectangle leaves the range across the split as it was in both
/// parts, and the two ranges along the split put together are the range
/// that was split: they start where it starts, end where it ends, and meet
/// at one value.
pub proof fn lemma_subdivide_keeps_ranges<T: PartialOrd + Copy>(
    rect: Rect<T>,
    is_xaxis: bool,
    divider: T,
)
    ensures
        ({
            let (l, r) = rect.subdivide_spec(is_xaxis, divider);
            &&& l.get_range_spec(!is_xaxis) == rect.get_range_spec(!is_xaxis)
            &&& r.get_range_spec(!is_xaxis) == rect.get_range_spec(!is_xaxis)
            &&& l.get_range_spec(is_xaxis).start == rect.get_range_spec(is_xaxis).start
            &&& r.get_range_spec(is_xaxis).end == rect.get_range_spec(is_xaxis).end
            &&& l.get_range_spec(is_xaxis).end == r.get_range_spec(is_xaxis).start
        }),
{
}

/// For a totally ordered `T`, two rectangles intersect exactly when some
/// point lies in both, which is exactly when there is a rectangle that they
/// share.
pub proof fn lemma_intersects_rect_iff_common_point<T: PartialOrd + Copy>(a: Rect<T>, b: Rect<T>)
    requires
        is_total_order::<T>(),
    ensures
        a.intersects_rect_spec(&b) <==> a.shares_point_spec(&b),
        a.intersects_rect_spec(&b) <==> b.intersects_rect_spec(&a),
        a.intersects_rect_spec(&b) <==> a.get_intersect_rect_spec(&b) is Some,
{
    lemma_intersects_iff_common_point(b.x, a.x);
    lemma_intersects_iff_common_point(b.y, a.y);
    lemma_intersects_iff_common_point(a.x, b.x);
    lemma_intersects_iff_common_point(a.y, b.y);
    if a.intersects_rect_spec(&b) {
        let px = choose|p: T| #[trigger] b.x.contains_spec(p) && a.x.contains_spec(p);
        let py = choose|p: T| #[trigger] b.y.contains_spec(p) && a.y.contains_spec(p);
        let p = Vec2 { x: px, y: py };
        assert(a.contains_point_spec(p) && b.contains_point_spec(p));
        lemma_get_intersect_rect_meets(a, b, p);
    }
    if a.shares_point_spec(&b) {
        let p = choose|p: Vec2<T>| #[trigger]
            a.contains_point_spec(p) && b.contains_point_spec(p);
        assert(b.x.contains_spec(p.x) && a.x.contains_spec(p.x));
        assert(b.y.contains_spec(p.y) && a.y.contains_spec(p.y));
    }
    if a.get_intersect_rect_spec(&b) is Some {
        let c = a.get_intersect_rect_spec(&b)->0;
        lemma_overlap_holds_its_start(a.x, b.x);
        lemma_overlap_holds_its_start(a.y, b.y);
        let p = Vec2 { x: c.x.start, y: c.y.start };
        lemma_get_intersect_rect_meets(a, b, p);
        assert(a.contains_point_spec(p) && b.contains_point_spec(p));
    }
}

/// For a totally ordered `T`, what two ranges share, where there is
/// something, holds its own start.
proof fn lemma_overlap_holds_its_start<T: PartialOrd + Copy>(a: Range<T>, b: Range<T>)
    requires
        is_total_order::<T>(),
    ensures
        Rect::overlap_spec(a, b) matches Some(c) ==> c.contains_spec(c.start),
{
    let s = partial_max(b.start, a.start);
    let e = partial_min(b.end, a.end);
    lemma_trichotomy(e, s);
    lemma_trichotomy(s, e);
    lemma_trichotomy(s, s);
}

/// For a totally ordered `T`, the rectangle that two rectangles share holds
/// exactly the points that lie in both, and there is none exactly where no
/// point lies in both.
pub proof fn lemma_get_intersect_rect_meets<T: PartialOrd + Copy>(a: Rect<T>, b: Rect<T>, p: Vec2<T>)
    requires
        is_total_order::<T>(),
    ensures
        match a.get_intersect_rect_spec(&b) {
            Some(c) => c.contains_point_spec(p) <==> a.contains_point_spec(p)
                && b.contains_point_spec(p),
            None => !(a.contains_point_spec(p) && b.contains_point_spec(p)),
        },
        a.get_intersect_rect_spec(&b) == b.get_intersect_rect_spec(&a),
{
    lemma_overlap_meets(a.x, b.x, p.x);
    lemma_overlap_meets(a.y, b.y, p.y);
}

/// For a totally ordered `T`, what two ranges share holds exactly the points
/// that lie in both, and does not depend on the order of the two.
proof fn lemma_overlap_meets<T: PartialOrd + Copy>(a: Range<T>, b: Range<T>, p: T)
    requires
        is_total_order::<T>(),
    ensures
        match Rect::overlap_spec(a, b) {
            Some(c) => c.contains_spec(p) <==> a.contains_spec(p) && b.contains_spec(p),
            None => !(a.contains_spec(p) && b.contains_spec(p)),
        },
        Rect::overlap_spec(a, b) == Rect::overlap_spec(b, a),
{
    let s = partial_max(b.start, a.start);
    let e = partial_min(b.end, a.end);
    lemma_trichotomy(a.start, b.start);
    lemma_trichotomy(b.start, a.start);
    lemma_trichotomy(a.end, b.end);
    lemma_trichotomy(b.end, a.end);
    lemma_trichotomy(e, s);
    lemma_trichotomy(p, a.start);
    lemma_trichotomy(p, b.start);
    lemma_trichotomy(p, a.end);
    lemma_trichotomy(p, b.end);
    lemma_trichotomy(p, s);
    lemma_trichotomy(p, e);
    lemma_transitive(s, p, e);
    lemma_transitive(a.start, b.start, p);
    lemma_transitive(b.start, a.start, p);
    lemma_transitive(p, a.end, b.end);
    lemma_transitive(p, b.end, a.end);
}

/// For a totally ordered `T` and a rectangle whose split range is valid,
/// every point of the rectangle lies in exactly one of the two parts, and
/// the parts hold no other point.
pub proof fn lemma_subdivide_partitions<T: PartialOrd + Copy>(
    rect: Rect<T>,
    is_xaxis: bool,
    divider: T,
    p: Vec2<T>,
)
    requires
        is_total_order::<T>(),
        rect.get_range_spec(is_xaxis).is_valid_spec(),
    ensures
        ({
            let (l, r) = rect.subdivide_spec(is_xaxis, divider);
            &&& rect.contains_point_spec(p) <==> l.contains_point_spec(p) || r.contains_point_spec(p)
            &&& !(l.contains_point_spec(p) && r.contains_point_spec(p))
        }),
{
    let rel = rect.get_range_spec(is_xaxis);
    let d = clamp_spec(divider, rel.start, rel.end);
    let q = p.get_axis_spec(is_xaxis);
    lemma_trichotomy(divider, rel.start);
    lemma_trichotomy(divider, rel.end);
    lemma_trichotomy(rel.start, rel.end);
    lemma_trichotomy(q, rel.start);
    lemma_trichotomy(q, rel.end);
    lemma_trichotomy(q, d);
    lemma_trichotomy(d, rel.start);
    lemma_trichotomy(d, rel.end);
    lemma_transitive(q, d, rel.end);
    lemma_transitive(rel.start, d, q);
}

} // verus!
