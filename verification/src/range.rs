use crate::order::{
    ge, gt, is_total_ord, is_total_order, le, lemma_transitive, lemma_trichotomy, lt, max_of,
    min_of,
};
use crate::scalar::{abs_i64, abs_int, min_int};
use core::cmp::Ordering;
use core::ops::{Add, Sub};
use vstd::prelude::*;
use vstd::std_specs::cmp::{OrdSpec, PartialOrdSpec};
use vstd::std_specs::convert::{IntoSpec, TryIntoSpec};
use vstd::std_specs::ops::{AddSpec, SubSpec};

verus! {

/// A 1D range, stored as its two bounds rather than as a start and a length,
/// so that splitting it never computes a new bound.
///
/// A point lies inside the range when it is in the half-open interval
/// `[start, end)`. A range with `start > end` is degenerate; nothing stops
/// one from being built, and `is_valid` tells them apart.
#[derive(Copy, Clone, Debug, Eq, PartialEq)]
#[must_use]
pub struct Range<T> {
    pub start: T,
    pub end: T,
}

/// Convenience function to create a `Range`.
pub fn range<T>(start: T, end: T) -> (r: Range<T>)
    ensures
        r == (Range { start, end }),
{
    Range { start, end }
}

impl<T> Range<T> {
    /// Builds the range with the given bounds, without checking them.
    #[must_use]
    pub fn new(start: T, end: T) -> (r: Range<T>)
        ensures
            r == (Range { start, end }),
    {
        Range { start, end }
    }
}

impl<B: Copy> From<[B; 2]> for Range<B> {
    fn from(a: [B; 2]) -> (r: Self) {
        Range { start: a[0], end: a[1] }
    }
}

impl<B: Copy> vstd::std_specs::convert::FromSpecImpl<[B; 2]> for Range<B> {
    open spec fn obeys_from_spec() -> bool {
        true
    }

    open spec fn from_spec(a: [B; 2]) -> Self {
        Range { start: a@[0], end: a@[1] }
    }
}

impl<B> From<Range<B>> for [B; 2] {
    fn from(a: Range<B>) -> (r: Self) {
        [a.start, a.end]
    }
}

impl<B> vstd::std_specs::convert::FromSpecImpl<Range<B>> for [B; 2] {
    open spec fn obeys_from_spec() -> bool {
        true
    }

    open spec fn from_spec(a: Range<B>) -> Self {
        [a.start, a.end]
    }
}

impl<T: Copy + PartialOrd> Range<T> {
    /// Where `pos` lies relative to the range: `Less` before `start`,
    /// `Greater` at or past `end`, `Equal` inside.
    pub open spec fn contains_ext_spec(&self, pos: T) -> Ordering {
        if lt(pos, self.start) {
            Ordering::Less
        } else if ge(pos, self.end) {
            Ordering::Greater
        } else {
            Ordering::Equal
        }
    }

    /// `pos` is neither before `start` nor at or past `end`.
    pub open spec fn contains_spec(&self, pos: T) -> bool {
        !lt(pos, self.start) && !ge(pos, self.end)
    }

    /// `start <= end`.
    pub open spec fn is_valid_spec(&self) -> bool {
        le(self.start, self.end)
    }

    /// `val` lies within the bounds of `self`.
    pub open spec fn contains_range_spec(&self, val: &Range<T>) -> bool {
        le(self.start, val.start) && le(val.end, self.end)
    }

    /// Some point lies in both ranges.
    pub open spec fn shares_point_spec(&self, val: &Range<T>) -> bool {
        exists|p: T| #[trigger] self.contains_spec(p) && val.contains_spec(p)
    }

    /// One of the two ranges holds a point and the other contains its
    /// start. In a total order this says that some point lies in both.
    pub open spec fn intersects_spec(&self, val: &Range<T>) -> bool {
        ||| self.contains_spec(val.start) && lt(val.start, val.end)
        ||| val.contains_spec(self.start) && lt(self.start, self.end)
    }

    /// The smallest range whose bounds reach at least as far as those of
    /// `self` and of `b`, built from their bounds alone.
    pub open spec fn grow_to_fit_spec(&self, b: &Range<T>) -> Range<T> {
        Range {
            start: if lt(b.start, self.start) {
                b.start
            } else {
                self.start
            },
            end: if gt(b.end, self.end) {
                b.end
            } else {
                self.end
            },
        }
    }

    /// Like `contains`, but tells on which side a point outside lies.
    pub fn contains_ext(&self, pos: T) -> (r: Ordering)
        ensures
            T::obeys_partial_cmp_spec() ==> r == self.contains_ext_spec(pos),
    {
        if pos < self.start {
            Ordering::Less
        } else if pos >= self.end {
            Ordering::Greater
        } else {
            Ordering::Equal
        }
    }

    /// Returns true if the point is in `[start, end)`.
    pub fn contains(&self, pos: T) -> (r: bool)
        ensures
            T::obeys_partial_cmp_spec() ==> r == self.contains_spec(pos),
            T::obeys_partial_cmp_spec() ==> r == (self.contains_ext_spec(pos) == Ordering::Equal),
    {
        match self.contains_ext(pos) {
            Ordering::Equal => true,
            _ => false,
        }
    }

    /// Splits the range at `divider` into `[start, divider)` and
    /// `[divider, end)`. The four bounds of the result are the three given
    /// values themselves: nothing is computed from them.
    pub fn subdivide(&self, divider: T) -> (r: (Range<T>, Range<T>))
        requires
            le(self.start, divider),
            le(divider, self.end),
        ensures
            r.0 == (Range { start: self.start, end: divider }),
            r.1 == (Range { start: divider, end: self.end }),
            r.0.is_valid_spec(),
            r.1.is_valid_spec(),
    {
        let l = Range { start: self.start, end: divider };
        let r = Range { start: divider, end: self.end };
        (l, r)
    }

    /// Returns true if the range is not degenerate.
    #[must_use]
    pub fn is_valid(&self) -> (r: bool)
        ensures
            T::obeys_partial_cmp_spec() ==> r == self.is_valid_spec(),
    {
        self.start <= self.end
    }

    /// Widens the range until it covers `b`. Each bound either stays or is
    /// replaced by the matching bound of `b`, so the range never shrinks.
    pub fn grow_to_fit(&mut self, b: &Range<T>)
        ensures
            T::obeys_partial_cmp_spec() ==> *final(self) == old(self).grow_to_fit_spec(b),
            is_total_order::<T>() ==> final(self).contains_range_spec(&*old(self))
                && final(self).contains_range_spec(b),
    {
        proof {
            if is_total_order::<T>() {
                lemma_trichotomy(b.start, self.start);
                lemma_trichotomy(b.end, self.end);
                lemma_trichotomy(self.start, self.start);
                lemma_trichotomy(self.end, self.end);
                lemma_trichotomy(b.start, b.start);
                lemma_trichotomy(b.end, b.end);
            }
        }
        if b.start < self.start {
            self.start = b.start;
        }
        if b.end > self.end {
            self.end = b.end;
        }
    }

    /// Returns true if self contains the specified range.
    pub fn contains_range(&self, val: &Range<T>) -> (r: bool)
        ensures
            T::obeys_partial_cmp_spec() ==> r == self.contains_range_spec(val),
    {
        self.start <= val.start && val.end <= self.end
    }

    /// Returns true if two ranges intersect: if some point lies in both. A
    /// range that holds no point intersects nothing.
    pub fn intersects(&self, val: &Range<T>) -> (r: bool)
        ensures
            T::obeys_partial_cmp_spec() ==> r == self.intersects_spec(val),
            is_total_order::<T>() ==> r == self.shares_point_spec(val),
    {
        proof {
            if is_total_order::<T>() {
                lemma_intersects_iff_common_point(*self, *val);
            }
        }
        (self.contains(val.start) && val.start < val.end) || (val.contains(self.start)
            && self.start < self.end)
    }
}

impl<T: Copy + Sub<Output = T>> Range<T> {
    /// The length of the range, `end - start`.
    pub fn distance(&self) -> (r: T)
        requires
            self.end.sub_req(self.start),
        ensures
            T::obeys_sub_spec() ==> r == self.end.sub_spec(self.start),
    {
        self.end - self.start
    }
}

impl<T: Copy + PartialOrd + Sub<Output = T>> Range<T> {
    /// The signed offset of `pos` from the bound it is beyond: `pos - start`
    /// before the range, `pos - end` at or past its end, nothing inside.
    pub open spec fn difference_to_point_spec(&self, pos: T) -> Option<T> {
        match self.contains_ext_spec(pos) {
            Ordering::Less => Some(pos.sub_spec(self.start)),
            Ordering::Greater => Some(pos.sub_spec(self.end)),
            Ordering::Equal => None,
        }
    }

    /// The subtraction that `difference_to_point` makes is one that `T`
    /// allows.
    pub open spec fn difference_to_point_req(&self, pos: T) -> bool {
        match self.contains_ext_spec(pos) {
            Ordering::Less => pos.sub_req(self.start),
            Ordering::Greater => pos.sub_req(self.end),
            Ordering::Equal => true,
        }
    }

    ///Positive if point is to the right of the range.
    ///Negative if point is to the left of range.
    pub fn difference_to_point(&self, pos: T) -> (r: Option<T>)
        requires
            T::obeys_partial_cmp_spec(),
            self.difference_to_point_req(pos),
        ensures
            T::obeys_sub_spec() ==> r == self.difference_to_point_spec(pos),
            r is None <==> self.contains_spec(pos),
    {
        match self.contains_ext(pos) {
            Ordering::Less => Some(pos - self.start),
            Ordering::Greater => Some(pos - self.end),
            Ordering::Equal => None,
        }
    }
}

impl<T: Copy + Sub<Output = T> + Add<Output = T>> Range<T> {
    /// The range widened by `radius` on both sides.
    pub open spec fn grow_spec(self, radius: T) -> Range<T> {
        Range { start: self.start.sub_spec(radius), end: self.end.add_spec(radius) }
    }

    /// The range of radius `radius` around `point`.
    pub open spec fn from_point_spec(point: T, radius: T) -> Range<T> {
        Range { start: point.sub_spec(radius), end: point.add_spec(radius) }
    }

    /// Widens the range by `radius` on both sides.
    #[must_use]
    pub fn grow(self, radius: T) -> (r: Range<T>)
        requires
            self.end.add_req(radius),
            self.start.sub_req(radius),
        ensures
            T::obeys_sub_spec() ==> r.start == self.grow_spec(radius).start,
            T::obeys_add_spec() ==> r.end == self.grow_spec(radius).end,
    {
        let mut s = self;
        s.end = s.end + radius;
        s.start = s.start - radius;
        s
    }

    /// Create a range from a point and radius.
    pub fn from_point(point: T, radius: T) -> (r: Range<T>)
        requires
            point.sub_req(radius),
            point.add_req(radius),
        ensures
            T::obeys_sub_spec() ==> r.start == Self::from_point_spec(point, radius).start,
            T::obeys_add_spec() ==> r.end == Self::from_point_spec(point, radius).end,
    {
        Range { start: point - radius, end: point + radius }
    }
}

impl<T: Copy + Ord> Range<T> {
    /// The range from the larger start to the smaller end, if that range is
    /// not degenerate.
    pub open spec fn get_intersection_spec(&self, val: &Range<T>) -> Option<Range<T>> {
        let a = max_of(self.start, val.start);
        let b = min_of(self.end, val.end);
        if gt(a, b) {
            None
        } else {
            Some(Range { start: a, end: b })
        }
    }

    /// Creates a range that represents the intersection range. Its bounds
    /// are bounds of the two given ranges: nothing is computed from them.
    pub fn get_intersection(&self, val: &Range<T>) -> (r: Option<Range<T>>)
        ensures
            T::obeys_cmp_spec() && T::obeys_partial_cmp_spec() ==> r == self.get_intersection_spec(
                val,
            ),
    {
        let a = self.start.max(val.start);
        let b = self.end.min(val.end);
        if a > b {
            None
        } else {
            Some(Range { start: a, end: b })
        }
    }
}

impl Range<i64> {
    /// The distance from `pos` to the nearer bound, or nothing for a point
    /// inside the range.
    pub open spec fn distance_to_point_spec(&self, pos: i64) -> Option<int> {
        if self.contains_spec(pos) {
            None
        } else {
            Some(min_int(abs_int(pos - self.start), abs_int(pos - self.end)))
        }
    }

    /// Both offsets of `pos` from the bounds have an absolute value that an
    /// `i64` holds.
    pub open spec fn offsets_fit(&self, pos: i64) -> bool {
        &&& i64::MIN < pos - self.start <= i64::MAX
        &&& i64::MIN < pos - self.end <= i64::MAX
    }

    /// Distance from a point outside the range to the nearer bound.
    pub fn distance_to_point(&self, pos: i64) -> (r: Option<i64>)
        requires
            !self.contains_spec(pos) ==> self.offsets_fit(pos),
        ensures
            match (r, self.distance_to_point_spec(pos)) {
                (Some(d), Some(m)) => d == m,
                (None, None) => true,
                _ => false,
            },
    {
        if self.contains(pos) {
            None
        } else {
            let a = abs_i64(pos - self.start);
            let b = abs_i64(pos - self.end);
            Some(a.min(b))
        }
    }
}

impl<S> Range<S> {
    /// Converts both bounds with `Into`.
    pub fn inner_into<A>(self) -> (r: Range<A>) where S: Into<A>
        ensures
            S::obeys_into_spec() ==> r == (Range {
                start: self.start.into_spec(),
                end: self.end.into_spec(),
            }),
    {
        let start = self.start.into();
        let end = self.end.into();
        Range { start, end }
    }

    /// Converts both bounds with `TryInto`. Fails with the error of the
    /// first bound that does not convert, the start before the end.
    pub fn inner_try_into<A>(self) -> (r: Result<Range<A>, S::Error>) where S: TryInto<A>
        ensures
            S::obeys_try_into_spec() ==> r == (match (
                self.start.try_into_spec(),
                self.end.try_into_spec(),
            ) {
                (Ok(start), Ok(end)) => Ok(Range { start, end }),
                (Err(e), _) => Err(e),
                (Ok(_), Err(e)) => Err(e),
            }),
    {
        let start = self.start.try_into();
        let end = self.end.try_into();
        match (start, end) {
            (Ok(start), Ok(end)) => Ok(Range { start, end }),
            (Ok(_), Err(e)) => Err(e),
            (Err(e), Ok(_)) => Err(e),
            (Err(e1), Err(_)) => Err(e1),
        }
    }
}

/// For a totally ordered `T`, the two parts of a split range share no point,
/// and together hold exactly the points of the range.
pub proof fn lemma_subdivide_partitions<T: Copy + PartialOrd>(r: Range<T>, divider: T, p: T)
    requires
        is_total_order::<T>(),
        le(r.start, divider),
        le(divider, r.end),
    ensures
        ({
            let left = Range { start: r.start, end: divider };
            let right = Range { start: divider, end: r.end };
            &&& r.contains_spec(p) <==> left.contains_spec(p) || right.contains_spec(p)
            &&& !(left.contains_spec(p) && right.contains_spec(p))
        }),
{
    lemma_order_facts(r.start, divider, p);
    lemma_order_facts(divider, r.end, p);
    lemma_order_facts(r.start, r.end, p);
}

/// For a totally ordered `T`, intersecting `a` with `b` gives what
/// intersecting `b` with `a` gives.
pub proof fn lemma_get_intersection_commutes<T: Copy + Ord>(a: Range<T>, b: Range<T>)
    requires
        is_total_ord::<T>(),
    ensures
        a.get_intersection_spec(&b) == b.get_intersection_spec(&a),
{
    assert(a.start.partial_cmp_spec(&b.start) == Some(a.start.cmp_spec(&b.start)));
    assert(b.start.partial_cmp_spec(&a.start) == Some(b.start.cmp_spec(&a.start)));
    assert(a.end.partial_cmp_spec(&b.end) == Some(a.end.cmp_spec(&b.end)));
    assert(b.end.partial_cmp_spec(&a.end) == Some(b.end.cmp_spec(&a.end)));
}

/// For a totally ordered `T`, the intersection of two ranges is valid, lies
/// within both, and holds exactly the points that both hold.
pub proof fn lemma_get_intersection_meets<T: Copy + Ord>(a: Range<T>, b: Range<T>, p: T)
    requires
        is_total_ord::<T>(),
    ensures
        match a.get_intersection_spec(&b) {
            Some(c) => {
                &&& c.is_valid_spec()
                &&& (a.is_valid_spec() ==> a.contains_range_spec(&c))
                &&& (b.is_valid_spec() ==> b.contains_range_spec(&c))
                &&& (c.contains_spec(p) <==> a.contains_spec(p) && b.contains_spec(p))
            },
            None => !(a.contains_spec(p) && b.contains_spec(p)),
        },
{
    assert(a.start.partial_cmp_spec(&b.start) == Some(a.start.cmp_spec(&b.start)));
    assert(b.start.partial_cmp_spec(&a.start) == Some(b.start.cmp_spec(&a.start)));
    assert(a.end.partial_cmp_spec(&b.end) == Some(a.end.cmp_spec(&b.end)));
    assert(b.end.partial_cmp_spec(&a.end) == Some(b.end.cmp_spec(&a.end)));
    lemma_order_facts(a.start, b.start, p);
    lemma_order_facts(a.end, b.end, p);
    lemma_order_facts(a.start, a.end, p);
    lemma_order_facts(b.start, b.end, p);
    lemma_order_facts(a.start, b.end, p);
    lemma_order_facts(b.start, a.end, p);
}

/// Every comparison among three values of a total order, and every chain
/// of two of them.
proof fn lemma_order_facts<T: PartialOrd>(a: T, b: T, c: T)
    requires
        is_total_order::<T>(),
    ensures
        lt(a, b) || a == b || lt(b, a),
        lt(a, c) || a == c || lt(c, a),
        lt(b, c) || b == c || lt(c, b),
        !lt(a, a) && !lt(b, b) && !lt(c, c),
        le(a, a) && le(b, b) && le(c, c),
        gt(a, b) <==> lt(b, a),
        gt(a, c) <==> lt(c, a),
        gt(b, c) <==> lt(c, b),
        gt(b, a) <==> lt(a, b),
        gt(c, a) <==> lt(a, c),
        gt(c, b) <==> lt(b, c),
        le(a, b) <==> !lt(b, a),
        le(a, c) <==> !lt(c, a),
        le(b, c) <==> !lt(c, b),
        le(b, a) <==> !lt(a, b),
        le(c, a) <==> !lt(a, c),
        le(c, b) <==> !lt(b, c),
        ge(a, b) <==> !lt(a, b),
        ge(a, c) <==> !lt(a, c),
        ge(b, c) <==> !lt(b, c),
        ge(b, a) <==> !lt(b, a),
        ge(c, a) <==> !lt(c, a),
        ge(c, b) <==> !lt(c, b),
        lt(a, b) && lt(b, c) ==> lt(a, c),
        lt(a, c) && lt(c, b) ==> lt(a, b),
        lt(b, a) && lt(a, c) ==> lt(b, c),
        lt(b, c) && lt(c, a) ==> lt(b, a),
        lt(c, a) && lt(a, b) ==> lt(c, b),
        lt(c, b) && lt(b, a) ==> lt(c, a),
{
    lemma_trichotomy(a, a);
    lemma_trichotomy(b, b);
    lemma_trichotomy(c, c);
    lemma_trichotomy(a, b);
    lemma_trichotomy(b, a);
    lemma_trichotomy(a, c);
    lemma_trichotomy(c, a);
    lemma_trichotomy(b, c);
    lemma_trichotomy(c, b);
    lemma_transitive(a, b, c);
    lemma_transitive(a, c, b);
    lemma_transitive(b, a, c);
    lemma_transitive(b, c, a);
    lemma_transitive(c, a, b);
    lemma_transitive(c, b, a);
}

/// For a totally ordered `T`, two ranges intersect exactly when some point
/// lies in both. So a range that holds no point intersects nothing, and
/// intersecting does not depend on the order of the two.
pub proof fn lemma_intersects_iff_common_point<T: Copy + PartialOrd>(a: Range<T>, b: Range<T>)
    requires
        is_total_order::<T>(),
    ensures
        a.intersects_spec(&b) <==> a.shares_point_spec(&b),
        a.intersects_spec(&b) <==> b.intersects_spec(&a),
        !lt(a.start, a.end) ==> !a.intersects_spec(&b),
        !lt(b.start, b.end) ==> !a.intersects_spec(&b),
{
    lemma_order_facts(a.start, b.start, a.end);
    lemma_order_facts(a.start, b.start, b.end);
    lemma_order_facts(a.start, a.end, b.start);
    lemma_order_facts(b.start, b.end, a.start);
    if a.intersects_spec(&b) {
        if a.contains_spec(b.start) && lt(b.start, b.end) {
            assert(a.contains_spec(b.start) && b.contains_spec(b.start));
        } else {
            assert(a.contains_spec(a.start) && b.contains_spec(a.start));
        }
    }
    if a.shares_point_spec(&b) {
        let p = choose|p: T| #[trigger] a.contains_spec(p) && b.contains_spec(p);
        lemma_order_facts(a.start, b.start, p);
        lemma_order_facts(a.end, b.end, p);
        lemma_order_facts(a.start, b.end, p);
        lemma_order_facts(b.start, a.end, p);
        lemma_order_facts(a.start, p, b.end);
        lemma_order_facts(b.start, p, a.end);
        lemma_order_facts(a.start, p, a.end);
        lemma_order_facts(b.start, p, b.end);
    }
}

} // verus!
