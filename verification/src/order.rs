use core::cmp::Ordering;
use vstd::prelude::*;
use vstd::std_specs::cmp::{OrdSpec, PartialOrdSpec};

verus! {

/// `a < b` in the order that `T` specifies for itself.
pub open spec fn lt<T: PartialOrd>(a: T, b: T) -> bool {
    a.partial_cmp_spec(&b) == Some(Ordering::Less)
}

/// `a <= b` in the order that `T` specifies for itself.
pub open spec fn le<T: PartialOrd>(a: T, b: T) -> bool {
    a.partial_cmp_spec(&b) == Some(Ordering::Less) || a.partial_cmp_spec(&b) == Some(
        Ordering::Equal,
    )
}

/// `a > b` in the order that `T` specifies for itself.
pub open spec fn gt<T: PartialOrd>(a: T, b: T) -> bool {
    a.partial_cmp_spec(&b) == Some(Ordering::Greater)
}

/// `a >= b` in the order that `T` specifies for itself.
pub open spec fn ge<T: PartialOrd>(a: T, b: T) -> bool {
    a.partial_cmp_spec(&b) == Some(Ordering::Greater) || a.partial_cmp_spec(&b) == Some(
        Ordering::Equal,
    )
}

/// The comparison operators of `T` behave as a total order whose equality is
/// equality of values. Every primitive integer type satisfies this.
pub open spec fn is_total_order<T: PartialOrd>() -> bool {
    &&& T::obeys_partial_cmp_spec()
    &&& forall|a: T, b: T| (#[trigger] a.partial_cmp_spec(&b)) is Some
    &&& forall|a: T, b: T| (#[trigger] a.partial_cmp_spec(&b)) == Some(Ordering::Equal) <==> a == b
    &&& forall|a: T, b: T|
        (#[trigger] a.partial_cmp_spec(&b)) == Some(Ordering::Less) <==> b.partial_cmp_spec(&a)
            == Some(Ordering::Greater)
    &&& forall|a: T, b: T, c: T|
        #[trigger] lt(a, b) && #[trigger] lt(b, c) ==> lt(a, c)
}

/// `is_total_order`, and `Ord::cmp` agrees with the comparison operators.
pub open spec fn is_total_ord<T: Ord>() -> bool {
    &&& is_total_order::<T>()
    &&& T::obeys_cmp_spec()
    &&& forall|a: T, b: T| #[trigger] a.partial_cmp_spec(&b) == Some(a.cmp_spec(&b))
}

/// The larger of two values as `Ord::max` picks it: the second when they
/// compare equal.
pub open spec fn max_of<T: Ord>(a: T, b: T) -> T {
    if b.cmp_spec(&a) == Ordering::Less {
        a
    } else {
        b
    }
}

/// The smaller of two values as `Ord::min` picks it: the first when they
/// compare equal.
pub open spec fn min_of<T: Ord>(a: T, b: T) -> T {
    if b.cmp_spec(&a) == Ordering::Less {
        b
    } else {
        a
    }
}

/// The larger of two values as `partial_min_max::max` picks it: the first
/// where it compares greater, and else the second.
pub open spec fn partial_max<T: PartialOrd>(a: T, b: T) -> T {
    if gt(a, b) {
        a
    } else {
        b
    }
}

/// The smaller of two values as `partial_min_max::min` picks it: the first
/// where it compares less, and else the second.
pub open spec fn partial_min<T: PartialOrd>(a: T, b: T) -> T {
    if lt(a, b) {
        a
    } else {
        b
    }
}

/// `partial_min_max::max`. Trusted: for a type whose `>` is the one it
/// specifies, the result is `a` where `a > b`, and `b` in every other case,
/// also where the two do not compare.
pub assume_specification<T: PartialOrd>[ partial_min_max::max::<T> ](a: T, b: T) -> (r: T)
    ensures
        T::obeys_partial_cmp_spec() ==> r == partial_max(a, b),
;

/// `partial_min_max::min`. Trusted: for a type whose `<` is the one it
/// specifies, the result is `a` where `a < b`, and `b` in every other case,
/// also where the two do not compare.
pub assume_specification<T: PartialOrd>[ partial_min_max::min::<T> ](a: T, b: T) -> (r: T)
    ensures
        T::obeys_partial_cmp_spec() ==> r == partial_min(a, b),
;

/// In a total order exactly one of `a < b`, `a == b`, `b < a` holds, and
/// the other three comparisons follow from which one it is.
pub proof fn lemma_trichotomy<T: PartialOrd>(a: T, b: T)
    requires
        is_total_order::<T>(),
    ensures
        lt(a, b) || a == b || lt(b, a),
        !(lt(a, b) && a == b),
        !(lt(a, b) && lt(b, a)),
        !(a == b && lt(b, a)),
        gt(a, b) <==> lt(b, a),
        le(a, b) <==> !lt(b, a),
        ge(a, b) <==> !lt(a, b),
{
    let o = a.partial_cmp_spec(&b);
    let p = b.partial_cmp_spec(&a);
    assert(o is Some);
    assert(p is Some);
    assert(o == Some(Ordering::Equal) <==> a == b);
    assert(p == Some(Ordering::Equal) <==> b == a);
    assert(o == Some(Ordering::Less) <==> p == Some(Ordering::Greater));
    assert(p == Some(Ordering::Less) <==> o == Some(Ordering::Greater));
    assert(o == Some(Ordering::Less) || o == Some(Ordering::Equal) || o == Some(
        Ordering::Greater,
    ));
    assert(p == Some(Ordering::Less) || p == Some(Ordering::Equal) || p == Some(
        Ordering::Greater,
    ));
}

/// In a total order `<` and `<=` chain through a middle value.
pub proof fn lemma_transitive<T: PartialOrd>(a: T, b: T, c: T)
    requires
        is_total_order::<T>(),
    ensures
        lt(a, b) && lt(b, c) ==> lt(a, c),
        le(a, b) && lt(b, c) ==> lt(a, c),
        lt(a, b) && le(b, c) ==> lt(a, c),
        le(a, b) && le(b, c) ==> le(a, c),
{
    lemma_trichotomy(a, b);
    lemma_trichotomy(b, c);
    lemma_trichotomy(a, c);
    assert(lt(a, b) && lt(b, c) ==> lt(a, c));
}

} // verus!
