use vstd::prelude::*;

verus! {

/// Quotient of `x` by `d` rounded toward zero, as machine integers divide.
pub open spec fn truncating_div(x: int, d: int) -> int {
    if x >= 0 {
        x / d
    } else {
        -((-x) / d)
    }
}

/// The integer that an `i64` holds.
pub open spec fn to_int(x: i64) -> int {
    x as int
}

/// `v` is at most 2^29 in absolute value. Coordinates this small can be
/// subtracted, multiplied and added as the geometry here does without
/// leaving `i64`.
pub open spec fn within_reach(v: i64) -> bool {
    -0x2000_0000 <= v <= 0x2000_0000
}

/// The product of two bounded integers is bounded by the product of the
/// bounds.
pub proof fn lemma_product_bounds(a: int, b: int, ba: int, bb: int)
    requires
        -ba <= a <= ba,
        -bb <= b <= bb,
    ensures
        -(ba * bb) <= a * b <= ba * bb,
{
    assert(-(ba * bb) <= a * b <= ba * bb) by (nonlinear_arith)
        requires
            -ba <= a <= ba,
            -bb <= b <= bb,
    ;
}

/// A number no further from zero than another has no larger a square.
pub proof fn lemma_square_le(u: int, v: int)
    requires
        abs_int(u) <= abs_int(v),
    ensures
        u * u <= v * v,
{
    assert(u * u <= v * v) by (nonlinear_arith)
        requires
            (-v <= u <= v) || (v <= u <= -v),
    ;
}

/// The absolute value of an integer.
pub open spec fn abs_int(x: int) -> int {
    if x < 0 {
        -x
    } else {
        x
    }
}

/// The smaller of two integers.
pub open spec fn min_int(a: int, b: int) -> int {
    if a <= b {
        a
    } else {
        b
    }
}

/// `num_traits::Zero::zero` at `i64`. Trusted: the additive identity of
/// `i64` is the number 0.
#[verifier::external_body]
pub(crate) fn zero_i64() -> (r: i64)
    ensures
        r == 0,
{
    num_traits::Zero::zero()
}

/// `num_traits::Signed::abs` at `i64`. Trusted: the result is the absolute
/// value of `x`. The smallest `i64` has no absolute value in `i64` and is
/// left out.
#[verifier::external_body]
pub(crate) fn abs_i64(x: i64) -> (r: i64)
    requires
        x != i64::MIN,
    ensures
        r == abs_int(x as int),
{
    num_traits::Signed::abs(&x)
}

/// Dividing moves a number no further from zero: the quotient rounded
/// toward zero lies between `-|x|` and `|x|`, and has the sign that the
/// signs of `x` and `d` give it.
pub proof fn lemma_truncating_div_bounds(x: int, d: int)
    requires
        d != 0,
    ensures
        -abs_int(x) <= truncating_div(x, d) <= abs_int(x),
        x >= 0 ==> -x <= x / d <= x,
        x < 0 ==> x <= (-x) / d <= -x,
        (x >= 0 && d > 0) || (x <= 0 && d < 0) ==> truncating_div(x, d) >= 0,
        (x >= 0 && d < 0) || (x <= 0 && d > 0) ==> truncating_div(x, d) <= 0,
        x < 0 && d < -1 ==> truncating_div(x, d) < -x,
{
    lemma_euclid_bounds(abs_int(x), d);
}

/// What division rounded toward zero leaves over is smaller than the
/// divisor in absolute value, and is not of the opposite sign to `x`.
pub proof fn lemma_truncating_div_remainder(x: int, d: int)
    requires
        d != 0,
    ensures
        abs_int(x - d * truncating_div(x, d)) < abs_int(d),
        x >= 0 ==> x - d * truncating_div(x, d) >= 0,
        x <= 0 ==> x - d * truncating_div(x, d) <= 0,
{
    let a = abs_int(x);
    vstd::arithmetic::div_mod::lemma_fundamental_div_mod(a, d);
    let q = a / d;
    let r = a % d;
    assert(0 <= r < abs_int(d));
    assert(a == d * q + r);
    if x < 0 {
        assert(d * (-q) == -(d * q)) by (nonlinear_arith);
    }
    if x == 0 {
        assert(q == 0) by (nonlinear_arith)
            requires
                0 == d * q + r,
                0 <= r,
                r < d || r < -d,
        ;
    }
}

/// For `x >= 0` the Euclidean quotient `x / d` lies between 0 and `x` for a
/// positive `d`, and between `-x` and 0 for a negative one.
proof fn lemma_euclid_bounds(x: int, d: int)
    requires
        x >= 0,
        d != 0,
    ensures
        d > 0 ==> 0 <= x / d <= x,
        d < 0 ==> -x <= x / d <= 0,
        d < -1 && x > 0 ==> -x < x / d,
{
    let q = x / d;
    let r = x % d;
    vstd::arithmetic::div_mod::lemma_fundamental_div_mod(x, d);
    assert(x == d * q + r);
    if d > 0 {
        assert(0 <= r < d);
        assert(0 <= q <= x) by (nonlinear_arith)
            requires
                x == d * q + r,
                0 <= r < d,
                d > 0,
                x >= 0,
        ;
    } else {
        assert(0 <= r < -d);
        assert(-x <= q <= 0) by (nonlinear_arith)
            requires
                x == d * q + r,
                0 <= r < -d,
                d < 0,
                x >= 0,
        ;
        assert(d < -1 && x > 0 ==> -x < q) by (nonlinear_arith)
            requires
                x == d * q + r,
                0 <= r < -d,
                d < 0,
                x >= 0,
        ;
    }
}

} // verus!
