//! Numeric values, carried as strict-num's checked floating-point wrappers.
//!
//! The library never does float arithmetic itself: every comparison or sum
//! that a decision depends on is one call into strict-num or std, named here.
use strict_num::{ApproxEqUlps, FiniteF64, NonZeroPositiveF64, NormalizedF64};
use vstd::prelude::*;

verus! {

#[verifier::external_type_specification]
#[verifier::external_body]
pub struct ExFiniteF64(FiniteF64);

#[verifier::external_type_specification]
#[verifier::external_body]
pub struct ExNormalizedF64(NormalizedF64);

#[verifier::external_type_specification]
#[verifier::external_body]
pub struct ExNonZeroPositiveF64(NonZeroPositiveF64);

/// Relies on the `Clone` that strict-num derives beside `Copy`: a copy.
pub assume_specification[ <FiniteF64 as Clone>::clone ](v: &FiniteF64) -> (r: FiniteF64)
    ensures
        r == *v,
;

/// Relies on the `Clone` that strict-num derives beside `Copy`: a copy.
pub assume_specification[ <NormalizedF64 as Clone>::clone ](v: &NormalizedF64) -> (r: NormalizedF64)
    ensures
        r == *v,
;

/// Relies on the `Clone` that strict-num derives beside `Copy`: a copy.
pub assume_specification[ <NonZeroPositiveF64 as Clone>::clone ](v: &NonZeroPositiveF64) -> (r: NonZeroPositiveF64)
    ensures
        r == *v,
;

/// The finite value that equals the small integer `n`.
pub uninterp spec fn value_of_u8(n: u8) -> FiniteF64;

/// Whether a value has its sign bit set.
pub uninterp spec fn is_negative_value(v: FiniteF64) -> bool;

/// The sum of two values, when it is still finite.
pub uninterp spec fn value_sum(a: FiniteF64, b: FiniteF64) -> Option<FiniteF64>;

/// Whether `a` equals `b` up to `ulps` units in the last place.
pub uninterp spec fn approx_eq_ulps_of(a: FiniteF64, b: FiniteF64, ulps: i64) -> bool;

/// Whether `a` is less than `b`.
pub uninterp spec fn value_less(a: FiniteF64, b: FiniteF64) -> bool;

/// How many units in the last place two values may differ by and still count
/// as equal up to rounding.
pub const FUZZY_ULPS: i64 = 4;

/// Whether a value is zero up to rounding.
pub open spec fn is_fuzzy_zero_value(v: FiniteF64) -> bool {
    approx_eq_ulps_of(v, value_of_u8(0), FUZZY_ULPS as i64)
}

/// Whether a value is less than one.
pub open spec fn is_below_one(v: FiniteF64) -> bool {
    value_less(v, value_of_u8(1))
}

/// The value as a strictly positive number, when it is one.
pub uninterp spec fn positive_of(v: FiniteF64) -> Option<NonZeroPositiveF64>;

/// The opacity `n / 255`.
pub uninterp spec fn opacity_of_u8(n: u8) -> NormalizedF64;

/// The product of two opacities.
pub uninterp spec fn opacity_product(a: NormalizedF64, b: NormalizedF64) -> NormalizedF64;

/// Whether two opacities are equal.
pub uninterp spec fn same_opacity(a: NormalizedF64, b: NormalizedF64) -> bool;

/// Whether an opacity is exactly one.
pub open spec fn is_full_opacity(o: NormalizedF64) -> bool {
    same_opacity(o, opacity_of_u8(255))
}

/// Relies on `FiniteF64::new` on the integer `n` converted exactly by `From<u8>`;
/// a finite value is not less than itself (the `Ord` of `FiniteF64`), and
/// float-cmp's `approx_eq_ulps` passes a value compared with itself.
#[verifier::external_body]
pub(crate) fn value_from_u8(n: u8) -> (r: FiniteF64)
    ensures
        r == value_of_u8(n),
        !is_negative_value(r),
        !value_less(r, r),
        forall|u: i64| #[trigger] approx_eq_ulps_of(r, r, u),
{
    FiniteF64::new(n.into()).unwrap()
}

/// Relies on `f64::is_sign_negative`.
#[verifier::external_body]
pub(crate) fn value_is_negative(v: FiniteF64) -> (r: bool)
    ensures
        r == is_negative_value(v),
{
    v.get().is_sign_negative()
}

/// Relies on `f64` addition, checked by `FiniteF64::new`.
#[verifier::external_body]
pub(crate) fn add_values(a: FiniteF64, b: FiniteF64) -> (r: Option<FiniteF64>)
    ensures
        r == value_sum(a, b),
{
    FiniteF64::new(a.get() + b.get())
}

/// Relies on float-cmp's `approx_eq_ulps` for `FiniteF64`, which strict-num
/// forwards to the `f64` inside: equal values always pass.
#[verifier::external_body]
pub(crate) fn values_approx_eq(a: FiniteF64, b: FiniteF64, ulps: i64) -> (r: bool)
    requires
        ulps > i64::MIN,
    ensures
        r == approx_eq_ulps_of(a, b, ulps),
        a == b ==> r,
{
    a.approx_eq_ulps(&b, ulps)
}

/// Relies on the `Ord` of `FiniteF64`: no value is less than itself.
#[verifier::external_body]
pub(crate) fn value_lt(a: FiniteF64, b: FiniteF64) -> (r: bool)
    ensures
        r == value_less(a, b),
        a == b ==> !r,
{
    a < b
}

/// Relies on `NonZeroPositiveF64::new`.
#[verifier::external_body]
pub(crate) fn to_positive(v: FiniteF64) -> (r: Option<NonZeroPositiveF64>)
    ensures
        r == positive_of(v),
        v == value_of_u8(1) ==> r.is_some(),
{
    NonZeroPositiveF64::new(v.get())
}

/// Relies on `NormalizedF64::new_u8`; the derived `PartialEq` holds a value
/// equal to itself.
#[verifier::external_body]
pub(crate) fn opacity_from_u8(n: u8) -> (r: NormalizedF64)
    ensures
        r == opacity_of_u8(n),
        same_opacity(r, r),
{
    NormalizedF64::new_u8(n)
}

/// Relies on the `Mul` of `NormalizedF64`, which clamps the product: one
/// times `b` is `b`.
#[verifier::external_body]
pub(crate) fn mul_opacity(a: NormalizedF64, b: NormalizedF64) -> (r: NormalizedF64)
    ensures
        r == opacity_product(a, b),
        a == opacity_of_u8(255) ==> same_opacity(r, b),
{
    a * b
}

/// Relies on the `PartialEq` that strict-num derives for `NormalizedF64`:
/// every value equals itself.
#[verifier::external_body]
pub(crate) fn opacity_eq(a: NormalizedF64, b: NormalizedF64) -> (r: bool)
    ensures
        r == same_opacity(a, b),
        a == b ==> r,
{
    a == b
}

} // verus!
