//! Conversions between what the network sees, numbers from zero to one, and
//! what an organism means by them.

use crate::arith::total3;
use crate::scalar::{Scalar, NEG_ONE_BITS, NEG_PI_BITS, ONE_BITS, TAU_BITS, TWO_BITS, ZERO_BITS};
use vstd::prelude::*;

verus! {

/// A vector in the plane.
#[derive(Clone, Copy, Debug, PartialEq, Eq, Structural)]
pub struct Vector2 {
    pub x: Scalar,
    pub y: Scalar,
}

/// `out` is `v * scale + offset` as `mul_add` computes it.
pub open spec fn affine<M: Fn(Scalar, Scalar, Scalar) -> Scalar>(
    mul_add: &M,
    v: Scalar,
    scale: u32,
    offset: u32,
    out: Scalar,
) -> bool {
    mul_add.ensures((v, Scalar { bits: scale }, Scalar { bits: offset }), out)
}

/// `out` is `low + v * (high - low)` as `mul_add` computes it: first the span
/// `low * -1 + high`, then `v * span + low`.
pub open spec fn mapped<M: Fn(Scalar, Scalar, Scalar) -> Scalar>(
    mul_add: &M,
    low: Scalar,
    high: Scalar,
    v: Scalar,
    out: Scalar,
) -> bool {
    exists|span: Scalar|
        #[trigger] mul_add.ensures((low, Scalar { bits: NEG_ONE_BITS }, high), span) && mul_add.ensures(
            (v, span, low),
            out,
        )
}

/// Takes `v`, a number from zero to one, to the same place between `low` and
/// `high`.
pub fn map<M: Fn(Scalar, Scalar, Scalar) -> Scalar>(low: Scalar, high: Scalar, v: Scalar, mul_add: &M) -> (out:
    Scalar)
    requires
        total3(mul_add),
    ensures
        mapped(mul_add, low, high, v, out),
{
    let span = mul_add(low, Scalar::from_bits(NEG_ONE_BITS), high);
    mul_add(v, span, low)
}

/// One for `true`, zero for `false`.
pub fn from_bool(v: bool) -> (out: Scalar)
    ensures
        out == if v {
            Scalar::one()
        } else {
            Scalar::zero()
        },
{
    if v {
        Scalar::from_bits(ONE_BITS)
    } else {
        Scalar::from_bits(ZERO_BITS)
    }
}

/// `true` from one half upwards.
pub fn into_bool(v: Scalar) -> (out: bool)
    ensures
        out == v.at_least_half(),
{
    v.is_at_least_half()
}

/// What was made from a truth value gives it back.
pub proof fn lemma_bool_round_trip(v: bool)
    ensures
        (if v {
            Scalar::one()
        } else {
            Scalar::zero()
        }).at_least_half() == v,
{
    Scalar::one().lemma_half_threshold();
    Scalar::zero().lemma_half_threshold();
}

/// The components of a vector, `x` first, as they are.
pub fn from_vector(v: Vector2) -> (out: [Scalar; 2])
    ensures
        out@ == seq![v.x, v.y],
{
    let out = [v.x, v.y];
    out
}

/// Takes each component from the range zero to one to the range minus one to
/// one: `a * 2 - 1`.
pub fn into_vector<M: Fn(Scalar, Scalar, Scalar) -> Scalar>(a: [Scalar; 2], mul_add: &M) -> (out: Vector2)
    requires
        total3(mul_add),
    ensures
        affine(mul_add, a[0], TWO_BITS, NEG_ONE_BITS, out.x),
        affine(mul_add, a[1], TWO_BITS, NEG_ONE_BITS, out.y),
{
    let x = mul_add(a[0], Scalar::from_bits(TWO_BITS), Scalar::from_bits(NEG_ONE_BITS));
    let y = mul_add(a[1], Scalar::from_bits(TWO_BITS), Scalar::from_bits(NEG_ONE_BITS));
    Vector2 { x, y }
}

/// Takes a number from zero to one to an angle from -π to π: `v * 2π - π`.
pub fn to_radians<M: Fn(Scalar, Scalar, Scalar) -> Scalar>(v: Scalar, mul_add: &M) -> (out: Scalar)
    requires
        total3(mul_add),
    ensures
        affine(mul_add, v, TAU_BITS, NEG_PI_BITS, out),
{
    mul_add(v, Scalar::from_bits(TAU_BITS), Scalar::from_bits(NEG_PI_BITS))
}

} // verus!
