//! The arithmetic that the caller supplies.
//!
//! Three operations on numbers are not decided on words by this library: the
//! multiply-add `a * b + c`, the activation function, and a draw from the
//! normal distribution of a given mean and variance, in that order. Each is a
//! function value of the caller's. The predicates here
//! say that such a function may be called on every argument; what it returns
//! is known only through its own postcondition, which the contracts of the
//! library quote.

use crate::scalar::Scalar;
use vstd::prelude::*;

verus! {

/// `f` may be called on every triple of numbers.
pub open spec fn total3<F: Fn(Scalar, Scalar, Scalar) -> Scalar>(f: &F) -> bool {
    forall|a: Scalar, b: Scalar, c: Scalar| #[trigger] f.requires((a, b, c))
}

/// `f` may be called on every pair of numbers.
pub open spec fn total2<F: Fn(Scalar, Scalar) -> Scalar>(f: &F) -> bool {
    forall|a: Scalar, b: Scalar| #[trigger] f.requires((a, b))
}

/// `f` may be called on every number.
pub open spec fn total1<F: Fn(Scalar) -> Scalar>(f: &F) -> bool {
    forall|a: Scalar| #[trigger] f.requires((a,))
}

/// `accs` lists the partial sums of the products of `w` and `x`, taken from the
/// front: it starts at zero, and each next entry is what `mul_add` returned
/// for the next pair and the entry before.
pub open spec fn dot_trace<M: Fn(Scalar, Scalar, Scalar) -> Scalar>(
    mul_add: &M,
    w: Seq<Scalar>,
    x: Seq<Scalar>,
    accs: Seq<Scalar>,
) -> bool {
    &&& accs.len() == w.len() + 1
    &&& accs[0] == Scalar::zero()
    &&& forall|k: int|
        1 <= k <= w.len() ==> mul_add.ensures((w[k - 1], x[k - 1], accs[k - 1]), #[trigger] accs[k])
}

/// `sum` is the weighted sum of `x` under `w`, plus `bias`.
pub open spec fn weighted_sum<M: Fn(Scalar, Scalar, Scalar) -> Scalar>(
    mul_add: &M,
    w: Seq<Scalar>,
    bias: Scalar,
    x: Seq<Scalar>,
    sum: Scalar,
) -> bool {
    exists|accs: Seq<Scalar>|
        #[trigger] dot_trace(mul_add, w, x, accs) && mul_add.ensures((accs.last(), Scalar::one(), bias), sum)
}

/// Folds `mul_add` over the pairs of `w` and `x`, then adds `bias`.
pub(crate) fn sum_weighted<M: Fn(Scalar, Scalar, Scalar) -> Scalar>(
    w: &Vec<Scalar>,
    bias: Scalar,
    x: &Vec<Scalar>,
    mul_add: &M,
) -> (sum: Scalar)
    requires
        total3(mul_add),
        w.len() == x.len(),
    ensures
        weighted_sum(mul_add, w@, bias, x@, sum),
{
    let mut acc = Scalar::from_bits(crate::scalar::ZERO_BITS);
    let ghost mut accs: Seq<Scalar> = seq![acc];
    let mut k: usize = 0;
    while k < w.len()
        invariant
            total3(mul_add),
            w.len() == x.len(),
            k <= w.len(),
            accs.len() == k + 1,
            accs[0] == Scalar::zero(),
            acc == accs.last(),
            forall|j: int|
                1 <= j <= k ==> mul_add.ensures((w@[j - 1], x@[j - 1], accs[j - 1]), #[trigger] accs[j]),
        decreases w.len() - k,
    {
        acc = mul_add(w[k], x[k], acc);
        proof {
            accs = accs.push(acc);
        }
        k += 1;
    }
    let sum = mul_add(acc, Scalar::from_bits(crate::scalar::ONE_BITS), bias);
    assert(dot_trace(mul_add, w@, x@, accs));
    sum
}

} // verus!
