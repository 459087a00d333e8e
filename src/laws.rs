use vstd::prelude::*;

use crate::vector::{cross_by, cross_component_by, dot_by, mapped_by, zipped_by, Vec3};

verus! {

/// `f` gives at most one result for each pair of arguments.
pub open spec fn deterministic2<A, B, C, F: Fn(A, B) -> C>(f: F) -> bool {
    forall|x: A, y: B, r1: C, r2: C|
        #![trigger f.ensures((x, y), r1), f.ensures((x, y), r2)]
        f.ensures((x, y), r1) && f.ensures((x, y), r2) ==> r1 == r2
}

/// `f` gives at most one result for each argument.
pub open spec fn deterministic1<A, B, F: Fn(A) -> B>(f: F) -> bool {
    forall|x: A, r1: B, r2: B|
        #![trigger f.ensures((x,), r1), f.ensures((x,), r2)]
        f.ensures((x,), r1) && f.ensures((x,), r2) ==> r1 == r2
}

/// Swapping the arguments of `f` does not change its result.
pub open spec fn commutative2<A, C, F: Fn(A, A) -> C>(f: F) -> bool {
    forall|x: A, y: A, r1: C, r2: C|
        #![trigger f.ensures((x, y), r1), f.ensures((y, x), r2)]
        f.ensures((x, y), r1) && f.ensures((y, x), r2) ==> r1 == r2
}

/// Negating `y - x` gives `x - y`.
pub open spec fn negation_reverses<T, S: Fn(T, T) -> T, N: Fn(T) -> T>(minus: S, neg: N) -> bool {
    forall|x: T, y: T, d: T, e: T, n: T|
        #![trigger minus.ensures((x, y), d), minus.ensures((y, x), e), neg.ensures((e,), n)]
        minus.ensures((x, y), d) && minus.ensures((y, x), e) && neg.ensures((e,), n) ==> n == d
}

/// Any value minus itself is `zero`.
pub open spec fn self_difference_is<T, S: Fn(T, T) -> T>(minus: S, zero: T) -> bool {
    forall|x: T, d: T| #[trigger] minus.ensures((x, x), d) ==> d == zero
}

/// Adding two vectors does not depend on their order, whenever the scalar
/// sum gives one result and does not depend on the order of its terms.
pub proof fn lemma_zip_with_commutes<T, F: Fn(T, T) -> T>(
    a: Vec3<T>,
    b: Vec3<T>,
    f: F,
    ab: Vec3<T>,
    ba: Vec3<T>,
)
    requires
        commutative2(f),
        zipped_by(a@, b@, f, ab@),
        zipped_by(b@, a@, f, ba@),
    ensures
        ab == ba,
{
    assert forall|i: int| 0 <= i < 3 implies ab@[i] == ba@[i] by {
        assert(f.ensures((a@[i], b@[i]), ab@[i]));
        assert(f.ensures((b@[i], a@[i]), ba@[i]));
    }
    assert(ab@[0] == ba@[0] && ab@[1] == ba@[1] && ab@[2] == ba@[2]);
}

/// The dot product does not depend on the order of its operands, whenever
/// the scalar product gives one result and does not depend on the order of
/// its factors, and the scalar sum gives one result.
pub proof fn lemma_dot_commutes<T, M: Fn(T, T) -> T, A: Fn(T, T) -> T>(
    a: Vec3<T>,
    b: Vec3<T>,
    times: M,
    plus: A,
    ab: T,
    ba: T,
)
    requires
        deterministic2(times),
        commutative2(times),
        deterministic2(plus),
        dot_by(a@, b@, times, plus, ab),
        dot_by(b@, a@, times, plus, ba),
    ensures
        ab == ba,
{
    let (p0, p1, p2, s) = choose|p0: T, p1: T, p2: T, s: T|
        {
            &&& times.ensures((a@[0], b@[0]), p0)
            &&& times.ensures((a@[1], b@[1]), p1)
            &&& times.ensures((a@[2], b@[2]), p2)
            &&& plus.ensures((p0, p1), s)
            &&& plus.ensures((s, p2), ab)
        };
    let (q0, q1, q2, t) = choose|q0: T, q1: T, q2: T, t: T|
        {
            &&& times.ensures((b@[0], a@[0]), q0)
            &&& times.ensures((b@[1], a@[1]), q1)
            &&& times.ensures((b@[2], a@[2]), q2)
            &&& plus.ensures((q0, q1), t)
            &&& plus.ensures((t, q2), ba)
        };
    assert(p0 == q0 && p1 == q1 && p2 == q2);
    assert(s == t);
}

/// Swapping the operands of the cross product negates it, whenever the
/// scalar product gives one result and does not depend on the order of its
/// factors, the scalar difference gives one result, negation gives one
/// result, and negating `y - x` gives `x - y`.
pub proof fn lemma_cross_anticommutes<T, M: Fn(T, T) -> T, S: Fn(T, T) -> T, N: Fn(T) -> T>(
    a: Vec3<T>,
    b: Vec3<T>,
    times: M,
    minus: S,
    neg: N,
    ab: Vec3<T>,
    ba: Vec3<T>,
    neg_ba: Vec3<T>,
)
    requires
        deterministic2(times),
        commutative2(times),
        deterministic2(minus),
        deterministic1(neg),
        negation_reverses(minus, neg),
        cross_by(a@, b@, times, minus, ab@),
        cross_by(b@, a@, times, minus, ba@),
        mapped_by(ba@, neg, neg_ba@),
    ensures
        ab == neg_ba,
{
    assert forall|i: int| 0 <= i < 3 implies ab@[i] == neg_ba@[i] by {
        let j = (i + 1) % 3;
        let k = (i + 2) % 3;
        assert(cross_component_by(a@, b@, i, times, minus, ab@[i]));
        assert(cross_component_by(b@, a@, i, times, minus, ba@[i]));
        let (p, q) = choose|p: T, q: T|
            {
                &&& times.ensures((a@[j], b@[k]), p)
                &&& times.ensures((a@[k], b@[j]), q)
                &&& minus.ensures((p, q), ab@[i])
            };
        let (p2, q2) = choose|p2: T, q2: T|
            {
                &&& times.ensures((b@[j], a@[k]), p2)
                &&& times.ensures((b@[k], a@[j]), q2)
                &&& minus.ensures((p2, q2), ba@[i])
            };
        assert(p2 == q && q2 == p);
        assert(neg.ensures((ba@[i],), neg_ba@[i]));
    }
    assert(ab@[0] == neg_ba@[0] && ab@[1] == neg_ba@[1] && ab@[2] == neg_ba@[2]);
}

/// The cross product of a vector with itself is the zero vector, whenever
/// the scalar product gives one result and does not depend on the order of
/// its factors, and any value minus itself is `zero`.
pub proof fn lemma_cross_self_is_zero<T, M: Fn(T, T) -> T, S: Fn(T, T) -> T>(
    a: Vec3<T>,
    times: M,
    minus: S,
    zero: T,
    aa: Vec3<T>,
)
    requires
        deterministic2(times),
        commutative2(times),
        self_difference_is(minus, zero),
        cross_by(a@, a@, times, minus, aa@),
    ensures
        aa == Vec3(zero, zero, zero),
{
    assert forall|i: int| 0 <= i < 3 implies aa@[i] == zero by {
        let j = (i + 1) % 3;
        let k = (i + 2) % 3;
        assert(cross_component_by(a@, a@, i, times, minus, aa@[i]));
        let (p, q) = choose|p: T, q: T|
            {
                &&& times.ensures((a@[j], a@[k]), p)
                &&& times.ensures((a@[k], a@[j]), q)
                &&& minus.ensures((p, q), aa@[i])
            };
        assert(p == q);
        assert(minus.ensures((p, p), aa@[i]));
    }
    assert(aa@[0] == zero && aa@[1] == zero && aa@[2] == zero);
}

} // verus!
