use vstd::prelude::*;

use crate::axis::Axis;

verus! {

/// A value with three components, addressed by position (0, 1, 2) or by
/// name (x, y, z). It is used for points, displacements and colours alike.
///
/// The component type is left open: the scalar arithmetic of a vector is
/// supplied by the caller as functions, and every operation here applies
/// them in a fixed, documented pattern.
#[derive(Clone, Copy, Debug, PartialEq)]
pub struct Vec3<T>(pub T, pub T, pub T);

impl<T> View for Vec3<T> {
    type V = Seq<T>;

    open spec fn view(&self) -> Seq<T> {
        seq![self.0, self.1, self.2]
    }
}

/// `r` is what combining `a` and `b` position by position with `f` may give.
pub open spec fn zipped_by<A, B, C, F: Fn(A, B) -> C>(a: Seq<A>, b: Seq<B>, f: F, r: Seq<C>) -> bool {
    &&& r.len() == 3
    &&& forall|i: int| 0 <= i < 3 ==> f.ensures((a[i], b[i]), #[trigger] r[i])
}

/// `r` is what applying `f` to each component of `a` may give.
pub open spec fn mapped_by<A, B, F: Fn(A) -> B>(a: Seq<A>, f: F, r: Seq<B>) -> bool {
    &&& r.len() == 3
    &&& forall|i: int| 0 <= i < 3 ==> f.ensures((a[i],), #[trigger] r[i])
}

/// `r` is what the dot product of `a` and `b` may give: the three pairwise
/// products `p0`, `p1`, `p2`, summed as `(p0 + p1) + p2`.
pub open spec fn dot_by<T, M: Fn(T, T) -> T, A: Fn(T, T) -> T>(
    a: Seq<T>,
    b: Seq<T>,
    times: M,
    plus: A,
    r: T,
) -> bool {
    exists|p0: T, p1: T, p2: T, s: T|
        #![trigger plus.ensures((p0, p1), s), plus.ensures((s, p2), r)]
        {
            &&& times.ensures((a[0], b[0]), p0)
            &&& times.ensures((a[1], b[1]), p1)
            &&& times.ensures((a[2], b[2]), p2)
            &&& plus.ensures((p0, p1), s)
            &&& plus.ensures((s, p2), r)
        }
}

/// `c` is what component `i` of the cross product of `a` and `b` may give:
/// `a[j] * b[k] - a[k] * b[j]`, where `j`, `k` are the next two positions
/// after `i`, cyclically.
pub open spec fn cross_component_by<T, M: Fn(T, T) -> T, S: Fn(T, T) -> T>(
    a: Seq<T>,
    b: Seq<T>,
    i: int,
    times: M,
    minus: S,
    c: T,
) -> bool {
    let j = (i + 1) % 3;
    let k = (i + 2) % 3;
    exists|p: T, q: T|
        {
            &&& times.ensures((a[j], b[k]), p)
            &&& times.ensures((a[k], b[j]), q)
            &&& #[trigger] minus.ensures((p, q), c)
        }
}

/// `r` is what the cross product of `a` and `b` may give, position by position.
pub open spec fn cross_by<T, M: Fn(T, T) -> T, S: Fn(T, T) -> T>(
    a: Seq<T>,
    b: Seq<T>,
    times: M,
    minus: S,
    r: Seq<T>,
) -> bool {
    &&& r.len() == 3
    &&& forall|i: int| 0 <= i < 3 ==> cross_component_by(a, b, i, times, minus, #[trigger] r[i])
}

/// `f` accepts every pair of arguments.
pub open spec fn total2<A, B, C, F: Fn(A, B) -> C>(f: F) -> bool {
    forall|x: A, y: B| #[trigger] f.requires((x, y))
}

/// `f` accepts every argument.
pub open spec fn total1<A, B, F: Fn(A) -> B>(f: F) -> bool {
    forall|x: A| #[trigger] f.requires((x,))
}

impl<T: Copy> Vec3<T> {
    /// The vector with components `x`, `y`, `z`, in that order.
    pub fn new(x: T, y: T, z: T) -> (r: Self)
        ensures
            r@ == seq![x, y, z],
    {
        Vec3(x, y, z)
    }

    /// The first component.
    pub fn x(self) -> (r: T)
        ensures
            r == self@[0],
    {
        self.0
    }

    /// The second component.
    pub fn y(self) -> (r: T)
        ensures
            r == self@[1],
    {
        self.1
    }

    /// The third component.
    pub fn z(self) -> (r: T)
        ensures
            r == self@[2],
    {
        self.2
    }

    /// The component at position `a`, by reference.
    pub fn component(&self, a: Axis) -> (r: &T)
        ensures
            *r == self@[a.spec_index() as int],
    {
        match a {
            Axis::X => &self.0,
            Axis::Y => &self.1,
            Axis::Z => &self.2,
        }
    }
    /// Applies `f` to each component: negation and scaling by a scalar.
    pub fn map<U: Copy, F: Fn(T) -> U>(self, f: F) -> (r: Vec3<U>)
        requires
            total1(f),
        ensures
            mapped_by(self@, f, r@),
    {
        Vec3(f(self.0), f(self.1), f(self.2))
    }

    /// Combines two vectors position by position with `f`: sum, difference
    /// and the componentwise (Hadamard) product.
    pub fn zip_with<U: Copy, V: Copy, F: Fn(T, U) -> V>(self, other: Vec3<U>, f: F) -> (r: Vec3<V>)
        requires
            total2(f),
        ensures
            zipped_by(self@, other@, f, r@),
    {
        Vec3(f(self.0, other.0), f(self.1, other.1), f(self.2, other.2))
    }

    /// Replaces each component by `f` of it, in place.
    pub fn update<F: Fn(T) -> T>(&mut self, f: F)
        requires
            total1(f),
        ensures
            mapped_by(old(self)@, f, final(self)@),
    {
        self.0 = f(self.0);
        self.1 = f(self.1);
        self.2 = f(self.2);
    }

    /// Replaces each component by `f` of it and the component of `other` at
    /// the same position, in place.
    pub fn update_with<U: Copy, F: Fn(T, U) -> T>(&mut self, other: Vec3<U>, f: F)
        requires
            total2(f),
        ensures
            zipped_by(old(self)@, other@, f, final(self)@),
    {
        self.0 = f(self.0, other.0);
        self.1 = f(self.1, other.1);
        self.2 = f(self.2, other.2);
    }

    /// The dot product: the three pairwise products, summed in order.
    pub fn dot<M: Fn(T, T) -> T, A: Fn(T, T) -> T>(self, other: Self, times: M, plus: A) -> (r: T)
        requires
            total2(times),
            total2(plus),
        ensures
            dot_by(self@, other@, times, plus, r),
    {
        let p0 = times(self.0, other.0);
        let p1 = times(self.1, other.1);
        let p2 = times(self.2, other.2);
        let s = plus(p0, p1);
        let r = plus(s, p2);
        assert(plus.ensures((p0, p1), s) && plus.ensures((s, p2), r));
        r
    }

    /// The sum of the squares of the components: the dot product of the
    /// vector with itself.
    pub fn length_squared<M: Fn(T, T) -> T, A: Fn(T, T) -> T>(self, times: M, plus: A) -> (r: T)
        requires
            total2(times),
            total2(plus),
        ensures
            dot_by(self@, self@, times, plus, r),
    {
        self.dot(self, times, plus)
    }

    /// The cross product, by the usual component formulas.
    pub fn cross<M: Fn(T, T) -> T, S: Fn(T, T) -> T>(self, other: Self, times: M, minus: S) -> (r: Self)
        requires
            total2(times),
            total2(minus),
        ensures
            cross_by(self@, other@, times, minus, r@),
    {
        let p0 = times(self.1, other.2);
        let q0 = times(self.2, other.1);
        let c0 = minus(p0, q0);
        let p1 = times(self.2, other.0);
        let q1 = times(self.0, other.2);
        let c1 = minus(p1, q1);
        let p2 = times(self.0, other.1);
        let q2 = times(self.1, other.0);
        let c2 = minus(p2, q2);
        let r = Vec3(c0, c1, c2);
        assert(minus.ensures((p0, q0), c0));
        assert(minus.ensures((p1, q1), c1));
        assert(minus.ensures((p2, q2), c2));
        assert(cross_component_by(self@, other@, 0, times, minus, r@[0]));
        assert(cross_component_by(self@, other@, 1, times, minus, r@[1]));
        assert(cross_component_by(self@, other@, 2, times, minus, r@[2]));
        r
    }
}

} // verus!
