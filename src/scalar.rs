use vstd::prelude::*;

verus! {

/// The scalar operations a network is evaluated with: an additive identity,
/// addition, multiplication and a strict "less than".
pub struct Arithmetic<T, S, P, L> {
    pub zero: T,
    pub sum: S,
    pub product: P,
    pub less: L,
}

impl<T: Copy, S: Fn(T, T) -> T, P: Fn(T, T) -> T, L: Fn(T, T) -> bool> Arithmetic<T, S, P, L> {
    /// Each operation can be called on any arguments and gives one result for
    /// given arguments.
    pub open spec fn is_functional(&self) -> bool {
        &&& forall|a: T, b: T| #[trigger] self.sum.requires((a, b))
        &&& forall|a: T, b: T| #[trigger] self.product.requires((a, b))
        &&& forall|a: T, b: T| #[trigger] self.less.requires((a, b))
        &&& forall|a: T, b: T, x: T, y: T|
            #[trigger] self.sum.ensures((a, b), x) && #[trigger] self.sum.ensures((a, b), y) ==> x == y
        &&& forall|a: T, b: T, x: T, y: T|
            #[trigger] self.product.ensures((a, b), x) && #[trigger] self.product.ensures((a, b), y)
                ==> x == y
        &&& forall|a: T, b: T, x: bool, y: bool|
            #[trigger] self.less.ensures((a, b), x) && #[trigger] self.less.ensures((a, b), y) ==> x
                == y
    }

    /// `a + b`.
    pub open spec fn add(&self, a: T, b: T) -> T {
        choose|r: T| self.sum.ensures((a, b), r)
    }

    /// `a * b`.
    pub open spec fn mul(&self, a: T, b: T) -> T {
        choose|r: T| self.product.ensures((a, b), r)
    }

    /// `a < b`.
    pub open spec fn lt(&self, a: T, b: T) -> bool {
        choose|r: bool| self.less.ensures((a, b), r)
    }

    /// Sum of the first `n` products `xs[i] * ws[i]`, accumulated from zero in
    /// index order.
    pub open spec fn dot(&self, xs: Seq<T>, ws: Seq<T>, n: nat) -> T
        decreases n,
    {
        if n == 0 {
            self.zero
        } else {
            self.add(self.dot(xs, ws, (n - 1) as nat), self.mul(xs[n - 1], ws[n - 1]))
        }
    }

    pub(crate) fn call_sum(&self, a: T, b: T) -> (r: T)
        requires
            self.is_functional(),
        ensures
            r == self.add(a, b),
    {
        let r = (self.sum)(a, b);
        assert(self.sum.ensures((a, b), self.add(a, b)));
        r
    }

    pub(crate) fn call_product(&self, a: T, b: T) -> (r: T)
        requires
            self.is_functional(),
        ensures
            r == self.mul(a, b),
    {
        let r = (self.product)(a, b);
        assert(self.product.ensures((a, b), self.mul(a, b)));
        r
    }

    pub(crate) fn call_less(&self, a: T, b: T) -> (r: bool)
        requires
            self.is_functional(),
        ensures
            r == self.lt(a, b),
    {
        let r = (self.less)(a, b);
        assert(self.less.ensures((a, b), self.lt(a, b)));
        r
    }
}

} // verus!
