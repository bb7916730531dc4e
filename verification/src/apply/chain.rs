//! The joint-commit combinator over two staged modifications.

use super::prepared::Prepared;
use super::token::ConsumedToken;
use vstd::prelude::*;

verus! {

/// Two staged modifications composed into one all-or-nothing operation.
///
/// A `Chain` can only be built from already staged modifications, so every
/// fallible step has run before either original is touched; its
/// [`Chain::apply`] then replaces both originals and consumes both
/// capabilities in one step. There is no way to commit one side of a `Chain`
/// without the other.
pub struct Chain<A1, A2> {
    a1: A1,
    a2: A2,
}

impl<A1, A2> Chain<A1, A2> {
    /// The first composed operation.
    pub closed spec fn first(self) -> A1 {
        self.a1
    }

    /// The second composed operation.
    pub closed spec fn second(self) -> A2 {
        self.a2
    }

    /// Composes `a1` and `a2`.
    pub fn new(a1: A1, a2: A2) -> (r: Chain<A1, A2>)
        ensures
            r.first() == a1,
            r.second() == a2,
    {
        Chain { a1, a2 }
    }

    pub(crate) fn into_parts(self) -> (r: (A1, A2))
        ensures
            r.0 == self.first(),
            r.1 == self.second(),
    {
        (self.a1, self.a2)
    }

    /// Extends the composition with a third operation.
    pub fn chain<A3>(self, a3: A3) -> (r: Chain<(A1, A2), A3>)
        ensures
            r.first() == (self.first(), self.second()),
            r.second() == a3,
    {
        Chain::new((self.a1, self.a2), a3)
    }
}

impl<T1, T2> Chain<Prepared<T1>, Prepared<T2>> {
    /// Commits both staged modifications: both originals are replaced by
    /// their staged copies, and one consumed token over the pair is returned.
    /// Both entities must be untouched since their tokens were created.
    pub fn apply(self, t1: &mut T1, t2: &mut T2) -> (r: ConsumedToken<(T1, T2)>)
        requires
            *old(t1) == self.first().token_snap(),
            *old(t2) == self.second().token_snap(),
        ensures
            *final(t1) == self.first().staged(),
            *final(t2) == self.second().staged(),
            r@ == (self.first().staged(), self.second().staged()),
    {
        let Chain { a1, a2 } = self;
        let c1 = a1.apply(t1);
        let c2 = a2.apply(t2);
        c1.join(c2)
    }
}

} // verus!
