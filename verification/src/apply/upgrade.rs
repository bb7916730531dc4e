//! A staged element modification lifted to its container: committing it
//! writes the element in place and folds the element-level capability back
//! into a container-level one in a single step.

use super::prepared::Prepared;
use super::token::UpgraderToken;
use super::Container;
use vstd::prelude::*;

verus! {

/// A staged modification of one element of a container, together with the
/// upgrader that folds the element-level capability back into a
/// container-level capability on commit.
///
/// How the commit reaches the element is the container's own business: the
/// committing operation is implemented where the container type lives.
pub struct Upgrade<U, L> {
    lower: Prepared<L>,
    token: UpgraderToken<U, L>,
    loc: usize,
}

impl<U, L> Upgrade<U, L> {
    /// The staged element modification.
    pub closed spec fn lower(self) -> Prepared<L> {
        self.lower
    }

    /// The upgrader carried for the commit.
    pub closed spec fn upgrader(self) -> UpgraderToken<U, L> {
        self.token
    }

    /// The element's position within the container.
    pub closed spec fn spec_loc(self) -> int {
        self.loc as int
    }

    /// The element position, as held at runtime.
    pub(crate) fn loc(&self) -> (r: usize)
        ensures
            r == self.spec_loc(),
    {
        self.loc
    }

    pub(crate) fn into_parts(self) -> (r: (Prepared<L>, UpgraderToken<U, L>, usize))
        ensures
            r.0 == self.lower(),
            r.1 == self.upgrader(),
            r.2 == self.spec_loc(),
    {
        (self.lower, self.token, self.loc)
    }
}

impl<U: Container<L>, L> Upgrade<U, L> {
    /// Lifts the staged element modification `lower` to the container that
    /// `token` was downgraded from; `loc` is the element's position.
    pub fn new(lower: Prepared<L>, token: UpgraderToken<U, L>, loc: usize) -> (r: Upgrade<U, L>)
        requires
            loc == token.loc(),
        ensures
            r.lower() == lower,
            r.upgrader() == token,
            r.spec_loc() == loc,
    {
        Upgrade { lower, token, loc }
    }
}

impl<T> Prepared<T> {
    /// Lifts this staged element modification to the container that `token`
    /// was downgraded from; `loc` is the element's position.
    pub fn upgrade<U: Container<T>>(self, token: UpgraderToken<U, T>, loc: usize) -> (r: Upgrade<
        U,
        T,
    >)
        requires
            loc == token.loc(),
        ensures
            r.lower() == self,
            r.upgrader() == token,
            r.spec_loc() == loc,
    {
        Upgrade::new(self, token, loc)
    }
}

} // verus!
