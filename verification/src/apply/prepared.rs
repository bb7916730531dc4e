//! A staged modification: a live capability paired with the transformed
//! private copy that will replace the original on commit.

use super::chain::Chain;
use super::token::{ConsumedToken, Token};
use vstd::prelude::*;

verus! {

/// A staged modification of one entity of type `T`.
///
/// Holds the live [`Token`] over the entity together with the already
/// transformed copy. The original has not been touched: it is replaced only
/// by [`Prepared::apply`], which demands that the original still equals the
/// token's snapshot. Building the transformed copy is the fallible step; a
/// `Prepared` value therefore only exists once every check on the copy has
/// already succeeded, and its commit cannot fail.
pub struct Prepared<T> {
    token: Token<T>,
    next: T,
}

impl<T> Prepared<T> {
    /// The entity snapshot carried by the staged modification's token.
    pub closed spec fn token_snap(self) -> T {
        self.token@
    }

    /// The transformed copy that a commit will write.
    pub closed spec fn staged(self) -> T {
        self.next
    }

    /// Stages `next` as the value that will replace the entity covered by
    /// `token`.
    pub fn new(token: Token<T>, next: T) -> (r: Prepared<T>)
        ensures
            r.token_snap() == token@,
            r.staged() == next,
    {
        Prepared { token, next }
    }

    /// Composes this staged modification with a second one, so that both
    /// commit together or not at all.
    pub fn chain<A2>(self, a2: A2) -> (r: Chain<Prepared<T>, A2>)
        ensures
            r.first() == self,
            r.second() == a2,
    {
        Chain::new(self, a2)
    }

    /// Commits: replaces the original entity with the staged copy and closes
    /// the exclusive-access window. The entity must be untouched since its
    /// token was created.
    pub fn apply(self, t: &mut T) -> (r: ConsumedToken<T>)
        requires
            *old(t) == self.token_snap(),
        ensures
            *final(t) == self.staged(),
            r@ == self.staged(),
    {
        let Prepared { token: _token, next } = self;
        let ghost staged = next;
        *t = next;
        ConsumedToken::of(Ghost(staged))
    }
}

} // verus!
