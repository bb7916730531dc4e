//! Linear-use capability tokens.
//!
//! A [`Token`] stands for an open exclusive-access window over one entity:
//! its view is a snapshot of the entity at the moment the window opened, and
//! every commit operation requires the entity to still equal that snapshot,
//! so no other code path can have mutated the entity in between. A
//! [`ConsumedToken`] is the terminal proof that the window has closed; its
//! view is the entity's value at that point. Neither type can be cloned, and
//! no operation turns a [`ConsumedToken`] back into a [`Token`], so a
//! consumed capability cannot be used to commit again.

use super::Container;
use vstd::prelude::*;

verus! {

/// A live capability over one entity of type `T`.
///
/// Zero-sized at runtime: it carries only the ghost snapshot taken when the
/// exclusive-access window opened.
pub struct Token<T> {
    snap: Ghost<T>,
}

/// Terminal proof that the exclusive-access window over a `T` has closed.
///
/// Its view is the entity's value when the window closed: unchanged for
/// [`Token::consume`], the staged value for a committed modification.
pub struct ConsumedToken<T> {
    snap: Ghost<T>,
}

/// The container side of a downgraded capability: it remembers the container
/// snapshot, which element position was reached, and the element's value at
/// that moment, so the element-level outcome can be folded back into a
/// container-level one.
pub struct UpgraderToken<U, L> {
    upper: Ghost<U>,
    lower: Ghost<L>,
    loc: Ghost<int>,
}

impl<T> View for Token<T> {
    type V = T;

    closed spec fn view(&self) -> T {
        self.snap@
    }
}

impl<T> View for ConsumedToken<T> {
    type V = T;

    closed spec fn view(&self) -> T {
        self.snap@
    }
}

impl<T> Token<T> {
    /// Opens the exclusive-access window over `*t` and snapshots its value.
    pub fn new(t: &mut T) -> (r: Token<T>)
        ensures
            *final(t) == *old(t),
            r@ == *old(t),
    {
        Token { snap: Ghost(*t) }
    }

    /// Concatenates this token with another one, covering the pair.
    pub fn join<T2>(self, token2: Token<T2>) -> (r: Token<(T, T2)>)
        ensures
            r@ == (self@, token2@),
    {
        Token { snap: Ghost((self@, token2@)) }
    }

    /// Closes the window without modifying the entity.
    pub fn consume(self) -> (r: ConsumedToken<T>)
        ensures
            r@ == self@,
    {
        ConsumedToken { snap: self.snap }
    }
}

impl<T1, T2> Token<(T1, T2)> {
    /// Splits a token over a pair into its two independent halves.
    pub fn split2(self) -> (r: (Token<T1>, Token<T2>))
        ensures
            r.0@ == self@.0,
            r.1@ == self@.1,
    {
        (Token { snap: Ghost(self@.0) }, Token { snap: Ghost(self@.1) })
    }
}

impl<T> ConsumedToken<T> {
    /// Concatenates with another consumed token, covering the pair.
    pub fn join<T2>(self, token2: ConsumedToken<T2>) -> (r: ConsumedToken<(T, T2)>)
        ensures
            r@ == (self@, token2@),
    {
        ConsumedToken { snap: Ghost((self@, token2@)) }
    }

    pub(crate) fn of(snap: Ghost<T>) -> (r: ConsumedToken<T>)
        ensures
            r@ == snap@,
    {
        ConsumedToken { snap }
    }
}

impl<T1, T2> ConsumedToken<(T1, T2)> {
    /// Splits a consumed token over a pair into its two halves.
    pub fn split2(self) -> (r: (ConsumedToken<T1>, ConsumedToken<T2>))
        ensures
            r.0@ == self@.0,
            r.1@ == self@.1,
    {
        (ConsumedToken { snap: Ghost(self@.0) }, ConsumedToken { snap: Ghost(self@.1) })
    }
}

impl<U, L> UpgraderToken<U, L> {
    /// The container's value when the downgrade happened.
    pub closed spec fn upper(self) -> U {
        self.upper@
    }

    /// The reached element's value when the downgrade happened.
    pub closed spec fn lower_at_downgrade(self) -> L {
        self.lower@
    }

    /// The position of the reached element within the container.
    pub closed spec fn loc(self) -> int {
        self.loc@
    }
}

impl<U: Container<L>, L> UpgraderToken<U, L> {
    /// The downgrade's record is consistent: the remembered position lies
    /// inside the remembered container and indexes the remembered element.
    pub open spec fn wf(self) -> bool {
        0 <= self.loc() < self.upper().elems().len() && self.lower_at_downgrade()
            == self.upper().elems()[self.loc()]
    }

    /// Downgrades a container-level capability into an element-level one:
    /// consumes the container token and hands out a live token over the
    /// element at position `loc`, together with the upgrader that can later
    /// rebuild a container-level token.
    pub fn new(upper: Token<U>, container: &U, loc: usize) -> (r: (UpgraderToken<U, L>, Token<L>))
        requires
            upper@ == *container,
            loc < container.elems().len(),
        ensures
            r.0.wf(),
            r.0.upper() == *container,
            r.0.lower_at_downgrade() == container.elems()[loc as int],
            r.0.loc() == loc,
            r.1@ == container.elems()[loc as int],
    {
        let u = UpgraderToken {
            upper: upper.snap,
            lower: Ghost(container.elems()[loc as int]),
            loc: Ghost(loc as int),
        };
        let l = Token { snap: Ghost(container.elems()[loc as int]) };
        (u, l)
    }

    /// Folds a consumed element-level token back into a consumed
    /// container-level token. `container` is the container after the commit:
    /// it must equal the downgraded container with exactly the reached
    /// element replaced by the committed value.
    pub fn consume(self, lower: ConsumedToken<L>, container: &U) -> (r: ConsumedToken<U>)
        requires
            container.elems() == self.upper().elems().update(self.loc(), lower@),
        ensures
            r@ == *container,
    {
        ConsumedToken { snap: Ghost(*container) }
    }

    /// Hands the container-level capability back live after a failed
    /// element-level operation: the element token must still carry the value
    /// it was downgraded with, which shows the container is untouched.
    pub fn returned(self, lower: Token<L>) -> (r: Token<U>)
        requires
            lower@ == self.lower_at_downgrade(),
        ensures
            r@ == self.upper(),
    {
        Token { snap: self.upper }
    }

    /// Discards an unused element-level token and recovers the live
    /// container-level capability.
    pub fn discard_lower(self, lower: Token<L>) -> (r: Token<U>)
        requires
            lower@ == self.lower_at_downgrade(),
        ensures
            r@ == self.upper(),
    {
        self.returned(lower)
    }
}

} // verus!
