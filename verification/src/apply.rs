//! Capability primitives: stage a modification on a private copy of an
//! entity, and replace the original only on an explicit commit, so that a
//! failure anywhere before the commit leaves every original untouched.

pub mod chain;
pub mod prepared;
pub mod token;
pub mod upgrade;

pub use chain::Chain;
pub use prepared::Prepared;
pub use token::{ConsumedToken, Token, UpgraderToken};
pub use upgrade::Upgrade;

use vstd::prelude::*;

verus! {

/// Outcome of a committed or abandoned operation over `T`: either every
/// token that covered `T` was consumed, or none was — the error is handed
/// back together with a still-live token over the untouched `T`.
pub type TResult<T, E> = Result<ConsumedToken<T>, (E, Token<T>)>;

/// An ordered container whose elements can be reached one at a time.
///
/// The spec view `elems` is what the downgrade/upgrade tokens speak of: a
/// capability over one element at position `i` can be folded back into a
/// capability over the container exactly when the container equals its old
/// value with position `i` replaced.
pub trait Container<L> {
    spec fn elems(&self) -> Seq<L>;
}

} // verus!
