//! Ledger value types: identifiers and monetary amounts.

pub mod client;
pub mod tx;

pub use client::{ClTxError, Client, Clients};
pub use tx::{ExternalTx, OrderedTxs, Tx, TxId, TxType};

use vstd::prelude::*;

verus! {

/// Identifier of one account.
#[derive(Clone, Copy, Debug, Hash, PartialEq, Eq, Structural)]
pub struct ClientId(pub u16);

/// A non-negative monetary amount, counted in fixed-point units (the I/O
/// layer decides how many units make one displayed currency unit).
///
/// Balances can never go negative by construction: subtraction is offered
/// only as [`Amount::sufficient_sub`], which fails instead of wrapping, and
/// addition only as [`Amount::checked_add`], which fails instead of
/// overflowing.
#[derive(Clone, Copy, Debug, Hash, PartialEq, Eq, Structural)]
pub struct Amount(pub u64);

/// Error of a subtraction whose right-hand side is bigger than its left-hand
/// side: carries the two operands.
#[derive(Clone, Copy, Debug, PartialEq, Eq, Structural)]
pub struct RhsSubTooBigError(pub Amount, pub Amount);

impl Amount {
    /// Subtracts `rhs` in place when the current value suffices; otherwise
    /// fails, reporting both operands, and leaves the value unchanged.
    pub fn sufficient_sub(&mut self, rhs: &Amount) -> (r: Result<(), RhsSubTooBigError>)
        ensures
            match r {
                Ok(()) => old(self).0 >= rhs.0 && final(self).0 == old(self).0 - rhs.0,
                Err(e) => old(self).0 < rhs.0 && *final(self) == *old(self) && e
                    == RhsSubTooBigError(*old(self), *rhs),
            },
    {
        if self.0 >= rhs.0 {
            self.0 = self.0 - rhs.0;
            Ok(())
        } else {
            Err(RhsSubTooBigError(*self, *rhs))
        }
    }

    /// Adds `rhs`, or reports `None` when the sum does not fit in the
    /// representable range.
    pub fn checked_add(&self, rhs: &Amount) -> (r: Option<Amount>)
        ensures
            match r {
                Some(s) => self.0 + rhs.0 <= u64::MAX && s.0 == self.0 + rhs.0,
                None => self.0 + rhs.0 > u64::MAX,
            },
    {
        if self.0 <= u64::MAX - rhs.0 {
            Some(Amount(self.0 + rhs.0))
        } else {
            None
        }
    }
}

} // verus!
