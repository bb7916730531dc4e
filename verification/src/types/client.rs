//! Accounts, the per-event business rules, and the operation dispatcher.

use crate::apply::{Container, Prepared, TResult, Token};
use crate::types::tx::{has_tx, tx_index, ExternalTx, OrderedTxs, Tx, TxId, TxType};
use crate::types::{Amount, ClientId};
use std::collections::HashMap;
use vstd::prelude::*;

verus! {

/// All accounts, keyed by the raw account id.
pub type Clients = HashMap<u16, Client>;

/// One account: balances never go negative (they are non-negative counts of
/// fixed-point units), and a charged-back account is locked.
#[derive(Clone, Copy, Debug, PartialEq, Eq)]
pub struct Client {
    pub id: ClientId,
    pub available: Amount,
    pub held: Amount,
    pub total: Amount,
    pub locked: bool,
}

/// Why one incoming event was rejected. Every rejection leaves all stored
/// state exactly as it was.
#[derive(Clone, Copy, Debug, PartialEq, Eq)]
pub enum ClTxError {
    /// A deposit or withdrawal came without an amount.
    MissingAmountError,
    /// A subtraction would have made a balance negative: carries the balance
    /// and the amount asked for.
    InsufficientFoundsError(Amount, Amount),
    /// A dispute, resolve or chargeback carried an amount.
    ExpectingEmptyAmountError(Amount),
    /// An addition would have left the representable range: carries the
    /// balance and the amount to add.
    AmountOverflowError(Amount, Amount),
    /// The referenced transaction belongs to another account.
    DifferentClientError { incoming: ClientId, stored: ClientId },
    /// A withdrawal was asked of a locked account.
    LockedClientError,
    DisputationOnANotFoundTxIdError(TxId),
    DisputationOnNonDepositError(TxId),
    DisputationOnAlreadyDisputedTxError(TxId),
    ResolvingOnANotFoundTxIdError(TxId),
    ResolvingOnNonDepositError(TxId),
    ResolvingOnNonDisputedTxError(TxId),
    ChargebackOnANotFoundTxIdError(TxId),
    ChargebackOnNonDepositError(TxId),
    ChargebackOnNonDisputedTxError(TxId),
}

/// What a deposit of `a` does to account `c`: both `available` and `total`
/// grow by `a`, or the event is rejected when either sum would not fit.
pub open spec fn deposit_spec(c: Client, a: Amount) -> Result<Client, ClTxError> {
    if c.available.0 + a.0 > u64::MAX {
        Err(ClTxError::AmountOverflowError(c.available, a))
    } else if c.total.0 + a.0 > u64::MAX {
        Err(ClTxError::AmountOverflowError(c.total, a))
    } else {
        Ok(
            Client {
                id: c.id,
                available: Amount((c.available.0 + a.0) as u64),
                held: c.held,
                total: Amount((c.total.0 + a.0) as u64),
                locked: c.locked,
            },
        )
    }
}

/// What a withdrawal of `a` does to account `c`: rejected on a locked
/// account, rejected when a balance would go negative, otherwise both
/// `available` and `total` shrink by `a`.
pub open spec fn withdrawal_spec(c: Client, a: Amount) -> Result<Client, ClTxError> {
    if c.locked {
        Err(ClTxError::LockedClientError)
    } else if c.available.0 < a.0 {
        Err(ClTxError::InsufficientFoundsError(c.available, a))
    } else if c.total.0 < a.0 {
        Err(ClTxError::InsufficientFoundsError(c.total, a))
    } else {
        Ok(
            Client {
                id: c.id,
                available: Amount((c.available.0 - a.0) as u64),
                held: c.held,
                total: Amount((c.total.0 - a.0) as u64),
                locked: c.locked,
            },
        )
    }
}

/// What a dispute does: the referenced record must exist, be a deposit of
/// this same account and not yet be disputed; then the deposited amount moves
/// from `available` to `held` and the record is marked disputed, both
/// together or not at all.
pub open spec fn dispute_spec(c: Client, log: Seq<Tx>, e: ExternalTx) -> Result<
    (Client, Seq<Tx>),
    ClTxError,
> {
    match e.amount {
        Some(a) => Err(ClTxError::ExpectingEmptyAmountError(a)),
        None => if !has_tx(log, e.txid) {
            Err(ClTxError::DisputationOnANotFoundTxIdError(e.txid))
        } else {
            let i = tx_index(log, e.txid);
            let t = log[i];
            if t.ty != TxType::Deposit {
                Err(ClTxError::DisputationOnNonDepositError(e.txid))
            } else if t.client != c.id {
                Err(ClTxError::DifferentClientError { incoming: c.id, stored: t.client })
            } else {
                match t.amount {
                    None => Err(ClTxError::MissingAmountError),
                    Some(a) => if c.available.0 < a.0 {
                        Err(ClTxError::InsufficientFoundsError(c.available, a))
                    } else if c.held.0 + a.0 > u64::MAX {
                        Err(ClTxError::AmountOverflowError(c.held, a))
                    } else if t.spec_disputed() {
                        Err(ClTxError::DisputationOnAlreadyDisputedTxError(e.txid))
                    } else {
                        Ok(
                            (
                                Client {
                                    id: c.id,
                                    available: Amount((c.available.0 - a.0) as u64),
                                    held: Amount((c.held.0 + a.0) as u64),
                                    total: c.total,
                                    locked: c.locked,
                                },
                                log.update(i, t.with_disputed(true)),
                            ),
                        )
                    },
                }
            }
        },
    }
}

/// What a resolve does: the exact mirror of a dispute. The referenced record
/// must exist, be a deposit of this same account and be currently disputed;
/// then the amount moves back from `held` to `available` and the record's
/// disputed mark is cleared, both together or not at all.
pub open spec fn resolve_spec(c: Client, log: Seq<Tx>, e: ExternalTx) -> Result<
    (Client, Seq<Tx>),
    ClTxError,
> {
    match e.amount {
        Some(a) => Err(ClTxError::ExpectingEmptyAmountError(a)),
        None => if !has_tx(log, e.txid) {
            Err(ClTxError::ResolvingOnANotFoundTxIdError(e.txid))
        } else {
            let i = tx_index(log, e.txid);
            let t = log[i];
            if t.ty != TxType::Deposit {
                Err(ClTxError::ResolvingOnNonDepositError(e.txid))
            } else if t.client != c.id {
                Err(ClTxError::DifferentClientError { incoming: c.id, stored: t.client })
            } else {
                match t.amount {
                    None => Err(ClTxError::MissingAmountError),
                    Some(a) => if c.held.0 < a.0 {
                        Err(ClTxError::InsufficientFoundsError(c.held, a))
                    } else if c.available.0 + a.0 > u64::MAX {
                        Err(ClTxError::AmountOverflowError(c.available, a))
                    } else if !t.spec_disputed() {
                        Err(ClTxError::ResolvingOnNonDisputedTxError(e.txid))
                    } else {
                        Ok(
                            (
                                Client {
                                    id: c.id,
                                    available: Amount((c.available.0 + a.0) as u64),
                                    held: Amount((c.held.0 - a.0) as u64),
                                    total: c.total,
                                    locked: c.locked,
                                },
                                log.update(i, t.with_disputed(false)),
                            ),
                        )
                    },
                }
            }
        },
    }
}

/// What a chargeback does: the referenced record must exist, be a deposit of
/// this same account and be currently disputed; then the held amount and the
/// total shrink by the deposited amount and the account is locked. The record
/// itself is read, never changed.
pub open spec fn chargeback_spec(c: Client, log: Seq<Tx>, e: ExternalTx) -> Result<
    (Client, Seq<Tx>),
    ClTxError,
> {
    match e.amount {
        Some(a) => Err(ClTxError::ExpectingEmptyAmountError(a)),
        None => if !has_tx(log, e.txid) {
            Err(ClTxError::ChargebackOnANotFoundTxIdError(e.txid))
        } else {
            let i = tx_index(log, e.txid);
            let t = log[i];
            if t.ty != TxType::Deposit {
                Err(ClTxError::ChargebackOnNonDepositError(e.txid))
            } else if !t.spec_disputed() {
                Err(ClTxError::ChargebackOnNonDisputedTxError(e.txid))
            } else if t.client != c.id {
                Err(ClTxError::DifferentClientError { incoming: c.id, stored: t.client })
            } else {
                match t.amount {
                    None => Err(ClTxError::MissingAmountError),
                    Some(a) => if c.held.0 < a.0 {
                        Err(ClTxError::InsufficientFoundsError(c.held, a))
                    } else if c.total.0 < a.0 {
                        Err(ClTxError::InsufficientFoundsError(c.total, a))
                    } else {
                        Ok(
                            (
                                Client {
                                    id: c.id,
                                    available: c.available,
                                    held: Amount((c.held.0 - a.0) as u64),
                                    total: Amount((c.total.0 - a.0) as u64),
                                    locked: true,
                                },
                                log,
                            ),
                        )
                    },
                }
            }
        },
    }
}

/// The complete per-event rule: what processing event `e` against account `c`
/// and log `log` returns — the updated account and log on acceptance, the
/// exact rejection otherwise. A rejection never changes any state.
pub open spec fn process_tx_spec(c: Client, log: Seq<Tx>, e: ExternalTx) -> Result<
    (Client, Seq<Tx>),
    ClTxError,
> {
    match e.ty {
        TxType::Deposit => match e.amount {
            None => Err(ClTxError::MissingAmountError),
            Some(a) => match deposit_spec(c, a) {
                Ok(c1) => Ok((c1, log)),
                Err(err) => Err(err),
            },
        },
        TxType::Withdrawal => match e.amount {
            None => Err(ClTxError::MissingAmountError),
            Some(a) => match withdrawal_spec(c, a) {
                Ok(c1) => Ok((c1, log)),
                Err(err) => Err(err),
            },
        },
        TxType::Dispute => dispute_spec(c, log, e),
        TxType::Resolve => resolve_spec(c, log, e),
        TxType::Chargeback => chargeback_spec(c, log, e),
    }
}

/// Arithmetic floor, withdrawal: a withdrawal that would drive `available`
/// or `total` below zero is rejected.
pub proof fn lemma_floor_withdrawal(c: Client, log: Seq<Tx>, e: ExternalTx, a: Amount)
    requires
        e.ty == TxType::Withdrawal,
        e.amount == Some(a),
        c.available.0 < a.0 || c.total.0 < a.0,
    ensures
        process_tx_spec(c, log, e) is Err,
{
}

/// Arithmetic floor, dispute: a dispute whose referenced deposit holds more
/// than the account's available balance is rejected.
pub proof fn lemma_floor_dispute(c: Client, log: Seq<Tx>, e: ExternalTx, a: Amount)
    requires
        e.ty == TxType::Dispute,
        has_tx(log, e.txid),
        log[tx_index(log, e.txid)].amount == Some(a),
        c.available.0 < a.0,
    ensures
        process_tx_spec(c, log, e) is Err,
{
}

/// Arithmetic floor, resolve: a resolve whose referenced deposit holds more
/// than the account's held balance is rejected.
pub proof fn lemma_floor_resolve(c: Client, log: Seq<Tx>, e: ExternalTx, a: Amount)
    requires
        e.ty == TxType::Resolve,
        has_tx(log, e.txid),
        log[tx_index(log, e.txid)].amount == Some(a),
        c.held.0 < a.0,
    ensures
        process_tx_spec(c, log, e) is Err,
{
}

/// Arithmetic floor, chargeback: a chargeback whose referenced deposit holds
/// more than the account's held balance or its total is rejected.
pub proof fn lemma_floor_chargeback(c: Client, log: Seq<Tx>, e: ExternalTx, a: Amount)
    requires
        e.ty == TxType::Chargeback,
        has_tx(log, e.txid),
        log[tx_index(log, e.txid)].amount == Some(a),
        c.held.0 < a.0 || c.total.0 < a.0,
    ensures
        process_tx_spec(c, log, e) is Err,
{
}

/// Dispute state machine: whatever the event, an accepted operation changes
/// stored records only by marking the one record the event refers to: from
/// not disputed to disputed (dispute), or from disputed to not disputed
/// (resolve); every other stored record keeps its value exactly.
pub proof fn lemma_disputed_transitions(c: Client, log: Seq<Tx>, e: ExternalTx)
    ensures
        match process_tx_spec(c, log, e) {
            Ok(r) => r.1.len() == log.len() && forall|i: int|
                0 <= i < log.len() ==> (#[trigger] r.1[i]) == log[i] || (e.ty == TxType::Dispute
                    && i == tx_index(log, e.txid) && !log[i].spec_disputed() && r.1[i]
                    == log[i].with_disputed(true)) || (e.ty == TxType::Resolve && i == tx_index(
                    log,
                    e.txid,
                ) && log[i].spec_disputed() && r.1[i] == log[i].with_disputed(false)),
            Err(_) => true,
        },
{
}

/// An accepted dispute refers to a stored deposit of this same account that
/// was not yet disputed, and marks exactly that record disputed.
pub proof fn lemma_dispute_marks_record(c: Client, log: Seq<Tx>, e: ExternalTx)
    requires
        e.ty == TxType::Dispute,
    ensures
        match process_tx_spec(c, log, e) {
            Ok(r) => has_tx(log, e.txid) && log[tx_index(log, e.txid)].ty == TxType::Deposit
                && !log[tx_index(log, e.txid)].spec_disputed() && log[tx_index(
                log,
                e.txid,
            )].client == c.id && r.1 == log.update(
                tx_index(log, e.txid),
                log[tx_index(log, e.txid)].with_disputed(true),
            ),
            Err(_) => true,
        },
{
}

/// An accepted resolve refers to a stored deposit of this same account that
/// was currently disputed, and clears exactly that record's disputed mark.
pub proof fn lemma_resolve_clears_record(c: Client, log: Seq<Tx>, e: ExternalTx)
    requires
        e.ty == TxType::Resolve,
    ensures
        match process_tx_spec(c, log, e) {
            Ok(r) => has_tx(log, e.txid) && log[tx_index(log, e.txid)].ty == TxType::Deposit
                && log[tx_index(log, e.txid)].spec_disputed() && log[tx_index(log, e.txid)].client
                == c.id && r.1 == log.update(
                tx_index(log, e.txid),
                log[tx_index(log, e.txid)].with_disputed(false),
            ),
            Err(_) => true,
        },
{
}

/// Chargeback state machine: an accepted chargeback refers to a stored
/// deposit that is currently disputed and belongs to this account, leaves
/// every stored record unchanged, and locks the account.
pub proof fn lemma_chargeback_locks(c: Client, log: Seq<Tx>, e: ExternalTx)
    requires
        e.ty == TxType::Chargeback,
    ensures
        match process_tx_spec(c, log, e) {
            Ok(r) => has_tx(log, e.txid) && log[tx_index(log, e.txid)].ty == TxType::Deposit
                && log[tx_index(log, e.txid)].spec_disputed() && log[tx_index(log, e.txid)].client
                == c.id && r.0.locked && r.1 == log,
            Err(_) => true,
        },
{
}

/// A locked account rejects every withdrawal.
pub proof fn lemma_locked_rejects_withdrawal(c: Client, log: Seq<Tx>, e: ExternalTx)
    requires
        e.ty == TxType::Withdrawal,
        c.locked,
    ensures
        process_tx_spec(c, log, e) is Err,
{
}

impl Client {
    /// A fresh account: all balances zero, not locked.
    pub fn new(id: &ClientId) -> (r: Client)
        ensures
            r == (Client {
                id: *id,
                available: Amount(0),
                held: Amount(0),
                total: Amount(0),
                locked: false,
            }),
    {
        Client { id: *id, available: Amount(0), held: Amount(0), total: Amount(0), locked: false }
    }

    /// Checks that the stored record `tx` belongs to this account.
    pub fn check_client_id(&self, tx: &Tx) -> (r: Result<(), ClTxError>)
        ensures
            match r {
                Ok(()) => self.id == tx.client,
                Err(e) => self.id != tx.client && e == (ClTxError::DifferentClientError {
                    incoming: self.id,
                    stored: tx.client,
                }),
            },
    {
        if self.id == tx.client {
            Ok(())
        } else {
            Err(ClTxError::DifferentClientError { incoming: self.id, stored: tx.client })
        }
    }

    /// Processes one event against this account and the transaction log.
    ///
    /// Exactly implements [`process_tx_spec`]. On acceptance both entities
    /// carry their new values and one consumed token over the pair is
    /// returned; on rejection nothing has changed and the error comes back
    /// with a live token over the untouched pair. A dispute or resolve
    /// touches two entities, and this function commits either both sides or
    /// neither.
    pub fn try_process_transaction(
        &mut self,
        token: Token<Client>,
        extx: &ExternalTx,
        previous_txs: &mut OrderedTxs,
        txs_token: Token<OrderedTxs>,
    ) -> (r: TResult<(Client, OrderedTxs), ClTxError>)
        requires
            token@ == *old(self),
            txs_token@ == *old(previous_txs),
            old(previous_txs).wf(),
        ensures
            final(previous_txs).wf(),
            match r {
                Ok(consumed) => process_tx_spec(*old(self), old(previous_txs).elems(), *extx)
                    == Ok::<(Client, Seq<Tx>), ClTxError>(
                    (*final(self), final(previous_txs).elems()),
                ) && consumed@ == (*final(self), *final(previous_txs)),
                Err((e, tok)) => process_tx_spec(*old(self), old(previous_txs).elems(), *extx)
                    == Err::<(Client, Seq<Tx>), ClTxError>(e) && *final(self) == *old(self)
                    && *final(previous_txs) == *old(previous_txs) && tok@ == (
                    *old(self),
                    *old(previous_txs),
                ),
            },
    {
        match extx.ty {
            TxType::Deposit => {
                let a = match extx.amount {
                    Some(a) => a,
                    None => {
                        return Err((ClTxError::MissingAmountError, token.join(txs_token)));
                    },
                };
                let mut next = *self;
                next.available = match next.available.checked_add(&a) {
                    Some(v) => v,
                    None => {
                        return Err(
                            (ClTxError::AmountOverflowError(next.available, a), token.join(
                                txs_token,
                            )),
                        );
                    },
                };
                next.total = match next.total.checked_add(&a) {
                    Some(v) => v,
                    None => {
                        return Err(
                            (ClTxError::AmountOverflowError(next.total, a), token.join(txs_token)),
                        );
                    },
                };
                let consumed = Prepared::new(token, next).apply(self);
                Ok(consumed.join(txs_token.consume()))
            },
            TxType::Withdrawal => {
                let a = match extx.amount {
                    Some(a) => a,
                    None => {
                        return Err((ClTxError::MissingAmountError, token.join(txs_token)));
                    },
                };
                if self.locked {
                    return Err((ClTxError::LockedClientError, token.join(txs_token)));
                }
                let mut next = *self;
                if let Err(e) = next.available.sufficient_sub(&a) {
                    return Err(
                        (ClTxError::InsufficientFoundsError(e.0, e.1), token.join(txs_token)),
                    );
                }
                if let Err(e) = next.total.sufficient_sub(&a) {
                    return Err(
                        (ClTxError::InsufficientFoundsError(e.0, e.1), token.join(txs_token)),
                    );
                }
                let consumed = Prepared::new(token, next).apply(self);
                Ok(consumed.join(txs_token.consume()))
            },
            TxType::Dispute => {
                if let Some(a) = extx.amount {
                    return Err((ClTxError::ExpectingEmptyAmountError(a), token.join(txs_token)));
                }
                let (upper, tx_token, i) = match previous_txs.get_mut(&extx.txid, txs_token) {
                    Ok(found) => found,
                    Err(txs_token) => {
                        return Err(
                            (ClTxError::DisputationOnANotFoundTxIdError(extx.txid), token.join(
                                txs_token,
                            )),
                        );
                    },
                };
                let t = *previous_txs.at(i);
                if t.ty != TxType::Deposit {
                    return Err(
                        (ClTxError::DisputationOnNonDepositError(extx.txid), token.join(
                            upper.returned(tx_token),
                        )),
                    );
                }
                if let Err(e) = self.check_client_id(&t) {
                    return Err((e, token.join(upper.returned(tx_token))));
                }
                let a = match t.amount {
                    Some(a) => a,
                    None => {
                        return Err(
                            (ClTxError::MissingAmountError, token.join(upper.returned(tx_token))),
                        );
                    },
                };
                let mut client_next = *self;
                if let Err(e) = client_next.available.sufficient_sub(&a) {
                    return Err(
                        (ClTxError::InsufficientFoundsError(e.0, e.1), token.join(
                            upper.returned(tx_token),
                        )),
                    );
                }
                client_next.held = match client_next.held.checked_add(&a) {
                    Some(v) => v,
                    None => {
                        return Err(
                            (ClTxError::AmountOverflowError(client_next.held, a), token.join(
                                upper.returned(tx_token),
                            )),
                        );
                    },
                };
                let mut tx_next = t;
                if let Err(e) = tx_next.set_disputed() {
                    return Err((e, token.join(upper.returned(tx_token))));
                }
                let chained = Prepared::new(token, client_next).chain(
                    Prepared::new(tx_token, tx_next).upgrade(upper, i),
                );
                let ghost pre_txs = *previous_txs;
                let consumed = chained.apply(self, previous_txs);
                proof {
                    pre_txs.lemma_wf_update_same_txid(i as int, tx_next);
                }
                Ok(consumed)
            },
            TxType::Resolve => {
                if let Some(a) = extx.amount {
                    return Err((ClTxError::ExpectingEmptyAmountError(a), token.join(txs_token)));
                }
                let (upper, tx_token, i) = match previous_txs.get_mut(&extx.txid, txs_token) {
                    Ok(found) => found,
                    Err(txs_token) => {
                        return Err(
                            (ClTxError::ResolvingOnANotFoundTxIdError(extx.txid), token.join(
                                txs_token,
                            )),
                        );
                    },
                };
                let t = *previous_txs.at(i);
                if t.ty != TxType::Deposit {
                    return Err(
                        (ClTxError::ResolvingOnNonDepositError(extx.txid), token.join(
                            upper.returned(tx_token),
                        )),
                    );
                }
                if let Err(e) = self.check_client_id(&t) {
                    return Err((e, token.join(upper.returned(tx_token))));
                }
                let a = match t.amount {
                    Some(a) => a,
                    None => {
                        return Err(
                            (ClTxError::MissingAmountError, token.join(upper.returned(tx_token))),
                        );
                    },
                };
                let mut client_next = *self;
                if let Err(e) = client_next.held.sufficient_sub(&a) {
                    return Err(
                        (ClTxError::InsufficientFoundsError(e.0, e.1), token.join(
                            upper.returned(tx_token),
                        )),
                    );
                }
                client_next.available = match client_next.available.checked_add(&a) {
                    Some(v) => v,
                    None => {
                        return Err(
                            (ClTxError::AmountOverflowError(client_next.available, a), token.join(
                                upper.returned(tx_token),
                            )),
                        );
                    },
                };
                let mut tx_next = t;
                if let Err(e) = tx_next.unset_disputed() {
                    return Err((e, token.join(upper.returned(tx_token))));
                }
                let chained = Prepared::new(token, client_next).chain(
                    Prepared::new(tx_token, tx_next).upgrade(upper, i),
                );
                let ghost pre_txs = *previous_txs;
                let consumed = chained.apply(self, previous_txs);
                proof {
                    pre_txs.lemma_wf_update_same_txid(i as int, tx_next);
                }
                Ok(consumed)
            },
            TxType::Chargeback => {
                if let Some(a) = extx.amount {
                    return Err((ClTxError::ExpectingEmptyAmountError(a), token.join(txs_token)));
                }
                let i = match previous_txs.find_index(&extx.txid) {
                    Some(i) => i,
                    None => {
                        return Err(
                            (ClTxError::ChargebackOnANotFoundTxIdError(extx.txid), token.join(
                                txs_token,
                            )),
                        );
                    },
                };
                let t = *previous_txs.at(i);
                if t.ty != TxType::Deposit {
                    return Err(
                        (ClTxError::ChargebackOnNonDepositError(extx.txid), token.join(txs_token)),
                    );
                }
                if !t.is_disputed() {
                    return Err(
                        (ClTxError::ChargebackOnNonDisputedTxError(extx.txid), token.join(
                            txs_token,
                        )),
                    );
                }
                if let Err(e) = self.check_client_id(&t) {
                    return Err((e, token.join(txs_token)));
                }
                let a = match t.amount {
                    Some(a) => a,
                    None => {
                        return Err((ClTxError::MissingAmountError, token.join(txs_token)));
                    },
                };
                let mut next = *self;
                if let Err(e) = next.held.sufficient_sub(&a) {
                    return Err(
                        (ClTxError::InsufficientFoundsError(e.0, e.1), token.join(txs_token)),
                    );
                }
                if let Err(e) = next.total.sufficient_sub(&a) {
                    return Err(
                        (ClTxError::InsufficientFoundsError(e.0, e.1), token.join(txs_token)),
                    );
                }
                next.locked = true;
                let consumed = Prepared::new(token, next).apply(self);
                Ok(consumed.join(txs_token.consume()))
            },
        }
    }
}

} // verus!

