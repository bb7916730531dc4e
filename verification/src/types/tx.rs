//! Transaction records and the ordered transaction log.

use crate::apply::{Chain, Container, ConsumedToken, Prepared, Token, Upgrade, UpgraderToken};
use crate::types::client::ClTxError;
use crate::types::{Amount, ClientId};
use vstd::prelude::*;

verus! {

/// The kind of an incoming ledger event.
#[derive(Clone, Copy, Debug, Hash, PartialEq, Eq, Structural)]
pub enum TxType {
    Deposit,
    Withdrawal,
    Dispute,
    Resolve,
    Chargeback,
}

/// Identifier of one transaction, as given by the event source.
#[derive(Clone, Copy, Debug, Hash, PartialEq, Eq, Structural)]
pub struct TxId(pub u32);

/// Internal sequence number attached to every incoming event, accepted or
/// not, so that a rejection can be correlated with its input position.
/// Events that refer to other transactions (dispute, resolve, chargeback)
/// carry no transaction id of their own, so this number is the only handle
/// on them. It wraps around at the end of its range.
#[derive(Clone, Copy, Debug, Hash, PartialEq, Eq, Structural)]
pub struct InternalTxId(pub u32);

impl InternalTxId {
    /// Advances the sequence number by one, wrapping at the end of the range.
    pub fn step(&mut self)
        ensures
            final(self).0 == if old(self).0 == u32::MAX {
                0u32
            } else {
                (old(self).0 + 1) as u32
            },
    {
        if self.0 == u32::MAX {
            self.0 = 0;
        } else {
            self.0 = self.0 + 1;
        }
    }
}

/// One incoming ledger event: consumed by the dispatcher, never stored.
/// Amounts are present only on deposits and withdrawals.
#[derive(Clone, Copy, Debug, PartialEq, Eq)]
pub struct ExternalTx {
    pub ty: TxType,
    pub client: ClientId,
    pub txid: TxId,
    pub amount: Option<Amount>,
}

/// One stored transaction record. Created when a deposit or withdrawal is
/// accepted; every field but `disputed` is fixed at creation, and `disputed`
/// changes only through [`Tx::set_disputed`] and [`Tx::unset_disputed`].
#[derive(Clone, Copy, Debug, PartialEq, Eq)]
pub struct Tx {
    pub ty: TxType,
    pub client: ClientId,
    pub txid: TxId,
    pub internal_txid: InternalTxId,
    pub amount: Option<Amount>,
    pub disputed: bool,
}

impl Tx {
    /// Whether the record is currently disputed.
    pub open spec fn spec_disputed(self) -> bool {
        self.disputed
    }

    /// This record with its disputed flag set to `d` and all other fields
    /// unchanged.
    pub open spec fn with_disputed(self, d: bool) -> Tx {
        Tx { disputed: d, ..self }
    }

    pub fn is_disputed(&self) -> (r: bool)
        ensures
            r == self.spec_disputed(),
    {
        self.disputed
    }

    /// Marks the record disputed; fails when it already is, leaving it
    /// unchanged.
    pub fn set_disputed(&mut self) -> (r: Result<(), ClTxError>)
        ensures
            match r {
                Ok(()) => !old(self).spec_disputed() && *final(self) == old(self).with_disputed(
                    true,
                ),
                Err(e) => old(self).spec_disputed() && *final(self) == *old(self) && e
                    == ClTxError::DisputationOnAlreadyDisputedTxError(old(self).txid),
            },
    {
        if self.disputed {
            Err(ClTxError::DisputationOnAlreadyDisputedTxError(self.txid))
        } else {
            self.disputed = true;
            Ok(())
        }
    }

    /// Clears the disputed flag; fails when the record is not currently
    /// disputed, leaving it unchanged.
    pub fn unset_disputed(&mut self) -> (r: Result<(), ClTxError>)
        ensures
            match r {
                Ok(()) => old(self).spec_disputed() && *final(self) == old(self).with_disputed(
                    false,
                ),
                Err(e) => !old(self).spec_disputed() && *final(self) == *old(self) && e
                    == ClTxError::ResolvingOnNonDisputedTxError(old(self).txid),
            },
    {
        if !self.disputed {
            Err(ClTxError::ResolvingOnNonDisputedTxError(self.txid))
        } else {
            self.disputed = false;
            Ok(())
        }
    }

    /// The record that storing event `e` under sequence number `internal`
    /// creates: all fields copied over, not yet disputed.
    pub open spec fn spec_from_external(e: ExternalTx, internal: InternalTxId) -> Tx {
        Tx {
            ty: e.ty,
            client: e.client,
            txid: e.txid,
            internal_txid: internal,
            amount: e.amount,
            disputed: false,
        }
    }

    /// Builds the stored record for an accepted deposit or withdrawal.
    pub fn from_external(external: &ExternalTx, internal_txid: InternalTxId) -> (r: Tx)
        ensures
            r == Tx::spec_from_external(*external, internal_txid),
            r.txid == external.txid,
            !r.spec_disputed(),
    {
        Tx {
            ty: external.ty,
            client: external.client,
            txid: external.txid,
            internal_txid,
            amount: external.amount,
            disputed: false,
        }
    }

    /// Checks that the record belongs to the account identified by
    /// `client_id`.
    pub fn check_client_id(&self, client_id: &ClientId) -> (r: Result<(), ClTxError>)
        ensures
            match r {
                Ok(()) => self.client == *client_id,
                Err(e) => self.client != *client_id && e == (ClTxError::DifferentClientError {
                    incoming: *client_id,
                    stored: self.client,
                }),
            },
    {
        if self.client == *client_id {
            Ok(())
        } else {
            Err(
                ClTxError::DifferentClientError {
                    incoming: *client_id,
                    stored: self.client,
                },
            )
        }
    }
}

/// A rejected event together with the identifiers needed to report it.
#[derive(Clone, Copy, Debug, PartialEq, Eq)]
pub struct TxError {
    txid: TxId,
    internal_txid: InternalTxId,
    error: ClTxError,
}

impl TxError {
    pub closed spec fn spec_txid(self) -> TxId {
        self.txid
    }

    pub closed spec fn spec_internal_txid(self) -> InternalTxId {
        self.internal_txid
    }

    pub closed spec fn spec_error(self) -> ClTxError {
        self.error
    }

    pub(crate) fn new(txid: TxId, internal_txid: InternalTxId, error: ClTxError) -> (r: TxError)
        ensures
            r.spec_txid() == txid,
            r.spec_internal_txid() == internal_txid,
            r.spec_error() == error,
    {
        TxError { txid, internal_txid, error }
    }

    /// The id of the rejected transaction.
    pub fn txid(&self) -> (r: TxId)
        ensures
            r == self.spec_txid(),
    {
        self.txid
    }

    /// The rejected event's internal sequence number.
    pub fn internal_txid(&self) -> (r: InternalTxId)
        ensures
            r == self.spec_internal_txid(),
    {
        self.internal_txid
    }

    /// Why the event was rejected.
    pub fn error(&self) -> (r: ClTxError)
        ensures
            r == self.spec_error(),
    {
        self.error
    }
}

impl ExternalTx {
    /// Packages a dispatcher rejection of this event for reporting.
    pub fn client_error(&self, error: ClTxError, internal_txid: InternalTxId) -> (r: TxError)
        ensures
            r.spec_txid() == self.txid,
            r.spec_internal_txid() == internal_txid,
            r.spec_error() == error,
    {
        TxError::new(self.txid, internal_txid, error)
    }
}

/// Whether a record with id `id` occurs in `log`.
pub open spec fn has_tx(log: Seq<Tx>, id: TxId) -> bool {
    exists|i: int| 0 <= i < log.len() && log[i].txid == id
}

/// The position of the record with id `id` in `log` (meaningful when
/// `has_tx(log, id)` holds; unique when the log is well formed).
pub open spec fn tx_index(log: Seq<Tx>, id: TxId) -> int {
    choose|i: int| 0 <= i < log.len() && log[i].txid == id
}

/// Transaction ids strictly increase along the log.
pub open spec fn ordered_by_txid(log: Seq<Tx>) -> bool {
    forall|i: int, j: int| 0 <= i < j < log.len() ==> log[i].txid.0 < log[j].txid.0
}

/// Log ordering, one half: what a permitted append stores is found again by
/// id lookup. Extending an ordered log with a record whose id is strictly
/// greater than the last keeps it ordered, and the new id then indexes
/// exactly the appended record.
pub proof fn lemma_push_then_lookup(log: Seq<Tx>, t: Tx)
    requires
        ordered_by_txid(log),
        log.len() == 0 || log.last().txid.0 < t.txid.0,
    ensures
        ordered_by_txid(log.push(t)),
        has_tx(log.push(t), t.txid),
        tx_index(log.push(t), t.txid) == log.len(),
        log.push(t)[tx_index(log.push(t), t.txid)] == t,
{
    let pushed = log.push(t);
    assert forall|i: int, j: int| 0 <= i < j < pushed.len() implies pushed[i].txid.0
        < pushed[j].txid.0 by {
        if j == pushed.len() - 1 && i < log.len() - 1 {
            assert(log[i].txid.0 < log[log.len() - 1].txid.0);
        }
    }
    assert(pushed[log.len() as int].txid == t.txid);
    let w = tx_index(pushed, t.txid);
    assert(pushed[w].txid == t.txid);
    if w < log.len() {
        assert(pushed[w].txid.0 < pushed[log.len() as int].txid.0);
    }
}

/// The append-only transaction log, ordered by strictly increasing
/// transaction id.
pub struct OrderedTxs(Vec<Tx>);

impl Container<Tx> for OrderedTxs {
    closed spec fn elems(&self) -> Seq<Tx> {
        self.0@
    }
}

impl OrderedTxs {
    /// Well-formedness: transaction ids are strictly increasing, so each id
    /// occurs at most once and lookups can binary-search.
    pub open spec fn wf(&self) -> bool {
        ordered_by_txid(self.elems())
    }

    /// The number of stored records.
    pub fn len(&self) -> (n: usize)
        ensures
            n == self.elems().len(),
    {
        self.0.len()
    }

    /// An empty log.
    pub fn new() -> (r: OrderedTxs)
        ensures
            r.elems() =~= Seq::<Tx>::empty(),
            r.wf(),
    {
        OrderedTxs(Vec::new())
    }

    /// In a well-formed log, two positions with the same transaction id are
    /// the same position.
    pub proof fn lemma_unique_txid(&self, i: int, j: int)
        requires
            self.wf(),
            0 <= i < self.elems().len(),
            0 <= j < self.elems().len(),
            self.elems()[i].txid == self.elems()[j].txid,
        ensures
            i == j,
    {
    }

    /// Whether a record with id `txid` may be appended: the log is empty or
    /// its last id is strictly smaller.
    pub fn can_push(&self, txid: &TxId) -> (r: bool)
        ensures
            r == (self.elems().len() == 0 || self.elems().last().txid.0 < txid.0),
    {
        let n = self.0.len();
        n == 0 || self.0[n - 1].txid.0 < txid.0
    }

    /// Appends a record when its id is strictly greater than every id already
    /// stored; otherwise fails, handing the record back, and leaves the log
    /// unchanged.
    pub fn push_ordered(&mut self, client_tx: Tx) -> (r: Result<(), Tx>)
        requires
            old(self).wf(),
        ensures
            final(self).wf(),
            match r {
                Ok(()) => (old(self).elems().len() == 0 || old(self).elems().last().txid.0
                    < client_tx.txid.0) && final(self).elems() == old(self).elems().push(client_tx),
                Err(t) => old(self).elems().len() > 0 && old(self).elems().last().txid.0
                    >= client_tx.txid.0 && t == client_tx && *final(self) == *old(self),
            },
    {
        if self.can_push(&client_tx.txid) {
            let ghost pre = self.elems();
            self.0.push(client_tx);
            proof {
                assert forall|i: int, j: int|
                    0 <= i < j < self.elems().len() implies self.elems()[i].txid.0
                    < self.elems()[j].txid.0 by {
                    if j == self.elems().len() - 1 {
                        if i < pre.len() - 1 {
                            assert(pre[i].txid.0 < pre[pre.len() - 1].txid.0);
                        }
                    }
                }
            }
            Ok(())
        } else {
            Err(client_tx)
        }
    }

    /// Binary search for the position of the record with id `txid`: returns
    /// exactly the matching position, or `None` when no record has that id.
    pub fn find_index(&self, txid: &TxId) -> (r: Option<usize>)
        requires
            self.wf(),
        ensures
            match r {
                Some(i) => i < self.elems().len() && self.elems()[i as int].txid == *txid && has_tx(
                    self.elems(),
                    *txid,
                ) && i == tx_index(self.elems(), *txid),
                None => !has_tx(self.elems(), *txid),
            },
    {
        let mut lo: usize = 0;
        let mut hi: usize = self.0.len();
        while lo < hi
            invariant
                lo <= hi <= self.elems().len(),
                self.wf(),
                forall|k: int| 0 <= k < lo ==> self.elems()[k].txid.0 < txid.0,
                forall|k: int| hi <= k < self.elems().len() ==> self.elems()[k].txid.0 > txid.0,
            decreases hi - lo,
        {
            let mid = lo + (hi - lo) / 2;
            let v = self.0[mid].txid.0;
            if v < txid.0 {
                lo = mid + 1;
            } else if v > txid.0 {
                hi = mid;
            } else {
                proof {
                    assert(self.elems()[mid as int].txid == *txid);
                    let w = tx_index(self.elems(), *txid);
                    assert(self.elems()[w].txid == *txid);
                    self.lemma_unique_txid(mid as int, w);
                }
                return Some(mid);
            }
        }
        None
    }

    /// Read access to the record at position `i`.
    pub fn at(&self, i: usize) -> (r: &Tx)
        requires
            i < self.elems().len(),
        ensures
            *r == self.elems()[i as int],
    {
        &self.0[i]
    }

    /// Exclusive access to the record at position `i`: the log afterwards
    /// equals its old value with position `i` replaced by whatever the caller
    /// wrote through the reference.
    pub fn at_mut(&mut self, i: usize) -> (el: &mut Tx)
        requires
            i < old(self).elems().len(),
        ensures
            *el == old(self).elems()[i as int],
            final(self).elems() == old(self).elems().update(i as int, *final(el)),
    {
        &mut self.0[i]
    }

    /// Looks up the record with id `txid` and downgrades the log-level
    /// capability into a record-level one: on a hit, the caller receives the
    /// upgrader, a live token over the record, and the record's position; on
    /// a miss, the log-level token comes back untouched.
    pub fn get_mut(&self, txid: &TxId, token: Token<OrderedTxs>) -> (r: Result<
        (UpgraderToken<OrderedTxs, Tx>, Token<Tx>, usize),
        Token<OrderedTxs>,
    >)
        requires
            self.wf(),
            token@ == *self,
        ensures
            match r {
                Ok((upper, lower, i)) => {
                    &&& i < self.elems().len()
                    &&& self.elems()[i as int].txid == *txid
                    &&& has_tx(self.elems(), *txid)
                    &&& i == tx_index(self.elems(), *txid)
                    &&& upper.wf()
                    &&& upper.upper() == *self
                    &&& upper.loc() == i
                    &&& upper.lower_at_downgrade() == self.elems()[i as int]
                    &&& lower@ == self.elems()[i as int]
                },
                Err(t) => !has_tx(self.elems(), *txid) && t@ == *self,
            },
    {
        match self.find_index(txid) {
            Some(i) => {
                let (upper, lower) = UpgraderToken::<OrderedTxs, Tx>::new(token, self, i);
                Ok((upper, lower, i))
            },
            None => Err(token),
        }
    }

    /// The record with id `txid`, or `None` when no record has that id.
    pub fn get(&self, txid: &TxId) -> (r: Option<&Tx>)
        requires
            self.wf(),
        ensures
            match r {
                Some(t) => has_tx(self.elems(), *txid) && *t == self.elems()[tx_index(
                    self.elems(),
                    *txid,
                )],
                None => !has_tx(self.elems(), *txid),
            },
    {
        match self.find_index(txid) {
            Some(i) => Some(self.at(i)),
            None => None,
        }
    }

    /// Replacing one record by another with the same transaction id keeps
    /// the log well formed.
    pub proof fn lemma_wf_update_same_txid(&self, i: int, t: Tx)
        requires
            self.wf(),
            0 <= i < self.elems().len(),
            t.txid == self.elems()[i].txid,
        ensures
            forall|k1: int, k2: int|
                0 <= k1 < k2 < self.elems().update(i, t).len() ==> self.elems().update(
                    i,
                    t,
                )[k1].txid.0 < self.elems().update(i, t)[k2].txid.0,
    {
    }
}

impl Upgrade<OrderedTxs, Tx> {
    /// Commits the staged record modification in place inside the log and
    /// folds the record-level capability back into a log-level consumed
    /// token over the updated log.
    pub fn apply(self, txs: &mut OrderedTxs) -> (r: ConsumedToken<OrderedTxs>)
        requires
            self.upgrader().wf(),
            self.spec_loc() == self.upgrader().loc(),
            *old(txs) == self.upgrader().upper(),
            self.lower().token_snap() == self.upgrader().lower_at_downgrade(),
        ensures
            final(txs).elems() == old(txs).elems().update(
                self.upgrader().loc(),
                self.lower().staged(),
            ),
            r@ == *final(txs),
    {
        let (lower, token, loc) = self.into_parts();
        let el = txs.at_mut(loc);
        let consumed = lower.apply(el);
        token.consume(consumed, &*txs)
    }
}

impl<T1> Chain<Prepared<T1>, Upgrade<OrderedTxs, Tx>> {
    /// Joint commit of an entity-level staged modification and a record
    /// modification inside the log: both originals are replaced together,
    /// or — since a `Chain` only exists once both stages have succeeded —
    /// neither is ever replaced alone.
    pub fn apply(self, t1: &mut T1, txs: &mut OrderedTxs) -> (r: ConsumedToken<(T1, OrderedTxs)>)
        requires
            *old(t1) == self.first().token_snap(),
            self.second().upgrader().wf(),
            self.second().spec_loc() == self.second().upgrader().loc(),
            *old(txs) == self.second().upgrader().upper(),
            self.second().lower().token_snap() == self.second().upgrader().lower_at_downgrade(),
        ensures
            *final(t1) == self.first().staged(),
            final(txs).elems() == old(txs).elems().update(
                self.second().upgrader().loc(),
                self.second().lower().staged(),
            ),
            r@ == (*final(t1), *final(txs)),
    {
        let (a1, a2) = self.into_parts();
        let c1 = a1.apply(t1);
        let c2 = a2.apply(txs);
        c1.join(c2)
    }
}

} // verus!
