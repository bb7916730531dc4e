//! A small ledger engine: per-account balances maintained from a stream of
//! events (deposit, withdrawal, dispute, resolve, chargeback), built on a
//! capability discipline that makes every multi-entity update all-or-nothing.
//!
//! The `apply` module holds the capability primitives (tokens, staged
//! modifications, the joint-commit combinator, and the container access
//! downgrade/upgrade pair); the `types` module holds the ledger entities and
//! the per-event dispatcher; [`run`] drives a whole event sequence.

pub mod apply;
pub mod types;

pub use apply::{Chain, ConsumedToken, Prepared, TResult, Token, UpgraderToken};
pub use types::client::{self, ClTxError, Client, Clients};
pub use types::tx::{self, ExternalTx, InternalTxId, OrderedTxs, Tx, TxError, TxId, TxType};
pub use types::{Amount, ClientId, RhsSubTooBigError};

use crate::apply::Container;
use crate::types::client::process_tx_spec;
use std::collections::HashMap;
use vstd::prelude::*;

verus! {

broadcast use vstd::std_specs::hash::group_hash_axioms;

/// The internal sequence number that the event at position `i` of the input
/// carries: its position, wrapped to the number's range.
pub open spec fn internal_id_at(i: int) -> InternalTxId {
    InternalTxId((i % 0x1_0000_0000) as u32)
}

/// One step of [`run_spec`]: the account is created on first reference; a
/// deposit or withdrawal whose transaction id is not strictly greater than
/// the last stored one is rejected before it can touch anything; otherwise
/// the event is processed by [`process_tx_spec`], and an accepted deposit or
/// withdrawal is appended to the log. A rejected event changes nothing.
pub open spec fn run_step(
    clients: Map<u16, Client>,
    log: Seq<Tx>,
    e: ExternalTx,
    internal: InternalTxId,
) -> (Map<u16, Client>, Seq<Tx>) {
    let c0 = if clients.contains_key(e.client.0) {
        clients[e.client.0]
    } else {
        Client {
            id: e.client,
            available: Amount(0),
            held: Amount(0),
            total: Amount(0),
            locked: false,
        }
    };
    let storing = e.ty == TxType::Deposit || e.ty == TxType::Withdrawal;
    if storing && !(log.len() == 0 || log.last().txid.0 < e.txid.0) {
        (clients.insert(e.client.0, c0), log)
    } else {
        match process_tx_spec(c0, log, e) {
            Ok(r) => {
                let log1 = if storing {
                    r.1.push(Tx::spec_from_external(e, internal))
                } else {
                    r.1
                };
                (clients.insert(e.client.0, r.0), log1)
            },
            Err(_) => (clients.insert(e.client.0, c0), log),
        }
    }
}

/// The final accounts and transaction log that processing `inputs` in order
/// produces, starting from no accounts and an empty log.
pub open spec fn run_spec(inputs: Seq<ExternalTx>) -> (Map<u16, Client>, Seq<Tx>)
    decreases inputs.len(),
{
    if inputs.len() == 0 {
        (Map::<u16, Client>::empty(), Seq::<Tx>::empty())
    } else {
        let prev = run_spec(inputs.drop_last());
        run_step(prev.0, prev.1, inputs.last(), internal_id_at(inputs.len() - 1))
    }
}

/// Processes a whole event sequence and returns the final account snapshots.
///
/// Accounts are created lazily on first reference. A rejected event changes
/// nothing and the engine moves on to the next one; only accepted deposits
/// and withdrawals are appended to the transaction log.
pub fn run(inputs: Vec<ExternalTx>) -> (clients: Clients)
    ensures
        clients@ == run_spec(inputs@).0,
{
    let mut clients: Clients = HashMap::new();
    let mut txs: OrderedTxs = OrderedTxs::new();
    let mut internal_txid = InternalTxId(0);
    let n: usize = inputs.len();
    let mut k: usize = 0;
    while k < n
        invariant
            n == inputs.len(),
            k <= n,
            txs.wf(),
            clients@ == run_spec(inputs@.take(k as int)).0,
            txs.elems() == run_spec(inputs@.take(k as int)).1,
            internal_txid.0 as int == (k as int) % 0x1_0000_0000,
        decreases n - k,
    {
        let extx = inputs[k];
        let id = extx.client;
        let mut client = if clients.contains_key(&id.0) {
            *clients.get(&id.0).unwrap()
        } else {
            Client::new(&id)
        };
        let storing = extx.ty == TxType::Deposit || extx.ty == TxType::Withdrawal;
        let proceed = if storing {
            txs.can_push(&extx.txid)
        } else {
            true
        };
        if proceed {
            let token = Token::new(&mut client);
            let txs_token = Token::new(&mut txs);
            match client.try_process_transaction(token, &extx, &mut txs, txs_token) {
                Ok(_consumed) => {
                    if storing {
                        let rec = Tx::from_external(&extx, internal_txid);
                        match txs.push_ordered(rec) {
                            Ok(()) => {},
                            Err(_) => {
                                // the order was checked before processing, and
                                // processing a deposit or withdrawal leaves the
                                // log unchanged, so the append cannot fail
                                proof {
                                    assert(false);
                                }
                            },
                        }
                    }
                },
                Err(_rejected) => {},
            }
        }
        clients.insert(id.0, client);
        internal_txid.step();
        k = k + 1;
        proof {
            assert(inputs@.take(k as int).drop_last() =~= inputs@.take(k as int - 1));
            assert(inputs@.take(k as int).last() == inputs@[k as int - 1]);
        }
    }
    proof {
        assert(inputs@.take(n as int) =~= inputs@);
    }
    clients
}

} // verus!

