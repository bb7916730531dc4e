//! Dispatcher-level scenarios: single events against prepared state, with
//! the exact accepted values and the exact rejections checked, and the
//! all-or-nothing behaviour of two-entity operations observed directly.

use payment_engine::{
    Amount, ClTxError, Client, ClientId, ExternalTx, InternalTxId, OrderedTxs, Token, Tx, TxId,
    TxType,
};

/// One displayed currency unit, in fixed-point units.
const ONE: u64 = 10_000;

fn event(ty: TxType, client: u16, txid: u32, amount: Option<u64>) -> ExternalTx {
    ExternalTx {
        ty,
        client: ClientId(client),
        txid: TxId(txid),
        amount: amount.map(Amount),
    }
}

fn snapshot(client: u16, available: u64, held: u64, total: u64, locked: bool) -> Client {
    Client {
        id: ClientId(client),
        available: Amount(available),
        held: Amount(held),
        total: Amount(total),
        locked,
    }
}

/// Feeds one event to the dispatcher, mirroring what `run` does per event,
/// and reports the rejection, if any.
fn process(client: &mut Client, txs: &mut OrderedTxs, e: &ExternalTx, seq: u32) -> Option<ClTxError> {
    let token = Token::new(client);
    let txs_token = Token::new(txs);
    match client.try_process_transaction(token, e, txs, txs_token) {
        Ok(_) => {
            if e.ty == TxType::Deposit || e.ty == TxType::Withdrawal {
                txs.push_ordered(Tx::from_external(e, InternalTxId(seq))).unwrap();
            }
            None
        }
        Err((err, _token)) => Some(err),
    }
}

/// Account 1, one deposit of 1.0: available and total are 1.0.
#[test]
fn scenario_single_deposit() {
    let mut client = Client::new(&ClientId(1));
    let mut txs = OrderedTxs::new();
    assert_eq!(process(&mut client, &mut txs, &event(TxType::Deposit, 1, 1, Some(ONE)), 0), None);
    assert_eq!(client, snapshot(1, ONE, 0, ONE, false));
    assert_eq!(txs.len(), 1);
}

/// A withdrawal bigger than the available balance is rejected with the
/// insufficient-funds error, and the fresh account stays all-zero.
#[test]
fn scenario_insufficient_withdrawal() {
    let mut client = Client::new(&ClientId(3));
    let mut txs = OrderedTxs::new();
    let r = process(&mut client, &mut txs, &event(TxType::Withdrawal, 3, 1, Some(5 * ONE)), 0);
    assert_eq!(r, Some(ClTxError::InsufficientFoundsError(Amount(0), Amount(5 * ONE))));
    assert_eq!(client, snapshot(3, 0, 0, 0, false));
    assert_eq!(txs.len(), 0);
}

/// Atomicity, account side failing: a dispute whose account-side transform
/// fails (all deposited money already withdrawn) leaves the record
/// undisputed and the account untouched.
#[test]
fn atomicity_account_side_failure() {
    let mut client = Client::new(&ClientId(2));
    let mut txs = OrderedTxs::new();
    assert_eq!(process(&mut client, &mut txs, &event(TxType::Deposit, 2, 1, Some(ONE)), 0), None);
    assert_eq!(process(&mut client, &mut txs, &event(TxType::Withdrawal, 2, 2, Some(ONE)), 1), None);
    let before = client;
    let r = process(&mut client, &mut txs, &event(TxType::Dispute, 2, 1, None), 2);
    assert_eq!(r, Some(ClTxError::InsufficientFoundsError(Amount(0), Amount(ONE))));
    assert_eq!(client, before);
    assert!(!txs.get(&TxId(1)).unwrap().is_disputed());
}

/// Atomicity, record side failing: a second dispute of the same record fails
/// on the record side (already disputed) even though the account-side
/// transform would succeed, and the account keeps its value.
#[test]
fn atomicity_record_side_failure() {
    let mut client = Client::new(&ClientId(2));
    let mut txs = OrderedTxs::new();
    assert_eq!(process(&mut client, &mut txs, &event(TxType::Deposit, 2, 1, Some(ONE)), 0), None);
    assert_eq!(process(&mut client, &mut txs, &event(TxType::Deposit, 2, 2, Some(ONE)), 1), None);
    assert_eq!(process(&mut client, &mut txs, &event(TxType::Dispute, 2, 1, None), 2), None);
    let before = client;
    assert_eq!(before, snapshot(2, ONE, ONE, 2 * ONE, false));
    let r = process(&mut client, &mut txs, &event(TxType::Dispute, 2, 1, None), 3);
    assert_eq!(r, Some(ClTxError::DisputationOnAlreadyDisputedTxError(TxId(1))));
    assert_eq!(client, before);
    assert!(txs.get(&TxId(1)).unwrap().is_disputed());
}

/// The dispute/resolve state machine observed on the record itself.
#[test]
fn dispute_then_resolve_round_trip() {
    let mut client = Client::new(&ClientId(2));
    let mut txs = OrderedTxs::new();
    assert_eq!(process(&mut client, &mut txs, &event(TxType::Deposit, 2, 1, Some(ONE)), 0), None);
    assert!(!txs.get(&TxId(1)).unwrap().is_disputed());
    assert_eq!(process(&mut client, &mut txs, &event(TxType::Dispute, 2, 1, None), 1), None);
    assert!(txs.get(&TxId(1)).unwrap().is_disputed());
    assert_eq!(process(&mut client, &mut txs, &event(TxType::Resolve, 2, 1, None), 2), None);
    assert!(!txs.get(&TxId(1)).unwrap().is_disputed());
    assert_eq!(client, snapshot(2, ONE, 0, ONE, false));
}

/// Every rejection comes with its exact error value.
#[test]
fn exact_rejections() {
    let mut client = Client::new(&ClientId(2));
    let mut txs = OrderedTxs::new();
    assert_eq!(
        process(&mut client, &mut txs, &event(TxType::Deposit, 2, 1, None), 0),
        Some(ClTxError::MissingAmountError)
    );
    assert_eq!(process(&mut client, &mut txs, &event(TxType::Deposit, 2, 1, Some(ONE)), 1), None);
    assert_eq!(
        process(&mut client, &mut txs, &event(TxType::Dispute, 2, 1, Some(ONE)), 2),
        Some(ClTxError::ExpectingEmptyAmountError(Amount(ONE)))
    );
    assert_eq!(
        process(&mut client, &mut txs, &event(TxType::Dispute, 2, 9, None), 3),
        Some(ClTxError::DisputationOnANotFoundTxIdError(TxId(9)))
    );
    assert_eq!(
        process(&mut client, &mut txs, &event(TxType::Resolve, 2, 9, None), 4),
        Some(ClTxError::ResolvingOnANotFoundTxIdError(TxId(9)))
    );
    assert_eq!(
        process(&mut client, &mut txs, &event(TxType::Chargeback, 2, 9, None), 5),
        Some(ClTxError::ChargebackOnANotFoundTxIdError(TxId(9)))
    );
    // a second deposit, and a dispute of the first, so that `held` is funded
    assert_eq!(process(&mut client, &mut txs, &event(TxType::Deposit, 2, 2, Some(ONE)), 6), None);
    assert_eq!(process(&mut client, &mut txs, &event(TxType::Dispute, 2, 1, None), 7), None);
    assert_eq!(
        process(&mut client, &mut txs, &event(TxType::Resolve, 2, 2, None), 8),
        Some(ClTxError::ResolvingOnNonDisputedTxError(TxId(2)))
    );
    assert_eq!(
        process(&mut client, &mut txs, &event(TxType::Chargeback, 2, 2, None), 9),
        Some(ClTxError::ChargebackOnNonDisputedTxError(TxId(2)))
    );
    // a stored withdrawal cannot be disputed
    assert_eq!(process(&mut client, &mut txs, &event(TxType::Withdrawal, 2, 3, Some(ONE)), 10), None);
    assert_eq!(
        process(&mut client, &mut txs, &event(TxType::Dispute, 2, 3, None), 11),
        Some(ClTxError::DisputationOnNonDepositError(TxId(3)))
    );
    // another account's record cannot be disputed
    assert_eq!(
        {
            let mut other = Client::new(&ClientId(7));
            process(&mut other, &mut txs, &event(TxType::Dispute, 7, 2, None), 12)
        },
        Some(ClTxError::DifferentClientError { incoming: ClientId(7), stored: ClientId(2) })
    );
}

/// A locked account rejects withdrawals with the dedicated error.
#[test]
fn locked_rejection_value() {
    let mut client = Client::new(&ClientId(2));
    let mut txs = OrderedTxs::new();
    assert_eq!(process(&mut client, &mut txs, &event(TxType::Deposit, 2, 1, Some(ONE)), 0), None);
    assert_eq!(process(&mut client, &mut txs, &event(TxType::Dispute, 2, 1, None), 1), None);
    assert_eq!(process(&mut client, &mut txs, &event(TxType::Chargeback, 2, 1, None), 2), None);
    assert_eq!(client, snapshot(2, 0, 0, 0, true));
    assert_eq!(
        process(&mut client, &mut txs, &event(TxType::Withdrawal, 2, 2, Some(1)), 3),
        Some(ClTxError::LockedClientError)
    );
}

/// A deposit that would push a balance past the representable range is
/// rejected and changes nothing.
#[test]
fn overflow_deposit_rejected() {
    let mut client = Client::new(&ClientId(1));
    let mut txs = OrderedTxs::new();
    assert_eq!(
        process(&mut client, &mut txs, &event(TxType::Deposit, 1, 1, Some(u64::MAX)), 0),
        None
    );
    let r = process(&mut client, &mut txs, &event(TxType::Deposit, 1, 2, Some(1)), 1);
    assert_eq!(r, Some(ClTxError::AmountOverflowError(Amount(u64::MAX), Amount(1))));
    assert_eq!(client, snapshot(1, u64::MAX, 0, u64::MAX, false));
}

/// A rejected event reported through `client_error` keeps the identifiers.
#[test]
fn rejection_report_carries_identifiers() {
    let e = event(TxType::Deposit, 2, 8, None);
    let report = e.client_error(ClTxError::MissingAmountError, InternalTxId(41));
    assert_eq!(report.txid(), TxId(8));
    assert_eq!(report.internal_txid(), InternalTxId(41));
    assert_eq!(report.error(), ClTxError::MissingAmountError);
}
