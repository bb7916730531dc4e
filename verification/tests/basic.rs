//! End-to-end runs over whole event sequences, checked against the expected
//! final snapshot of each account.

use payment_engine::{run, Amount, Client, ClientId, ExternalTx, TxId, TxType};

/// One displayed currency unit, in fixed-point units.
const ONE: u64 = 10_000;

fn event(ty: TxType, client: u16, txid: u32, amount: Option<u64>) -> ExternalTx {
    ExternalTx {
        ty,
        client: ClientId(client),
        txid: TxId(txid),
        amount: amount.map(Amount),
    }
}

fn snapshot(client: u16, available: u64, held: u64, total: u64, locked: bool) -> Client {
    Client {
        id: ClientId(client),
        available: Amount(available),
        held: Amount(held),
        total: Amount(total),
        locked,
    }
}

#[test]
fn basic_empty() {
    let clients = run(vec![]);
    assert!(clients.is_empty());
}

#[test]
fn basic_deposits() {
    let clients = run(vec![
        event(TxType::Deposit, 1, 1, Some(ONE)),
        event(TxType::Deposit, 2, 2, Some(ONE)),
        event(TxType::Deposit, 3, 3, Some(ONE)),
        event(TxType::Deposit, 3, 4, Some(ONE)),
    ]);
    assert_eq!(clients.len(), 3);
    assert_eq!(clients[&1], snapshot(1, ONE, 0, ONE, false));
    assert_eq!(clients[&2], snapshot(2, ONE, 0, ONE, false));
    assert_eq!(clients[&3], snapshot(3, 2 * ONE, 0, 2 * ONE, false));
}

#[test]
fn basic_withdrawal() {
    let clients = run(vec![
        event(TxType::Deposit, 2, 1, Some(2 * ONE)),
        event(TxType::Withdrawal, 2, 2, Some(2 * ONE)),
    ]);
    assert_eq!(clients.len(), 1);
    assert_eq!(clients[&2], snapshot(2, 0, 0, 0, false));
}

#[test]
fn basic_dispute() {
    let clients = run(vec![
        event(TxType::Deposit, 2, 1, Some(ONE)),
        event(TxType::Dispute, 2, 1, None),
    ]);
    assert_eq!(clients.len(), 1);
    assert_eq!(clients[&2], snapshot(2, 0, ONE, ONE, false));
}

#[test]
fn basic_resolving() {
    let clients = run(vec![
        event(TxType::Deposit, 2, 1, Some(ONE)),
        event(TxType::Dispute, 2, 1, None),
        event(TxType::Resolve, 2, 1, None),
    ]);
    assert_eq!(clients.len(), 1);
    assert_eq!(clients[&2], snapshot(2, ONE, 0, ONE, false));
}

#[test]
fn basic_chargeback() {
    let clients = run(vec![
        event(TxType::Deposit, 2, 1, Some(ONE)),
        event(TxType::Dispute, 2, 1, None),
        event(TxType::Chargeback, 2, 1, None),
    ]);
    assert_eq!(clients.len(), 1);
    assert_eq!(clients[&2], snapshot(2, 0, 0, 0, true));
}

#[test]
fn withdrawal_without_deposit_is_rejected() {
    let clients = run(vec![event(TxType::Withdrawal, 3, 1, Some(5 * ONE))]);
    assert_eq!(clients.len(), 1);
    assert_eq!(clients[&3], snapshot(3, 0, 0, 0, false));
}

#[test]
fn locked_account_rejects_withdrawal_but_accepts_deposit() {
    let clients = run(vec![
        event(TxType::Deposit, 2, 1, Some(ONE)),
        event(TxType::Dispute, 2, 1, None),
        event(TxType::Chargeback, 2, 1, None),
        event(TxType::Deposit, 2, 2, Some(ONE)),
        event(TxType::Withdrawal, 2, 3, Some(ONE)),
    ]);
    assert_eq!(clients[&2], snapshot(2, ONE, 0, ONE, true));
}

#[test]
fn out_of_order_deposit_is_rejected() {
    let clients = run(vec![
        event(TxType::Deposit, 1, 5, Some(ONE)),
        event(TxType::Deposit, 1, 3, Some(ONE)),
        event(TxType::Deposit, 1, 5, Some(ONE)),
        event(TxType::Deposit, 1, 6, Some(ONE)),
    ]);
    assert_eq!(clients[&1], snapshot(1, 2 * ONE, 0, 2 * ONE, false));
}

#[test]
fn dispute_on_other_client_is_rejected() {
    let clients = run(vec![
        event(TxType::Deposit, 1, 1, Some(ONE)),
        event(TxType::Dispute, 2, 1, None),
    ]);
    assert_eq!(clients[&1], snapshot(1, ONE, 0, ONE, false));
    assert_eq!(clients[&2], snapshot(2, 0, 0, 0, false));
}
