use meraki_contract::transfer::{BatchStatus, Payee, TransferBatch, TransferOrder};

#[test]
fn empty_batch_is_committed_at_once() {
    let b = TransferBatch::new(vec![]);
    assert_eq!(b.status(), BatchStatus::Committed);
    assert_eq!(b.next_transfer(), None);
}

#[test]
fn batch_hands_out_orders_in_sequence() {
    let o1 = TransferOrder { to: Payee::Platform, amount: 1 };
    let o2 = TransferOrder { to: Payee::Investor, amount: 2 };
    let mut b = TransferBatch::new(vec![o1, o2]);
    assert_eq!(b.next_transfer(), Some(o1));
    b.report(true);
    assert_eq!(b.next_transfer(), Some(o2));
    b.report(true);
    assert_eq!(b.status(), BatchStatus::Committed);
    assert_eq!(b.next_transfer(), None);
    assert_eq!(b.orders().clone(), vec![o1, o2]);
}

#[test]
fn batch_stops_at_first_failure() {
    let o1 = TransferOrder { to: Payee::Platform, amount: 1 };
    let o2 = TransferOrder { to: Payee::Startup, amount: 2 };
    let mut b = TransferBatch::new(vec![o1, o2]);
    b.report(false);
    assert_eq!(b.status(), BatchStatus::Aborted);
    assert_eq!(b.next_transfer(), None);
}
