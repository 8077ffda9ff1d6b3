use mev_share_client::dispatch::{DispatchAction, Dispatcher, StreamItem};
use mev_share_client::events::{
    project, EventTransaction, EventTransactionLog, MatchMakerEvent, PendingBundle,
    PendingTransaction, PendingTxOrBundle, StreamingEventTypes,
};
use mev_share_client::selector::FunctionSelector;

fn sample_event(n_txs: usize) -> MatchMakerEvent {
    let mut transactions = Vec::new();
    for i in 0..n_txs {
        transactions.push(EventTransaction {
            to: [i as u8 + 1; 20],
            function_selector: FunctionSelector([0xa9, 0x05, 0x9c, i as u8]),
            calldata: vec![0xca, 0x11, i as u8],
        });
    }
    MatchMakerEvent {
        hash: [0x11; 32],
        log: vec![EventTransactionLog { address: [0x22; 20], topics: vec![[0x33; 32]] }],
        transactions,
    }
}

#[test]
fn transaction_projection_takes_first_transaction() {
    let p = PendingTransaction::from_event(sample_event(2));
    assert_eq!(p.hash, [0x11; 32]);
    assert_eq!(p.logs.len(), 1);
    assert_eq!(p.logs[0].address, [0x22; 20]);
    assert_eq!(p.to, Some([1; 20]));
    assert_eq!(p.function_selector, Some(FunctionSelector([0xa9, 0x05, 0x9c, 0])));
    assert_eq!(p.calldata, Some(vec![0xca, 0x11, 0]));
    assert_eq!(p.mev_gas_price, None);
    assert_eq!(p.gas_used, None);
}

#[test]
fn transaction_projection_of_event_without_transactions() {
    let p = PendingTransaction::from_event(sample_event(0));
    assert_eq!(p.hash, [0x11; 32]);
    assert_eq!(p.logs.len(), 1);
    assert_eq!(p.logs[0].topics, vec![[0x33; 32]]);
    assert_eq!(p.to, None);
    assert_eq!(p.function_selector, None);
    assert_eq!(p.calldata, None);
}

#[test]
fn bundle_projection_keeps_all_transactions_in_order() {
    let b = PendingBundle::from_event(sample_event(3));
    assert_eq!(b.hash, [0x11; 32]);
    assert_eq!(b.transactions.len(), 3);
    for (i, t) in b.transactions.iter().enumerate() {
        assert_eq!(t.to, [i as u8 + 1; 20]);
        assert_eq!(t.calldata, vec![0xca, 0x11, i as u8]);
    }
    assert_eq!(b.gas_used, None);
}

#[test]
fn project_follows_kind() {
    assert!(matches!(project(StreamingEventTypes::Bundle, sample_event(1)), PendingTxOrBundle::Bundle(_)));
    assert!(matches!(project(StreamingEventTypes::Transaction, sample_event(1)), PendingTxOrBundle::Tx(_)));
}

#[test]
fn malformed_message_does_not_stop_the_loop() {
    let mut d = Dispatcher::new(StreamingEventTypes::Transaction);
    assert!(matches!(d.step(StreamItem::Malformed), DispatchAction::Skip));
    assert!(d.is_running());
    match d.step(StreamItem::Event(sample_event(1))) {
        DispatchAction::Deliver(PendingTxOrBundle::Tx(tx)) => {
            assert_eq!(tx.hash, [0x11; 32]);
            assert_eq!(tx.to, Some([1; 20]));
        }
        _ => panic!("the event after a malformed one must be delivered"),
    }
}

#[test]
fn stream_end_stops_the_loop_for_good() {
    let mut d = Dispatcher::new(StreamingEventTypes::Bundle);
    assert_eq!(d.event_kind(), StreamingEventTypes::Bundle);
    assert!(matches!(d.step(StreamItem::Event(sample_event(2))), DispatchAction::Deliver(PendingTxOrBundle::Bundle(_))));
    assert!(matches!(d.step(StreamItem::End), DispatchAction::Stop));
    assert!(!d.is_running());
    assert!(matches!(d.step(StreamItem::Event(sample_event(1))), DispatchAction::Stop));
}

#[test]
fn transport_failure_stops_the_loop() {
    let mut d = Dispatcher::new(StreamingEventTypes::Transaction);
    assert!(matches!(d.step(StreamItem::Failed), DispatchAction::Stop));
    assert!(!d.is_running());
    assert!(matches!(d.step(StreamItem::Malformed), DispatchAction::Stop));
}
