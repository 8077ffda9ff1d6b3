//! Events of the order-flow stream and their typed projections.
use vstd::prelude::*;
use crate::selector::FunctionSelector;

verus! {

/// A log produced by a transaction.
pub struct EventTransactionLog {
    /// Address of the contract that emitted the log.
    pub address: [u8; 20],
    /// Topics of the log.
    pub topics: Vec<[u8; 32]>,
}

/// A transaction as shared by the event stream.
pub struct EventTransaction {
    /// Recipient address.
    pub to: [u8; 20],
    /// 4-byte function selector.
    pub function_selector: FunctionSelector,
    /// Calldata of the transaction.
    pub calldata: Vec<u8>,
}

/// One decoded event of the stream.
pub struct MatchMakerEvent {
    /// Transaction or bundle hash.
    pub hash: [u8; 32],
    /// Logs emitted by the transaction or bundle.
    pub log: Vec<EventTransactionLog>,
    /// Transactions of the event, possibly none.
    pub transactions: Vec<EventTransaction>,
}

/// A pending transaction: the event's first transaction, if it has one.
pub struct PendingTransaction {
    pub hash: [u8; 32],
    pub logs: Vec<EventTransactionLog>,
    pub to: Option<[u8; 20]>,
    pub function_selector: Option<FunctionSelector>,
    pub calldata: Option<Vec<u8>>,
    /// Reserved; never filled from the stream.
    pub mev_gas_price: Option<[u8; 32]>,
    /// Reserved; never filled from the stream.
    pub gas_used: Option<[u8; 32]>,
}

/// A pending bundle: the event with all its transactions.
pub struct PendingBundle {
    pub hash: [u8; 32],
    pub logs: Vec<EventTransactionLog>,
    pub transactions: Vec<EventTransaction>,
    /// Reserved; never filled from the stream.
    pub mev_gas_price: Option<[u8; 32]>,
    /// Reserved; never filled from the stream.
    pub gas_used: Option<[u8; 32]>,
}

/// What a handler receives.
pub enum PendingTxOrBundle {
    Tx(PendingTransaction),
    Bundle(PendingBundle),
}

/// The kind of projection a dispatcher delivers.
#[derive(Debug, Clone, Copy, PartialEq, Eq, Structural)]
pub enum StreamingEventTypes {
    Transaction,
    Bundle,
}

/// The transaction projection of an event.
pub open spec fn transaction_projection(e: MatchMakerEvent) -> PendingTransaction {
    let first = e.transactions@.len() > 0;
    PendingTransaction {
        hash: e.hash,
        logs: e.log,
        to: if first { Some(e.transactions@[0].to) } else { None },
        function_selector: if first { Some(e.transactions@[0].function_selector) } else { None },
        calldata: if first { Some(e.transactions@[0].calldata) } else { None },
        mev_gas_price: None,
        gas_used: None,
    }
}

/// The bundle projection of an event.
pub open spec fn bundle_projection(e: MatchMakerEvent) -> PendingBundle {
    PendingBundle {
        hash: e.hash,
        logs: e.log,
        transactions: e.transactions,
        mev_gas_price: None,
        gas_used: None,
    }
}

/// The projection of an event for a kind.
pub open spec fn projection(kind: StreamingEventTypes, e: MatchMakerEvent) -> PendingTxOrBundle {
    match kind {
        StreamingEventTypes::Transaction => PendingTxOrBundle::Tx(transaction_projection(e)),
        StreamingEventTypes::Bundle => PendingTxOrBundle::Bundle(bundle_projection(e)),
    }
}

impl PendingTransaction {
    /// Keeps the event's hash and logs and only its first transaction.
    pub fn from_event(event: MatchMakerEvent) -> (r: PendingTransaction)
        ensures
            r == transaction_projection(event),
    {
        let MatchMakerEvent { hash, log, transactions } = event;
        let mut transactions = transactions;
        if transactions.len() > 0 {
            let first = transactions.remove(0);
            let EventTransaction { to, function_selector, calldata } = first;
            PendingTransaction {
                hash,
                logs: log,
                to: Some(to),
                function_selector: Some(function_selector),
                calldata: Some(calldata),
                mev_gas_price: None,
                gas_used: None,
            }
        } else {
            PendingTransaction {
                hash,
                logs: log,
                to: None,
                function_selector: None,
                calldata: None,
                mev_gas_price: None,
                gas_used: None,
            }
        }
    }
}

impl PendingBundle {
    /// Keeps the event's hash, logs and full transaction list.
    pub fn from_event(event: MatchMakerEvent) -> (r: PendingBundle)
        ensures
            r == bundle_projection(event),
    {
        PendingBundle {
            hash: event.hash,
            logs: event.log,
            transactions: event.transactions,
            mev_gas_price: None,
            gas_used: None,
        }
    }
}

/// Projects an event for a kind.
pub fn project(kind: StreamingEventTypes, event: MatchMakerEvent) -> (r: PendingTxOrBundle)
    ensures
        r == projection(kind, event),
{
    match kind {
        StreamingEventTypes::Transaction => PendingTxOrBundle::Tx(PendingTransaction::from_event(event)),
        StreamingEventTypes::Bundle => PendingTxOrBundle::Bundle(PendingBundle::from_event(event)),
    }
}

} // verus!
