//! Value types of bundle submission and of the event-history endpoint.
use vstd::prelude::*;
use crate::events::{EventTransaction, EventTransactionLog};

verus! {

/// Smart bundle spec version.
#[derive(Debug, Clone, Copy, PartialEq, Eq, Structural)]
pub enum ProtocolVersion {
    /// Version "v0.1" of the API.
    V1,
}

impl Default for ProtocolVersion {
    fn default() -> (r: ProtocolVersion)
        ensures
            r == ProtocolVersion::V1,
    {
        ProtocolVersion::V1
    }
}

/// Conditions evaluated before the bundle is placed in a block.
pub struct InclusionParams {
    /// Target block number.
    pub block: u64,
    /// Highest block in which the bundle may be included.
    pub max_block: Option<u64>,
}

/// One entry of a bundle body.
pub enum BundleTx {
    /// A transaction already seen on the event stream, by hash.
    TxHash { hash: [u8; 32] },
    /// A new signed transaction.
    Tx {
        /// Bytes of the signed transaction.
        tx: Vec<u8>,
        /// Whether the transaction may revert without invalidating the bundle.
        can_revert: bool,
    },
}

/// Which data of a transaction may be shared with other searchers.
#[derive(Debug, Clone, Copy, PartialEq, Eq, Hash, Structural)]
pub struct HintPreference {
    pub calldata: Option<bool>,
    pub contract_address: Option<bool>,
    pub function_selector: Option<bool>,
    pub logs: Option<bool>,
    pub tx_hash: Option<bool>,
}

/// Bundle privacy parameters.
pub struct PrivacyParams {
    /// Data shared with searchers.
    pub hints: Option<HintPreference>,
    /// Builders allowed to receive the bundle.
    pub builders: Vec<String>,
}

/// A refund condition.
#[derive(Debug, Clone, Copy, PartialEq, Eq, Structural)]
pub struct Refund {
    /// Index of the body entry the refund applies to.
    pub body_idx: usize,
    /// Minimum refund percentage.
    pub percent: u32,
}

/// How a refund is paid.
pub struct RefundConfig {
    /// Recipient of this part of the refund.
    pub address: String,
    /// Percentage paid to `address`.
    pub percent: u32,
}

/// Conditions evaluated after the bundle is placed in a block.
pub struct ValidityParams {
    pub refund: Option<Vec<Refund>>,
    pub refund_config: Option<Vec<RefundConfig>>,
}

/// Parameters of `mev_sendBundle`.
pub struct Bundle {
    pub version: ProtocolVersion,
    pub inclusion: InclusionParams,
    /// Ordered entries; the order is the execution order.
    pub body: Vec<BundleTx>,
    pub validity: Option<ValidityParams>,
    pub privacy: Option<PrivacyParams>,
}

/// Why a bundle is not sent.
#[derive(Debug, Clone, Copy, PartialEq, Eq, Structural)]
pub enum BundleError {
    /// The body holds no transaction.
    EmptyBody,
}

impl Bundle {
    /// A bundle is sent only with at least one body entry; the order of the
    /// entries is kept as given.
    pub fn validate(&self) -> (r: Result<(), BundleError>)
        ensures
            r is Err <==> self.body@.len() == 0,
            r is Err ==> r == Err::<(), BundleError>(BundleError::EmptyBody),
    {
        if self.body.len() == 0 {
            Err(BundleError::EmptyBody)
        } else {
            Ok(())
        }
    }
}

/// Response of the relay to `mev_sendBundle`.
pub struct SendBundleResponse {
    pub bundle_hash: String,
}

/// Details of a submitted bundle.
pub struct SendBundleResult {
    pub bundle_hash: String,
}

impl SendBundleResult {
    /// The result carried by a relay response.
    pub fn from_response(response: &SendBundleResponse) -> (r: SendBundleResult)
        ensures
            r.bundle_hash@ == response.bundle_hash@,
    {
        SendBundleResult { bundle_hash: response.bundle_hash.clone() }
    }
}

/// Options of a private transaction submission.
pub struct TransactionOptions {
    pub hints: Option<HintPreference>,
    pub max_block_number: Option<u64>,
    pub builders: Option<Vec<String>>,
}

/// Data about the event history endpoint.
#[derive(Debug, Clone, Copy, PartialEq, Eq, Hash, Structural)]
pub struct EventHistoryInfo {
    pub count: u64,
    pub min_block: u64,
    pub max_block: u64,
    pub min_timestamp: u64,
    pub max_timestamp: u64,
    pub max_limit: u64,
}

/// A hint of a historic event.
pub struct Hint {
    pub txs: Vec<EventTransaction>,
    pub hash: [u8; 32],
    pub logs: Vec<EventTransactionLog>,
    pub gas_used: Option<[u8; 32]>,
    pub mev_gas_price: Option<[u8; 32]>,
}

/// One event of the history endpoint.
pub struct EventHistory {
    /// Block number of the event's block.
    pub block: u64,
    /// When the event was emitted.
    pub timestamp: u64,
    pub hint: Hint,
}

/// Query parameters of the history endpoint; unset ones are left out.
#[derive(Debug, Clone, Copy, PartialEq, Eq, Hash, Structural)]
pub struct EventHistoryParams {
    pub block_start: Option<u64>,
    pub block_end: Option<u64>,
    pub timestamp_start: Option<u64>,
    pub timestamp_end: Option<u64>,
    pub limit: Option<u64>,
    pub offset: Option<u64>,
}

impl Default for EventHistoryParams {
    fn default() -> (r: EventHistoryParams)
        ensures
            r.block_start is None,
            r.block_end is None,
            r.timestamp_start is None,
            r.timestamp_end is None,
            r.limit is None,
            r.offset is None,
    {
        EventHistoryParams {
            block_start: None,
            block_end: None,
            timestamp_start: None,
            timestamp_end: None,
            limit: None,
            offset: None,
        }
    }
}

impl EventHistoryParams {
    pub fn with_block_start(self, block_start: u64) -> (r: EventHistoryParams)
        ensures
            r == (EventHistoryParams { block_start: Some(block_start), ..self }),
    {
        EventHistoryParams { block_start: Some(block_start), ..self }
    }

    pub fn with_block_end(self, block_end: u64) -> (r: EventHistoryParams)
        ensures
            r == (EventHistoryParams { block_end: Some(block_end), ..self }),
    {
        EventHistoryParams { block_end: Some(block_end), ..self }
    }

    pub fn with_block_range(self, block_start: u64, block_end: u64) -> (r: EventHistoryParams)
        ensures
            r == (EventHistoryParams {
                block_start: Some(block_start),
                block_end: Some(block_end),
                ..self
            }),
    {
        EventHistoryParams { block_start: Some(block_start), block_end: Some(block_end), ..self }
    }

    pub fn with_timestamp_start(self, timestamp_start: u64) -> (r: EventHistoryParams)
        ensures
            r == (EventHistoryParams { timestamp_start: Some(timestamp_start), ..self }),
    {
        EventHistoryParams { timestamp_start: Some(timestamp_start), ..self }
    }

    pub fn with_timestamp_end(self, timestamp_end: u64) -> (r: EventHistoryParams)
        ensures
            r == (EventHistoryParams { timestamp_end: Some(timestamp_end), ..self }),
    {
        EventHistoryParams { timestamp_end: Some(timestamp_end), ..self }
    }

    pub fn with_timestamp_range(self, timestamp_start: u64, timestamp_end: u64) -> (r:
        EventHistoryParams)
        ensures
            r == (EventHistoryParams {
                timestamp_start: Some(timestamp_start),
                timestamp_end: Some(timestamp_end),
                ..self
            }),
    {
        EventHistoryParams {
            timestamp_start: Some(timestamp_start),
            timestamp_end: Some(timestamp_end),
            ..self
        }
    }

    pub fn with_limit(self, limit: u64) -> (r: EventHistoryParams)
        ensures
            r == (EventHistoryParams { limit: Some(limit), ..self }),
    {
        EventHistoryParams { limit: Some(limit), ..self }
    }

    pub fn with_offset(self, offset: u64) -> (r: EventHistoryParams)
        ensures
            r == (EventHistoryParams { offset: Some(offset), ..self }),
    {
        EventHistoryParams { offset: Some(offset), ..self }
    }
}

} // verus!
