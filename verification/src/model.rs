//! Plain data model of the ledger: durability classes, ledger info, and the
//! response types of the sandbox's query surface.

use vstd::prelude::*;

verus! {

/// Durability class of a contract-data entry. Temporary entries may be
/// evicted as soon as their TTL expires; persistent entries can be restored
/// from archival.
#[derive(Clone, Copy, Debug, PartialEq, Eq, Structural)]
pub enum Durability {
    Temporary,
    Persistent,
}

/// Process-wide ledger context: protocol version, current sequence number and
/// timestamp, the network id every signing payload is bound to, and the TTL
/// bounds used for evictable entries.
#[derive(Debug)]
pub struct LedgerInfo {
    pub protocol_version: u32,
    pub sequence_number: u32,
    pub timestamp: u64,
    pub network_id: Vec<u8>,
    pub base_reserve: u32,
    pub min_temp_entry_ttl: u32,
    pub min_persistent_entry_ttl: u32,
    pub max_entry_ttl: u32,
}

/// Mathematical view of [`LedgerInfo`].
#[verifier::ext_equal]
pub struct LedgerInfoV {
    pub protocol_version: u32,
    pub sequence_number: u32,
    pub timestamp: u64,
    pub network_id: Seq<u8>,
    pub base_reserve: u32,
    pub min_temp_entry_ttl: u32,
    pub min_persistent_entry_ttl: u32,
    pub max_entry_ttl: u32,
}

impl View for LedgerInfo {
    type V = LedgerInfoV;

    open spec fn view(&self) -> LedgerInfoV {
        LedgerInfoV {
            protocol_version: self.protocol_version,
            sequence_number: self.sequence_number,
            timestamp: self.timestamp,
            network_id: self.network_id@,
            base_reserve: self.base_reserve,
            min_temp_entry_ttl: self.min_temp_entry_ttl,
            min_persistent_entry_ttl: self.min_persistent_entry_ttl,
            max_entry_ttl: self.max_entry_ttl,
        }
    }
}

impl LedgerInfo {
    /// An owned copy of this ledger info.
    pub fn duplicate(&self) -> (r: LedgerInfo)
        ensures
            r@ == self@,
    {
        LedgerInfo {
            protocol_version: self.protocol_version,
            sequence_number: self.sequence_number,
            timestamp: self.timestamp,
            network_id: crate::entry::clone_bytes(&self.network_id),
            base_reserve: self.base_reserve,
            min_temp_entry_ttl: self.min_temp_entry_ttl,
            min_persistent_entry_ttl: self.min_persistent_entry_ttl,
            max_entry_ttl: self.max_entry_ttl,
        }
    }
}

/// Status reported when a transaction is submitted.
#[derive(Clone, Copy, Debug, PartialEq, Eq, Structural)]
pub enum SendTransactionStatus {
    Pending,
    Duplicate,
    TryAgainLater,
    Error,
}

/// Status of a transaction looked up by hash.
#[derive(Clone, Copy, Debug, PartialEq, Eq, Structural)]
pub enum GetTransactionStatus {
    Success,
    NotFound,
    Failed,
}

/// The sandbox's identity, as reported to callers.
#[derive(Debug, PartialEq, Eq)]
pub struct NetworkInfo {
    pub passphrase: String,
    pub protocol_version: u32,
}

/// A ledger entry found by a contract-data query: its key and payload as
/// base64 wire images, and its bookkeeping.
#[derive(Debug, PartialEq, Eq)]
pub struct LedgerEntryResult {
    pub last_modified_ledger_seq: Option<u32>,
    pub key: String,
    pub val: String,
    pub live_until_ledger_seq: Option<u32>,
}

/// The fields every submission response carries.
#[derive(Debug, PartialEq, Eq)]
pub struct BaseSendTransactionResponse {
    pub status: SendTransactionStatus,
    pub hash: String,
    pub latest_ledger: u32,
    pub latest_ledger_close_time: u64,
}

/// The response to a submission: on a logical failure of the call it also
/// carries the failed transaction result's base64 wire image and the
/// diagnostic events' wire images.
#[derive(Debug, PartialEq, Eq)]
pub struct SendTransactionResponse {
    pub base: BaseSendTransactionResponse,
    pub error_result: Option<String>,
    pub diagnostic_events: Option<Vec<Vec<u8>>>,
}

/// The lookup response for a hash no submission was recorded under.
#[derive(Debug, PartialEq, Eq)]
pub struct GetMissingTransactionResponse {
    pub tx_hash: String,
    pub latest_ledger: u32,
    pub latest_ledger_close_time: u64,
    pub oldest_ledger: u32,
    pub oldest_ledger_close_time: u64,
}

/// The events attached to a transaction lookup response.
#[derive(Debug, PartialEq, Eq)]
pub struct TransactionEvents {
    pub transaction_events_xdr: Vec<Vec<u8>>,
    pub contract_events_xdr: Vec<Vec<Vec<u8>>>,
}

/// The lookup response for a recorded, failed submission.
#[derive(Debug, PartialEq, Eq)]
pub struct GetFailedTransactionResponse {
    pub tx_hash: String,
    pub latest_ledger: u32,
    pub latest_ledger_close_time: u64,
    pub oldest_ledger: u32,
    pub oldest_ledger_close_time: u64,
    pub ledger: u32,
    pub created_at: u64,
    pub application_order: u32,
    pub fee_bump: bool,
    pub envelope_xdr: String,
    pub result_xdr: String,
    pub result_meta_xdr: String,
    pub diagnostic_events_xdr: Option<Vec<Vec<u8>>>,
    pub events: TransactionEvents,
}

/// The lookup response for a recorded, successful submission.
#[derive(Debug, PartialEq, Eq)]
pub struct GetSuccessfulTransactionResponse {
    pub tx_hash: String,
    pub latest_ledger: u32,
    pub latest_ledger_close_time: u64,
    pub oldest_ledger: u32,
    pub oldest_ledger_close_time: u64,
    pub ledger: u32,
    pub created_at: u64,
    pub application_order: u32,
    pub fee_bump: bool,
    pub envelope_xdr: String,
    pub result_xdr: String,
    pub result_meta_xdr: String,
    pub diagnostic_events_xdr: Option<Vec<Vec<u8>>>,
    pub return_value: Option<Vec<u8>>,
    pub events: TransactionEvents,
}

/// The response to a lookup by transaction hash.
#[derive(Debug, PartialEq, Eq)]
pub enum GetTransactionResponse {
    NotFound(GetMissingTransactionResponse),
    Failed(GetFailedTransactionResponse),
    Success(GetSuccessfulTransactionResponse),
}

/// How one simulated diff changes an entry.
#[derive(Clone, Copy, Debug, PartialEq, Eq, Structural)]
pub enum ChangeKind {
    Updated,
    Removed,
}

/// One predicted state change from a simulation: the entry's key image and
/// its wire images before and after. Informational only — never applied.
#[derive(Debug, PartialEq, Eq)]
pub struct LedgerEntryChange {
    pub change_type: ChangeKind,
    pub key: Vec<u8>,
    pub before: Option<Vec<u8>>,
    pub after: Option<Vec<u8>>,
}

/// The invoke result of a successful simulation: the inferred authorization
/// entries and the returned value, as base64 wire images.
#[derive(Debug, PartialEq, Eq)]
pub struct SimulateHostFunctionResult {
    pub auth: Vec<String>,
    pub retval: String,
}

/// The response to a successful simulation.
#[derive(Debug, PartialEq, Eq)]
pub struct SimulateTransactionSuccessResponse {
    pub id: String,
    pub latest_ledger: u32,
    pub events: Vec<Vec<u8>>,
    pub parsed: bool,
    pub transaction_data: String,
    pub min_resource_fee: String,
    pub result: Option<SimulateHostFunctionResult>,
    pub state_changes: Option<Vec<LedgerEntryChange>>,
}

/// The response to a simulation the engine reported as failed.
#[derive(Debug, PartialEq, Eq)]
pub struct SimulateTransactionErrorResponse {
    pub id: String,
    pub latest_ledger: u32,
    pub events: Vec<Vec<u8>>,
    pub parsed: bool,
    pub error: String,
}

/// The response to a simulation request.
#[derive(Debug, PartialEq, Eq)]
pub enum SimulateTransactionResponse {
    Success(SimulateTransactionSuccessResponse),
    Error(SimulateTransactionErrorResponse),
}

/// One entry diff reported by the simulation engine, as the adapter hands
/// it over: the entry's key image and its wire images before and after the
/// speculative execution.
#[derive(Debug, PartialEq, Eq)]
pub struct EntryDiff {
    pub key: Vec<u8>,
    pub before: Option<Vec<u8>>,
    pub after: Option<Vec<u8>>,
}

/// What a simulation produced, as the adapter hands it over: the invoke
/// outcome, the diagnostic events' wire images, and — on success — the
/// inferred authorization, resources and predicted diffs.
#[derive(Debug)]
pub struct SimulationOutcome {
    pub ok: bool,
    pub error: String,
    pub retval_xdr: String,
    pub auth_xdr: Vec<String>,
    pub events: Vec<Vec<u8>>,
    pub transaction_data_xdr: String,
    pub min_resource_fee: String,
    pub diffs: Vec<EntryDiff>,
}

} // verus!
