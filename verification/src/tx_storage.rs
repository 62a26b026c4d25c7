//! The transaction record store: an append-only map from a transaction's
//! hex-encoded hash to its final outcome. Re-submitting an envelope with the
//! same content yields the same hash and overwrites the prior record.

use vstd::prelude::*;

use crate::envelope::TransactionEnvelope;
use crate::model::LedgerInfo;

verus! {

/// The recorded outcome of one submission: the envelope, the result — the
/// returned value's wire image, or the failure message —, the events the
/// contracts emitted (as wire images), and a snapshot of the ledger info at
/// execution time. Immutable once inserted.
pub struct TransactionInfo {
    pub envelope: TransactionEnvelope,
    pub result: Result<Vec<u8>, String>,
    pub events: Vec<Vec<u8>>,
    pub ledger_info: LedgerInfo,
}

/// The record store.
pub struct TxStorage {
    storage: vstd::hash_map::StringHashMap<TransactionInfo>,
}

impl View for TxStorage {
    type V = Map<Seq<char>, TransactionInfo>;

    closed spec fn view(&self) -> Map<Seq<char>, TransactionInfo> {
        self.storage@
    }
}

impl TxStorage {
    /// An empty record store.
    pub fn new() -> (r: TxStorage)
        ensures
            r@ == Map::<Seq<char>, TransactionInfo>::empty(),
    {
        TxStorage { storage: vstd::hash_map::StringHashMap::new() }
    }

    /// Records an outcome under a transaction hash, overwriting any prior
    /// record under the same hash.
    pub fn insert(&mut self, tx_hash: String, transaction_info: TransactionInfo)
        ensures
            final(self)@ == old(self)@.insert(tx_hash@, transaction_info),
    {
        self.storage.insert(tx_hash, transaction_info);
    }

    /// Looks a transaction hash up: its record, or nothing when no
    /// submission under that hash was recorded.
    pub fn get(&self, tx_hash: &String) -> (r: Option<&TransactionInfo>)
        ensures
            match r {
                Some(info) => self@.contains_key(tx_hash@) && *info == self@[tx_hash@],
                None => !self@.contains_key(tx_hash@),
            },
    {
        self.storage.get(tx_hash.as_str())
    }
}

} // verus!
