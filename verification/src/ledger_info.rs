//! The sandbox's network identity and initial ledger context.

use vstd::prelude::*;

use crate::crypto::{sha256, sha256_of};
use crate::model::LedgerInfo;

verus! {

/// The fixed passphrase naming this sandbox network. Its digest is the
/// 32-byte network id bound into every signing payload.
pub fn network_passphrase() -> (r: &'static str)
    ensures
        r@ == "mars-rover; sandbox environment"@,
{
    "mars-rover; sandbox environment"
}

/// The UTF-8 image of a character string.
pub uninterp spec fn utf8_of(s: Seq<char>) -> Seq<u8>;

/// Relies on str::as_bytes: the UTF-8 image of the string, a function of
/// its characters alone.
#[verifier::external_body]
fn str_to_bytes(s: &str) -> (r: Vec<u8>)
    ensures
        r@ == utf8_of(s@),
{
    s.as_bytes().to_vec()
}

/// The sandbox's network id: the digest of its passphrase.
pub open spec fn initial_network_id() -> Seq<u8> {
    sha256_of(utf8_of("mars-rover; sandbox environment"@))
}

/// Relies on the execution engine's interface-version constant: the ledger
/// protocol version this engine build implements.
#[verifier::external_body]
pub fn engine_protocol_version() -> u32 {
    soroban_env_common::meta::INTERFACE_VERSION.protocol
}

/// The ledger context the sandbox starts from: the network id derived from
/// the passphrase, the engine's protocol version, and fixed starting values
/// for sequence number, timestamp and TTL bounds.
pub fn get_initial_ledger_info() -> (r: LedgerInfo)
    ensures
        r@.network_id == initial_network_id(),
        r@.sequence_number == 1_000_000u32,
        r@.timestamp == 12_345_678u64,
        r@.base_reserve == 5_000_000u32,
        r@.min_temp_entry_ttl == 16u32,
        r@.min_persistent_entry_ttl == 100_000u32,
        r@.max_entry_ttl == 10_000_000u32,
{
    let passphrase_bytes = str_to_bytes(network_passphrase());
    let network_id = sha256(&passphrase_bytes);
    LedgerInfo {
        protocol_version: engine_protocol_version(),
        sequence_number: 1_000_000,
        timestamp: 12_345_678,
        network_id,
        base_reserve: 5_000_000,
        min_temp_entry_ttl: 16,
        min_persistent_entry_ttl: 100_000,
        max_entry_ttl: 10_000_000,
    }
}

} // verus!
