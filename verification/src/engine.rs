//! The boundary to the contract execution engine.
//!
//! Everything here is trusted: declarations that let the engine's types
//! appear in signatures, and wrappers that each hold one call into the
//! engine or its wire-schema codec. The sandbox's own logic — which entries
//! to hand the engine, which modules to compile ahead, and how to apply what
//! comes back — lives in the executor and is verified against these
//! contracts.
//!
//! The wire decoders are deterministic functions of the image alone, so
//! each is given a name; the module cache's contents are likewise named, so
//! that the executor's cache-building logic can be specified exactly.

use vstd::prelude::*;

use soroban_env_host::budget::Budget;
use soroban_env_host::e2e_invoke::TtlLedgerEntryMeta;
use soroban_env_host::xdr::LedgerEntry as XdrLedgerEntry;
use soroban_env_host::xdr::LedgerEntryData as XdrData;
use soroban_env_host::xdr::{
    ContractCostParamEntry, ContractCostParams, ContractDataDurability, ExtensionPoint, Limits,
    PublicKey, ReadXdr, WriteXdr,
};
use soroban_env_host::{Host, ModuleCache};

use crate::entry::AccountEntry;

verus! {

#[verifier::external_type_specification]
#[verifier::external_body]
/// The engine's execution cost budget.
pub struct ExBudget(Budget);

#[verifier::external_type_specification]
#[verifier::external_body]
/// The engine's cache of pre-compiled contract modules.
pub struct ExModuleCache(ModuleCache);

/// The identities of the contract modules a cache holds.
pub uninterp spec fn cached_modules(cache: ModuleCache) -> Set<Seq<u8>>;

/// Relies on `Budget::try_from_configs`: an execution budget with unbounded
/// instruction and memory limits and the given (constant, linear) cost model
/// terms per cost type.
#[verifier::external_body]
pub fn make_budget(cpu: &Vec<(i64, i64)>, mem: &Vec<(i64, i64)>) -> (r: Option<Budget>) {
    let entry = |&(c, l): &(i64, i64)| ContractCostParamEntry {
        ext: ExtensionPoint::V0,
        const_term: c,
        linear_term: l,
    };
    let cpu_params = ContractCostParams(cpu.iter().map(entry).collect::<Vec<_>>().try_into().ok()?);
    let mem_params = ContractCostParams(mem.iter().map(entry).collect::<Vec<_>>().try_into().ok()?);
    Budget::try_from_configs(u64::MAX, u64::MAX, cpu_params, mem_params).ok()
}

/// Relies on `ModuleCache::new`, with a fresh default host as its
/// compilation context. A fresh cache holds no modules.
#[verifier::external_body]
pub fn new_module_cache() -> (r: Option<ModuleCache>)
    ensures
        r matches Some(cache) ==> cached_modules(cache) == Set::<Seq<u8>>::empty(),
{
    ModuleCache::new(&Host::default()).ok()
}

/// Relies on `ModuleCache::parse_and_cache_module`: pre-parses one contract
/// module under the given identity, with a fresh default host as its
/// compilation context. On acceptance the identity is cached — caching an
/// already-cached identity is a no-op in the engine, which the set insert
/// mirrors; on refusal (a malformed identity or module) the cache is
/// unchanged.
#[verifier::external_body]
pub fn cache_module(cache: &mut ModuleCache, protocol: u32, contract_id: &Vec<u8>, code: &Vec<
    u8,
>) -> (r: bool)
    ensures
        r ==> cached_modules(*final(cache)) == cached_modules(*old(cache)).insert(contract_id@),
        !r ==> cached_modules(*final(cache)) == cached_modules(*old(cache)),
{
    let id: [u8; 32] = match contract_id.as_slice().try_into() {
        Ok(a) => a,
        Err(_) => return false,
    };
    let inputs = soroban_env_host::vm::VersionedContractCodeCostInputs::V0 {
        wasm_bytes: code.len(),
    };
    let hash = soroban_env_host::xdr::Hash(id);
    cache.parse_and_cache_module(&Host::default(), protocol, &hash, code.as_slice(), inputs).is_ok()
}

#[verifier::external_type_specification]
#[verifier::external_body]
/// What one engine invocation returns: the invoke result, the ledger
/// changes, and the emitted contract events.
pub struct ExInvokeResult(soroban_env_host::e2e_invoke::InvokeHostFunctionResult);

#[verifier::external_type_specification]
#[verifier::external_body]
/// The TTL metadata the engine takes alongside an evictable entry.
pub struct ExTtlMeta(TtlLedgerEntryMeta);

/// What one engine invocation returned. The field is private: every value
/// of this type was handed over by [`run_engine`], so a contract stated on
/// it speaks only of what the engine produced.
pub struct EngineOutcome {
    raw: soroban_env_host::e2e_invoke::InvokeHostFunctionResult,
}

/// Relies on the `TtlLedgerEntryMeta` structure: moves the two fields over.
#[verifier::external_body]
pub fn ttl_meta(live_until_ledger: u32, entry_size_for_rent: u32) -> (r: TtlLedgerEntryMeta) {
    TtlLedgerEntryMeta { live_until_ledger, entry_size_for_rent }
}

/// Relies on `e2e_invoke::invoke_host_function`: runs one host function on
/// a fresh host over the given wire-encoded inputs, under the given ledger
/// context. `entries` holds one item per footprint key, read-only keys
/// first, in declaration order; an absent entry is `None`. Diagnostics are
/// enabled; the engine's diagnostic event stream is discarded. Returns
/// nothing when the ledger context's network id is not 32 bytes or the
/// engine itself fails (budget exhaustion or malformed input); a failure of
/// the contract call itself is inside the returned outcome.
#[verifier::external_body]
pub fn run_engine(
    budget: &Budget,
    encoded_host_fn: Vec<u8>,
    encoded_resources: Vec<u8>,
    restored_indices: &Vec<u32>,
    encoded_source_account: Vec<u8>,
    encoded_auth_entries: Vec<Vec<u8>>,
    info: &crate::model::LedgerInfo,
    entries: Vec<(Option<Vec<u8>>, Option<TtlLedgerEntryMeta>)>,
    seed: Vec<u8>,
    module_cache: Option<ModuleCache>,
) -> (r: Option<EngineOutcome>) {
    let network_id: [u8; 32] = info.network_id.as_slice().try_into().ok()?;
    let engine_info = soroban_env_host::LedgerInfo { protocol_version: info.protocol_version,
        sequence_number: info.sequence_number, timestamp: info.timestamp, network_id,
        base_reserve: info.base_reserve, min_temp_entry_ttl: info.min_temp_entry_ttl,
        min_persistent_entry_ttl: info.min_persistent_entry_ttl,
        max_entry_ttl: info.max_entry_ttl };
    let raw = soroban_env_host::e2e_invoke::invoke_host_function(budget, true, encoded_host_fn,
        encoded_resources, restored_indices.as_slice(), encoded_source_account,
        encoded_auth_entries.into_iter(), engine_info, entries.into_iter(), seed,
        &mut Vec::new(), None, module_cache).ok()?;
    Some(EngineOutcome { raw })
}

/// Relies on the fields of `InvokeHostFunctionResult`: splits an engine
/// outcome into the invoke result (the returned value's wire image, or the
/// failure rendered as text), the ledger changes — each as (read-only, key
/// image, new entry image, new live-until ledger) — and the emitted
/// contract events' wire images. As the engine's source returns, the
/// changes and events are empty when the invocation failed; the outcome
/// type is constructible only by [`run_engine`], so the clause holds of
/// every value it can be applied to.
#[verifier::external_body]
pub fn engine_parts(outcome: EngineOutcome) -> (parts: (
    Result<Vec<u8>, String>,
    Vec<(bool, Vec<u8>, Option<Vec<u8>>, Option<u32>)>,
    Vec<Vec<u8>>,
))
    ensures
        parts.0 is Err ==> parts.1@.len() == 0 && parts.2@.len() == 0,
{
    let raw = outcome.raw;
    let result = match raw.encoded_invoke_result {
        Ok(v) => Ok(v),
        Err(e) => Err(format!("{:?}", e)),
    };
    let changes = raw.ledger_changes.into_iter().map(|c| (c.read_only, c.encoded_key,
        c.encoded_new_value, c.ttl_change.map(|t| t.new_live_until_ledger))).collect();
    (result, changes, raw.encoded_contract_events)
}

/// The last-modified ledger sequence an entry image decodes to, when it
/// decodes.
pub uninterp spec fn entry_last_modified_of(bytes: Seq<u8>) -> Option<u32>;

/// Relies on the wire schema's `LedgerEntry` decoder: the entry's
/// last-modified ledger sequence, or nothing when the bytes are not a
/// ledger entry. A function of the image alone.
#[verifier::external_body]
pub fn entry_last_modified(bytes: &Vec<u8>) -> (r: Option<u32>)
    ensures
        match r {
            Some(v) => entry_last_modified_of(bytes@) == Some(v),
            None => entry_last_modified_of(bytes@) is None,
        },
{
    let entry: XdrLedgerEntry = ReadXdr::from_xdr(bytes.as_slice(), Limits::none()).ok()?;
    Some(entry.last_modified_ledger_seq)
}

/// The account an entry image decodes to, when it decodes to an account
/// entry: master key, balance, sequence number, and the signers in order,
/// non-Ed25519 signer kinds kept opaque.
pub uninterp spec fn account_entry_of(bytes: Seq<u8>) -> Option<crate::entry::AccountEntryV>;

/// Relies on the wire schema's `LedgerEntry` decoder, reading the account
/// variant into the sandbox's account model. A function of the image alone.
#[verifier::external_body]
pub fn as_account_entry(bytes: &Vec<u8>) -> (r: Option<AccountEntry>)
    ensures
        match r {
            Some(a) => account_entry_of(bytes@) == Some(a@),
            None => account_entry_of(bytes@) is None,
        },
{
    let entry: XdrLedgerEntry = ReadXdr::from_xdr(bytes.as_slice(), Limits::none()).ok()?;
    let XdrData::Account(a) = &entry.data else { return None };
    let PublicKey::PublicKeyTypeEd25519(master) = &a.account_id.0;
    let signers = a.signers.iter().map(|s| crate::entry::Signer {
        key: match &s.key {
            soroban_env_host::xdr::SignerKey::Ed25519(k) => crate::entry::SignerKey::Ed25519(
                k.0.to_vec(),
            ),
            _ => crate::entry::SignerKey::Other,
        },
        weight: s.weight,
    }).collect();
    Some(AccountEntry { account_id: master.0.to_vec(), balance: a.balance, seq_num: a.seq_num.0,
        signers })
}

/// The (declared hash, code bytes) an entry image decodes to, when it
/// decodes to a contract-code entry.
pub uninterp spec fn code_entry_of(bytes: Seq<u8>) -> Option<(Seq<u8>, Seq<u8>)>;

/// Relies on the wire schema's `LedgerEntry` decoder, reading the
/// contract-code variant. A function of the image alone.
#[verifier::external_body]
pub fn as_contract_code_entry(bytes: &Vec<u8>) -> (r: Option<(Vec<u8>, Vec<u8>)>)
    ensures
        match r {
            Some(t) => code_entry_of(bytes@) == Some((t.0@, t.1@)),
            None => code_entry_of(bytes@) is None,
        },
{
    let entry: XdrLedgerEntry = ReadXdr::from_xdr(bytes.as_slice(), Limits::none()).ok()?;
    let XdrData::ContractCode(c) = &entry.data else { return None };
    Some((c.hash.0.to_vec(), c.code.to_vec()))
}

/// The (contract address image, key image, durability tag — 0 temporary, 1
/// persistent —, value image) an entry image decodes to, when it decodes to
/// a contract-data entry.
pub uninterp spec fn data_entry_of(bytes: Seq<u8>) -> Option<(Seq<u8>, Seq<u8>, u32, Seq<u8>)>;

/// Relies on the wire schema's `LedgerEntry` decoder and the encoders for
/// the contract-data variant's parts. A function of the image alone.
#[verifier::external_body]
pub fn as_contract_data_entry(bytes: &Vec<u8>) -> (r: Option<(Vec<u8>, Vec<u8>, u32, Vec<u8>)>)
    ensures
        match r {
            Some(t) => data_entry_of(bytes@) == Some((t.0@, t.1@, t.2, t.3@)),
            None => data_entry_of(bytes@) is None,
        },
{
    let entry: XdrLedgerEntry = ReadXdr::from_xdr(bytes.as_slice(), Limits::none()).ok()?;
    let XdrData::ContractData(d) = &entry.data else { return None };
    let contract = WriteXdr::to_xdr(&d.contract, Limits::none()).ok()?;
    let key = WriteXdr::to_xdr(&d.key, Limits::none()).ok()?;
    let val = WriteXdr::to_xdr(&d.val, Limits::none()).ok()?;
    let durability = match d.durability {
        ContractDataDurability::Temporary => 0,
        ContractDataDurability::Persistent => 1,
    };
    Some((contract, key, durability, val))
}

/// The setting id an entry image decodes to, when it decodes to a
/// config-setting entry.
pub uninterp spec fn setting_id_of(bytes: Seq<u8>) -> Option<u32>;

/// Relies on the wire schema's `LedgerEntry` decoder, reading the
/// config-setting variant. A function of the image alone.
#[verifier::external_body]
pub fn as_config_setting_entry(bytes: &Vec<u8>) -> (r: Option<u32>)
    ensures
        match r {
            Some(v) => setting_id_of(bytes@) == Some(v),
            None => setting_id_of(bytes@) is None,
        },
{
    let entry: XdrLedgerEntry = ReadXdr::from_xdr(bytes.as_slice(), Limits::none()).ok()?;
    let XdrData::ConfigSetting(cs) = &entry.data else { return None };
    Some(cs.discriminant() as u32)
}

/// The payload part of an entry's wire image: the image decoded as a
/// ledger entry and its data re-encoded alone, when the image decodes.
pub uninterp spec fn data_xdr_of(bytes: Seq<u8>) -> Option<Seq<u8>>;

/// Relies on the wire schema's `LedgerEntry` decoder and `LedgerEntryData`
/// encoder: the payload part of an entry's wire image, a function of the
/// image alone.
#[verifier::external_body]
pub fn entry_data_xdr(bytes: &Vec<u8>) -> (r: Option<Vec<u8>>)
    ensures
        match r {
            Some(v) => data_xdr_of(bytes@) == Some(v@),
            None => data_xdr_of(bytes@) is None,
        },
{
    let entry: XdrLedgerEntry = ReadXdr::from_xdr(bytes.as_slice(), Limits::none()).ok()?;
    WriteXdr::to_xdr(&entry.data, Limits::none()).ok()
}

} // verus!
