//! The fixed network configuration the sandbox simulates under: fee rates,
//! rent rates, resource limits, and per-cost-type cost model parameters.
//!
//! The values are plain data here; the adapter that drives the execution
//! engine's recording mode assembles the engine's own configuration
//! structure from them.

use vstd::prelude::*;

verus! {

/// The network configuration, as plain values. Cost model parameters are
/// (constant term, linear term) pairs, one per engine cost type.
pub struct NetworkConfigValues {
    pub fee_per_instruction_increment: i64,
    pub fee_per_disk_read_entry: i64,
    pub fee_per_write_entry: i64,
    pub fee_per_disk_read_1kb: i64,
    pub fee_per_write_1kb: i64,
    pub fee_per_historical_1kb: i64,
    pub fee_per_contract_event_1kb: i64,
    pub fee_per_transaction_size_1kb: i64,
    pub rent_fee_per_rent_1kb: i64,
    pub rent_fee_per_write_1kb: i64,
    pub rent_fee_per_write_entry: i64,
    pub persistent_rent_rate_denominator: i64,
    pub temporary_rent_rate_denominator: i64,
    pub tx_max_instructions: i64,
    pub tx_memory_limit: u32,
    pub cpu_cost_params: Vec<(i64, i64)>,
    pub memory_cost_params: Vec<(i64, i64)>,
    pub min_temp_entry_ttl: u32,
    pub min_persistent_entry_ttl: u32,
    pub max_entry_ttl: u32,
}

/// Relies on the engine's cost-type enumeration: how many cost types the
/// cost model parameterizes.
#[verifier::external_body]
fn engine_cost_type_count() -> usize {
    soroban_env_host::xdr::ContractCostType::variants().len()
}

/// The sandbox's fixed network configuration. The cost model gives cost
/// type `i` a constant term of `(i + 1) * 1000` instructions and a linear
/// term of `i * 128`, and a constant term of `(i + 1) * 500` bytes and a
/// linear term of `i * 64` of memory.
pub fn default_network_config() -> (r: NetworkConfigValues)
    ensures
        r.fee_per_instruction_increment == 10i64,
        r.fee_per_disk_read_entry == 20i64,
        r.fee_per_write_entry == 30i64,
        r.fee_per_disk_read_1kb == 40i64,
        r.fee_per_write_1kb == 50i64,
        r.fee_per_historical_1kb == 60i64,
        r.fee_per_contract_event_1kb == 70i64,
        r.fee_per_transaction_size_1kb == 80i64,
        r.rent_fee_per_rent_1kb == 100i64,
        r.rent_fee_per_write_1kb == 50i64,
        r.rent_fee_per_write_entry == 30i64,
        r.persistent_rent_rate_denominator == 100i64,
        r.temporary_rent_rate_denominator == 1000i64,
        r.tx_max_instructions == 100_000_000i64,
        r.tx_memory_limit == 40_000_000u32,
        r.cpu_cost_params@.len() == r.memory_cost_params@.len(),
        forall|i: int|
            0 <= i < r.cpu_cost_params@.len() ==> #[trigger] r.cpu_cost_params@[i] == (
                ((i + 1) * 1000) as i64,
                (i * 128) as i64,
            ),
        forall|i: int|
            0 <= i < r.memory_cost_params@.len() ==> #[trigger] r.memory_cost_params@[i] == (
                ((i + 1) * 500) as i64,
                (i * 64) as i64,
            ),
        r.min_temp_entry_ttl == 16u32,
        r.min_persistent_entry_ttl == 100_000u32,
        r.max_entry_ttl == 10_000_000u32,
{
    let raw_count = engine_cost_type_count();
    let count = if raw_count > 1024 {
        1024
    } else {
        raw_count
    };
    let mut cpu: Vec<(i64, i64)> = Vec::new();
    let mut mem: Vec<(i64, i64)> = Vec::new();
    let mut i: usize = 0;
    while i < count
        invariant
            i <= count,
            count <= 1024,
            cpu@.len() == i,
            mem@.len() == i,
            forall|j: int|
                0 <= j < i ==> #[trigger] cpu@[j] == (((j + 1) * 1000) as i64, (j * 128) as i64),
            forall|j: int|
                0 <= j < i ==> #[trigger] mem@[j] == (((j + 1) * 500) as i64, (j * 64) as i64),
        decreases count - i,
    {
        let v = i as i64;
        cpu.push(((v + 1) * 1000, v * 128));
        mem.push(((v + 1) * 500, v * 64));
        i = i + 1;
    }
    NetworkConfigValues {
        fee_per_instruction_increment: 10,
        fee_per_disk_read_entry: 20,
        fee_per_write_entry: 30,
        fee_per_disk_read_1kb: 40,
        fee_per_write_1kb: 50,
        fee_per_historical_1kb: 60,
        fee_per_contract_event_1kb: 70,
        fee_per_transaction_size_1kb: 80,
        rent_fee_per_rent_1kb: 100,
        rent_fee_per_write_1kb: 50,
        rent_fee_per_write_entry: 30,
        persistent_rent_rate_denominator: 100,
        temporary_rent_rate_denominator: 1000,
        tx_max_instructions: 100_000_000,
        tx_memory_limit: 40_000_000,
        cpu_cost_params: cpu,
        memory_cost_params: mem,
        min_temp_entry_ttl: 16,
        min_persistent_entry_ttl: 100_000,
        max_entry_ttl: 10_000_000,
    }
}

} // verus!
