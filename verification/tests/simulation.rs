//! The simulation flow: mapping predicted diffs to state changes, the
//! response builder, and one recording-mode round trip through the real
//! engine.

use mars_rover::model::{
    ChangeKind, EntryDiff, SimulateTransactionResponse, SimulationOutcome,
};
use mars_rover::sandbox::Sandbox;
use mars_rover::utils::changes_from_simulation;

use soroban_env_host::xdr::{self, WriteXdr};

fn outcome_ok(diffs: Vec<EntryDiff>) -> SimulationOutcome {
    SimulationOutcome {
        ok: true,
        error: String::new(),
        retval_xdr: String::from("ret"),
        auth_xdr: vec![String::from("auth")],
        events: vec![vec![1, 2]],
        transaction_data_xdr: String::from("txdata"),
        min_resource_fee: String::from("5000"),
        diffs,
    }
}

#[test]
fn diffs_map_to_updates_and_removals() {
    let diffs = vec![
        EntryDiff { key: vec![1], before: Some(vec![10]), after: Some(vec![11]) },
        EntryDiff { key: vec![2], before: Some(vec![20]), after: None },
        EntryDiff { key: vec![3], before: None, after: Some(vec![30]) },
    ];
    let changes = changes_from_simulation(&diffs).unwrap();
    assert_eq!(changes.len(), 3);
    assert_eq!(changes[0].change_type, ChangeKind::Updated);
    assert_eq!(changes[1].change_type, ChangeKind::Removed);
    assert_eq!(changes[2].change_type, ChangeKind::Updated);
    assert_eq!(changes[0].key, vec![1]);
    assert_eq!(changes[1].before, Some(vec![20]));
    assert_eq!(changes[1].after, None);
}

#[test]
fn an_empty_diff_is_refused() {
    let diffs = vec![EntryDiff { key: vec![1], before: None, after: None }];
    assert!(changes_from_simulation(&diffs).is_err());
}

#[test]
fn failed_simulation_builds_the_error_response() {
    let sb = Sandbox::new();
    let outcome = SimulationOutcome {
        ok: false,
        error: String::from("boom"),
        retval_xdr: String::new(),
        auth_xdr: Vec::new(),
        events: vec![vec![9]],
        transaction_data_xdr: String::new(),
        min_resource_fee: String::new(),
        diffs: Vec::new(),
    };
    let resp = sb.executor.simulation_response(outcome, &sb.ledger_info).unwrap();
    match resp {
        SimulateTransactionResponse::Error(e) => {
            assert_eq!(e.error, "boom");
            assert_eq!(e.latest_ledger, sb.ledger_info.sequence_number);
            assert!(e.parsed);
            assert_eq!(e.events, vec![vec![9]]);
        },
        _ => panic!("expected the error response"),
    }
}

#[test]
fn successful_simulation_builds_the_success_response() {
    let sb = Sandbox::new();
    let diffs = vec![EntryDiff { key: vec![1], before: None, after: Some(vec![5]) }];
    let resp = sb.executor.simulation_response(outcome_ok(diffs), &sb.ledger_info).unwrap();
    match resp {
        SimulateTransactionResponse::Success(s) => {
            assert_eq!(s.latest_ledger, sb.ledger_info.sequence_number);
            assert_eq!(s.transaction_data, "txdata");
            assert_eq!(s.min_resource_fee, "5000");
            let result = s.result.unwrap();
            assert_eq!(result.retval, "ret");
            assert_eq!(result.auth, vec![String::from("auth")]);
            let changes = s.state_changes.unwrap();
            assert_eq!(changes.len(), 1);
            assert_eq!(changes[0].change_type, ChangeKind::Updated);
        },
        _ => panic!("expected the success response"),
    }
}

#[test]
fn recording_mode_simulation_predicts_an_upload() {
    // The same glue the host-facing layer runs: snapshot the store, run the
    // engine's recording mode, and build the response from the outcome. A
    // wasm upload predicts one updated contract-code entry and charges a
    // positive resource fee; the predicted diff is never applied.
    let sb = Sandbox::new();

    // A minimal valid contract module (mirrors the end-to-end test).
    let protocol = sb.ledger_info.protocol_version;
    let mut wasm = vec![0x00, 0x61, 0x73, 0x6d, 0x01, 0x00, 0x00, 0x00];
    wasm.extend_from_slice(&[0x01, 0x05, 0x01, 0x60, 0x00, 0x01, 0x7e]);
    wasm.extend_from_slice(&[0x03, 0x02, 0x01, 0x00]);
    wasm.extend_from_slice(&[0x07, 0x09, 0x01, 0x05]);
    wasm.extend_from_slice(b"hello");
    wasm.extend_from_slice(&[0x00, 0x00]);
    wasm.extend_from_slice(&[0x0a, 0x06, 0x01, 0x04, 0x00, 0x42, 0x02, 0x0b]);
    let mut custom = vec![17u8];
    custom.extend_from_slice(b"contractenvmetav0");
    custom.extend_from_slice(&[0, 0, 0, 0]);
    custom.extend_from_slice(&protocol.to_be_bytes());
    custom.extend_from_slice(&[0, 0, 0, 0]);
    wasm.push(0x00);
    wasm.push(custom.len() as u8);
    wasm.extend_from_slice(&custom);

    let host_fn = xdr::HostFunction::UploadContractWasm(wasm.clone().try_into().unwrap());
    let source = xdr::AccountId(xdr::PublicKey::PublicKeyTypeEd25519(xdr::Uint256([6; 32])));

    let network_config = soroban_simulation::NetworkConfig {
        fee_configuration: soroban_env_host::fees::FeeConfiguration {
            fee_per_instruction_increment: 10,
            fee_per_disk_read_entry: 20,
            fee_per_write_entry: 30,
            fee_per_disk_read_1kb: 40,
            fee_per_write_1kb: 50,
            fee_per_historical_1kb: 60,
            fee_per_contract_event_1kb: 70,
            fee_per_transaction_size_1kb: 80,
        },
        rent_fee_configuration: soroban_env_host::fees::RentFeeConfiguration {
            fee_per_rent_1kb: 100,
            fee_per_write_1kb: 50,
            fee_per_write_entry: 30,
            persistent_rent_rate_denominator: 100,
            temporary_rent_rate_denominator: 1000,
        },
        tx_max_instructions: 100_000_000,
        tx_memory_limit: 40_000_000,
        cpu_cost_params: xdr::ContractCostParams(Vec::new().try_into().unwrap()),
        memory_cost_params: xdr::ContractCostParams(Vec::new().try_into().unwrap()),
        min_temp_entry_ttl: sb.ledger_info.min_temp_entry_ttl,
        min_persistent_entry_ttl: sb.ledger_info.min_persistent_entry_ttl,
        max_entry_ttl: sb.ledger_info.max_entry_ttl,
    };
    let engine_info = soroban_env_host::LedgerInfo {
        protocol_version: protocol,
        sequence_number: sb.ledger_info.sequence_number,
        timestamp: sb.ledger_info.timestamp,
        network_id: sb.ledger_info.network_id.clone().try_into().unwrap(),
        base_reserve: sb.ledger_info.base_reserve,
        min_temp_entry_ttl: sb.ledger_info.min_temp_entry_ttl,
        min_persistent_entry_ttl: sb.ledger_info.min_persistent_entry_ttl,
        max_entry_ttl: sb.ledger_info.max_entry_ttl,
    };
    let snapshot = std::rc::Rc::new(
        soroban_env_host::testutils::MockSnapshotSource::from_entries(Vec::new()),
    );
    let sim = soroban_simulation::simulation::simulate_invoke_host_function_op(
        snapshot,
        &network_config,
        &soroban_simulation::simulation::SimulationAdjustmentConfig::no_adjustments(),
        &engine_info,
        host_fn,
        soroban_env_host::e2e_invoke::RecordingInvocationAuthMode::recording(true, false),
        &source,
        [1; 32],
        true,
    )
    .unwrap();
    let retval = sim.invoke_result.as_ref().expect("the upload must simulate successfully");
    let tx_data = sim.transaction_data.as_ref().unwrap();
    assert!(tx_data.resource_fee > 0);

    let diffs: Vec<EntryDiff> = sim
        .modified_entries
        .iter()
        .map(|d| EntryDiff {
            key: d
                .state_after
                .as_ref()
                .or(d.state_before.as_ref())
                .map(|e| e.to_key().to_xdr(xdr::Limits::none()).unwrap())
                .unwrap_or_default(),
            before: d.state_before.as_ref().map(|e| e.to_xdr(xdr::Limits::none()).unwrap()),
            after: d.state_after.as_ref().map(|e| e.to_xdr(xdr::Limits::none()).unwrap()),
        })
        .collect();
    let outcome = SimulationOutcome {
        ok: true,
        error: String::new(),
        retval_xdr: retval.to_xdr_base64(xdr::Limits::none()).unwrap(),
        auth_xdr: Vec::new(),
        events: Vec::new(),
        transaction_data_xdr: tx_data.to_xdr_base64(xdr::Limits::none()).unwrap(),
        min_resource_fee: tx_data.resource_fee.to_string(),
        diffs,
    };
    let resp = sb.executor.simulation_response(outcome, &sb.ledger_info).unwrap();
    match resp {
        SimulateTransactionResponse::Success(s) => {
            let changes = s.state_changes.unwrap();
            assert_eq!(changes.len(), 1);
            assert_eq!(changes[0].change_type, ChangeKind::Updated);
            // The predicted key is the contract-code key of the uploaded
            // bytes, framed exactly as the library frames it.
            let wasm_hash: [u8; 32] = <sha2::Sha256 as sha2::Digest>::digest(&wasm).into();
            let expected_key = mars_rover::entry::LedgerKey::ContractCode {
                hash: wasm_hash.to_vec(),
            }
            .encode();
            assert_eq!(changes[0].key, expected_key);
        },
        _ => panic!("expected the success response"),
    }
    // The store itself was never touched by simulation.
    assert!(sb.memory.entries.is_empty());
}
