//! Sandbox flows: funding and queries, rejection without side effects,
//! recording of execution failures, and idempotent lookups.

use mars_rover::envelope::{DecoratedSignature, Preconditions, TransactionEnvelope};
use mars_rover::model::GetTransactionResponse;
use mars_rover::sandbox::{Sandbox, SandboxError};
use mars_rover::validation::ValidationError;

fn signing_key(seed: u8) -> ed25519_dalek::SigningKey {
    ed25519_dalek::SigningKey::from_bytes(&[seed; 32])
}

fn account_id(sk: &ed25519_dalek::SigningKey) -> Vec<u8> {
    sk.verifying_key().to_bytes().to_vec()
}

fn signing_hash(network_id: &[u8], body: &[u8]) -> Vec<u8> {
    let mut payload = network_id.to_vec();
    payload.extend_from_slice(&[0, 0, 0, 2]);
    payload.extend_from_slice(body);
    <sha2::Sha256 as sha2::Digest>::digest(&payload).to_vec()
}

fn signed_envelope(
    sk: &ed25519_dalek::SigningKey,
    seq: i64,
    fee: u32,
    network_id: &[u8],
) -> TransactionEnvelope {
    let body = vec![seq as u8, 42, 43];
    let hash = signing_hash(network_id, &body);
    let sig = ed25519_dalek::Signer::sign(sk, &hash);
    let id = account_id(sk);
    TransactionEnvelope {
        source_account: id.clone(),
        fee,
        seq_num: seq,
        cond: Preconditions::Unrestricted,
        signatures: vec![DecoratedSignature {
            hint: id[28..].to_vec(),
            signature: sig.to_bytes().to_vec(),
        }],
        host_function: vec![0xde, 0xad],
        auth: Vec::new(),
        resources: vec![0xbe, 0xef],
        footprint_read_only: Vec::new(),
        footprint_read_write: Vec::new(),
        restored_indices: Vec::new(),
        tx_body_xdr: body,
        envelope_xdr: String::from("envelope-image"),
    }
}

#[test]
fn fund_then_query_returns_the_balance() {
    let mut sb = Sandbox::new();
    let sk = signing_key(1);
    sb.fund_account(account_id(&sk), 10_000_000).unwrap();
    assert_eq!(sb.get_balance(&account_id(&sk)).unwrap(), 10_000_000);
    let account = sb.get_account(&account_id(&sk)).unwrap();
    assert_eq!(account.seq_num, 0);
    assert_eq!(account.balance, 10_000_000);
    assert_eq!(account.account_id, account_id(&sk));
    assert!(account.signers.is_empty());
}

#[test]
fn funding_overwrites_the_prior_balance() {
    let mut sb = Sandbox::new();
    let sk = signing_key(2);
    sb.fund_account(account_id(&sk), 10).unwrap();
    sb.fund_account(account_id(&sk), 99).unwrap();
    assert_eq!(sb.get_balance(&account_id(&sk)).unwrap(), 99);
}

#[test]
fn funding_a_short_identity_is_rejected() {
    let mut sb = Sandbox::new();
    let r = sb.fund_account(vec![1, 2, 3], 10);
    assert!(matches!(r, Err(SandboxError::InvalidInput(_))));
}

#[test]
fn balance_of_unknown_account_is_not_found() {
    let sb = Sandbox::new();
    let r = sb.get_balance(&vec![7u8; 32]);
    assert!(matches!(r, Err(SandboxError::NotFound)));
}

#[test]
fn rejection_leaves_no_trace() {
    // A submission from an unfunded account fails validation; the store and
    // the record store are untouched.
    let mut sb = Sandbox::new();
    let sk = signing_key(3);
    let network_id = sb.ledger_info.network_id.clone();
    let env = signed_envelope(&sk, 1, 100, &network_id);
    let hash = signing_hash(&network_id, &env.tx_body_xdr);
    let hash_hex = hex::encode(&hash);

    let r = sb.send_transaction(env);
    assert!(matches!(
        r,
        Err(SandboxError::Validation(ValidationError::AccountNotFound))
    ));
    let lookup = sb.get_transaction(hash_hex).unwrap();
    assert!(matches!(lookup, GetTransactionResponse::NotFound(_)));
    assert!(matches!(
        sb.get_balance(&account_id(&sk)),
        Err(SandboxError::NotFound)
    ));
}

#[test]
fn stale_sequence_changes_nothing() {
    let mut sb = Sandbox::new();
    let sk = signing_key(4);
    sb.fund_account(account_id(&sk), 5_000).unwrap();
    let network_id = sb.ledger_info.network_id.clone();
    let env = signed_envelope(&sk, 7, 100, &network_id);
    let hash_hex = hex::encode(signing_hash(&network_id, &env.tx_body_xdr));

    let r = sb.send_transaction(env);
    assert!(matches!(
        r,
        Err(SandboxError::Validation(ValidationError::SequenceMismatch {
            expected: 1,
            got: 7
        }))
    ));
    // The balance and sequence number are unchanged and nothing was
    // recorded.
    assert_eq!(sb.get_balance(&account_id(&sk)).unwrap(), 5_000);
    assert_eq!(sb.get_account(&account_id(&sk)).unwrap().seq_num, 0);
    let lookup = sb.get_transaction(hash_hex).unwrap();
    assert!(matches!(lookup, GetTransactionResponse::NotFound(_)));
}

#[test]
fn engine_failure_is_recorded_and_advances_the_sequence() {
    // A validated transaction whose host function is garbage cannot drive
    // the engine: the failure is recorded under the transaction's hash and
    // the sequence number still advances.
    let mut sb = Sandbox::new();
    let sk = signing_key(5);
    sb.fund_account(account_id(&sk), 5_000).unwrap();
    let network_id = sb.ledger_info.network_id.clone();
    let env = signed_envelope(&sk, 1, 100, &network_id);
    let hash_hex = hex::encode(signing_hash(&network_id, &env.tx_body_xdr));

    let r = sb.send_transaction(env);
    assert!(matches!(r, Err(SandboxError::Execution(_))));
    assert_eq!(sb.get_account(&account_id(&sk)).unwrap().seq_num, 1);
    assert_eq!(sb.get_balance(&account_id(&sk)).unwrap(), 5_000);
    let lookup = sb.get_transaction(hash_hex).unwrap();
    match lookup {
        GetTransactionResponse::Failed(f) => {
            assert_eq!(f.envelope_xdr, "envelope-image");
            assert_eq!(f.ledger, sb.ledger_info.sequence_number);
            assert_eq!(f.application_order, 0);
            assert!(!f.fee_bump);
        },
        _ => panic!("expected a failed record"),
    }
}

#[test]
fn fetch_by_hash_is_idempotent() {
    // Two lookups with no submission in between return identical results,
    // for an unknown hash and for a recorded failure alike.
    let mut sb = Sandbox::new();
    let unknown = String::from("00ff");
    let first = sb.get_transaction(unknown.clone()).unwrap();
    let second = sb.get_transaction(unknown).unwrap();
    assert_eq!(first, second);

    let sk = signing_key(6);
    sb.fund_account(account_id(&sk), 5_000).unwrap();
    let network_id = sb.ledger_info.network_id.clone();
    let env = signed_envelope(&sk, 1, 100, &network_id);
    let hash_hex = hex::encode(signing_hash(&network_id, &env.tx_body_xdr));
    let _ = sb.send_transaction(env);
    let first = sb.get_transaction(hash_hex.clone()).unwrap();
    let second = sb.get_transaction(hash_hex).unwrap();
    assert_eq!(first, second);
}

#[test]
fn time_and_sequence_can_be_advanced() {
    let mut sb = Sandbox::new();
    sb.set_time(999);
    sb.set_sequence(1234);
    assert_eq!(sb.get_ledger_info().timestamp, 999);
    assert_eq!(sb.get_ledger_info().sequence_number, 1234);
}

#[test]
fn network_info_names_the_sandbox() {
    let sb = Sandbox::new();
    let info = sb.get_network_info();
    assert_eq!(info.passphrase, "mars-rover; sandbox environment");
    assert_eq!(info.protocol_version, sb.ledger_info.protocol_version);
}

#[test]
fn network_id_is_the_passphrase_digest() {
    let sb = Sandbox::new();
    let expected =
        <sha2::Sha256 as sha2::Digest>::digest(b"mars-rover; sandbox environment").to_vec();
    assert_eq!(sb.ledger_info.network_id, expected);
}
