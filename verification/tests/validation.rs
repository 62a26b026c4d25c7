//! Validation behavior: check order, each rejection reason, and acceptance
//! of a single correctly-signed transaction.

use mars_rover::envelope::{DecoratedSignature, Preconditions, TransactionEnvelope};
use mars_rover::sandbox::Sandbox;
use mars_rover::validation::ValidationError;

fn signing_key(seed: u8) -> ed25519_dalek::SigningKey {
    ed25519_dalek::SigningKey::from_bytes(&[seed; 32])
}

fn account_id(sk: &ed25519_dalek::SigningKey) -> Vec<u8> {
    sk.verifying_key().to_bytes().to_vec()
}

fn signing_hash(network_id: &[u8], body: &[u8]) -> Vec<u8> {
    let mut payload = network_id.to_vec();
    payload.extend_from_slice(&[0, 0, 0, 2]);
    payload.extend_from_slice(body);
    <sha2::Sha256 as sha2::Digest>::digest(&payload).to_vec()
}

fn hint_of(key: &[u8]) -> Vec<u8> {
    key[key.len() - 4..].to_vec()
}

fn base_envelope(sk: &ed25519_dalek::SigningKey, seq: i64, fee: u32) -> TransactionEnvelope {
    TransactionEnvelope {
        source_account: account_id(sk),
        fee,
        seq_num: seq,
        cond: Preconditions::Unrestricted,
        signatures: Vec::new(),
        host_function: Vec::new(),
        auth: Vec::new(),
        resources: Vec::new(),
        footprint_read_only: Vec::new(),
        footprint_read_write: Vec::new(),
        restored_indices: Vec::new(),
        tx_body_xdr: vec![1, 2, 3, 4],
        envelope_xdr: String::new(),
    }
}

fn sign_envelope(env: &mut TransactionEnvelope, sk: &ed25519_dalek::SigningKey, network_id: &[u8]) {
    let hash = signing_hash(network_id, &env.tx_body_xdr);
    let sig = ed25519_dalek::Signer::sign(sk, &hash);
    env.signatures.push(DecoratedSignature {
        hint: hint_of(&account_id(sk)),
        signature: sig.to_bytes().to_vec(),
    });
}

#[test]
fn account_not_found_is_rejected() {
    let sb = Sandbox::new();
    let sk = signing_key(1);
    let env = base_envelope(&sk, 1, 100);
    let r = sb.validator.validate(&env, &sb.ledger_info, &sb.memory);
    assert_eq!(r, Err(ValidationError::AccountNotFound));
}

#[test]
fn stale_sequence_is_rejected() {
    let mut sb = Sandbox::new();
    let sk = signing_key(1);
    sb.fund_account(account_id(&sk), 1_000_000).unwrap();
    let mut env = base_envelope(&sk, 5, 100);
    sign_envelope(&mut env, &sk, &sb.ledger_info.network_id);
    let r = sb.validator.validate(&env, &sb.ledger_info, &sb.memory);
    assert_eq!(r, Err(ValidationError::SequenceMismatch { expected: 1, got: 5 }));
}

#[test]
fn insufficient_balance_is_rejected() {
    let mut sb = Sandbox::new();
    let sk = signing_key(2);
    sb.fund_account(account_id(&sk), 10).unwrap();
    let mut env = base_envelope(&sk, 1, 100);
    sign_envelope(&mut env, &sk, &sb.ledger_info.network_id);
    let r = sb.validator.validate(&env, &sb.ledger_info, &sb.memory);
    assert_eq!(r, Err(ValidationError::InsufficientBalance { have: 10, need: 100 }));
}

#[test]
fn time_bounds_are_enforced_inclusively() {
    let mut sb = Sandbox::new();
    let sk = signing_key(3);
    sb.fund_account(account_id(&sk), 1_000_000).unwrap();
    let now = sb.ledger_info.timestamp;

    let mut late = base_envelope(&sk, 1, 100);
    late.cond = Preconditions::Time { min_time: now + 10, max_time: now + 20 };
    sign_envelope(&mut late, &sk, &sb.ledger_info.network_id);
    let r = sb.validator.validate(&late, &sb.ledger_info, &sb.memory);
    assert_eq!(
        r,
        Err(ValidationError::TimeBoundViolation {
            now,
            min_time: now + 10,
            max_time: now + 20
        })
    );

    // Both window ends are inclusive.
    let mut edge = base_envelope(&sk, 1, 100);
    edge.cond = Preconditions::Time { min_time: now, max_time: now };
    sign_envelope(&mut edge, &sk, &sb.ledger_info.network_id);
    let r = sb.validator.validate(&edge, &sb.ledger_info, &sb.memory);
    assert_eq!(r, Ok(()));
}

#[test]
fn extended_preconditions_are_accepted_but_not_enforced() {
    let mut sb = Sandbox::new();
    let sk = signing_key(4);
    sb.fund_account(account_id(&sk), 1_000_000).unwrap();
    let mut env = base_envelope(&sk, 1, 100);
    env.cond = Preconditions::Extended;
    sign_envelope(&mut env, &sk, &sb.ledger_info.network_id);
    let r = sb.validator.validate(&env, &sb.ledger_info, &sb.memory);
    assert_eq!(r, Ok(()));
}

#[test]
fn unmatched_hint_is_rejected() {
    let mut sb = Sandbox::new();
    let sk = signing_key(5);
    sb.fund_account(account_id(&sk), 1_000_000).unwrap();
    let mut env = base_envelope(&sk, 1, 100);
    let hash = signing_hash(&sb.ledger_info.network_id, &env.tx_body_xdr);
    let sig = ed25519_dalek::Signer::sign(&sk, &hash);
    env.signatures.push(DecoratedSignature {
        hint: vec![9, 9, 9, 9],
        signature: sig.to_bytes().to_vec(),
    });
    let r = sb.validator.validate(&env, &sb.ledger_info, &sb.memory);
    assert_eq!(r, Err(ValidationError::NoMatchingSigner));
}

#[test]
fn garbage_signature_is_rejected() {
    let mut sb = Sandbox::new();
    let sk = signing_key(6);
    sb.fund_account(account_id(&sk), 1_000_000).unwrap();
    let mut env = base_envelope(&sk, 1, 100);
    env.signatures.push(DecoratedSignature {
        hint: hint_of(&account_id(&sk)),
        signature: vec![0xab; 64],
    });
    let r = sb.validator.validate(&env, &sb.ledger_info, &sb.memory);
    assert_eq!(r, Err(ValidationError::InvalidSignature));
}

#[test]
fn zero_signatures_give_invalid_weight() {
    let mut sb = Sandbox::new();
    let sk = signing_key(7);
    sb.fund_account(account_id(&sk), 1_000_000).unwrap();
    let env = base_envelope(&sk, 1, 100);
    let r = sb.validator.validate(&env, &sb.ledger_info, &sb.memory);
    assert_eq!(r, Err(ValidationError::InvalidWeight { got: 0, expected: 1 }));
}

#[test]
fn two_signatures_give_invalid_weight() {
    let mut sb = Sandbox::new();
    let sk = signing_key(8);
    sb.fund_account(account_id(&sk), 1_000_000).unwrap();
    let mut env = base_envelope(&sk, 1, 100);
    sign_envelope(&mut env, &sk, &sb.ledger_info.network_id);
    sign_envelope(&mut env, &sk, &sb.ledger_info.network_id);
    let r = sb.validator.validate(&env, &sb.ledger_info, &sb.memory);
    assert_eq!(r, Err(ValidationError::InvalidWeight { got: 2, expected: 1 }));
}

#[test]
fn single_valid_signature_is_accepted() {
    let mut sb = Sandbox::new();
    let sk = signing_key(9);
    sb.fund_account(account_id(&sk), 1_000_000).unwrap();
    let mut env = base_envelope(&sk, 1, 100);
    sign_envelope(&mut env, &sk, &sb.ledger_info.network_id);
    let r = sb.validator.validate(&env, &sb.ledger_info, &sb.memory);
    assert_eq!(r, Ok(()));
}

#[test]
fn non_ed25519_signer_is_skipped() {
    // A signer of another kind than Ed25519 can never match a hint; the
    // walk skips it and a matching Ed25519 signer listed after it still
    // authorizes the transaction.
    let mut sb = Sandbox::new();
    let master = signing_key(12);
    let delegate = signing_key(13);
    sb.fund_account(account_id(&master), 1_000_000).unwrap();

    let account_key = mars_rover::entry::LedgerKey::Account { account_id: account_id(&master) };
    let slot = sb.memory.get(&account_key.encode()).unwrap();
    let mut account = match &slot.entry.data {
        mars_rover::entry::EntryData::Account(a) => a.duplicate(),
        _ => panic!("expected an account entry"),
    };
    let encoded = slot.entry.encoded.clone();
    account.signers.push(mars_rover::entry::Signer {
        key: mars_rover::entry::SignerKey::Other,
        weight: 1,
    });
    account.signers.push(mars_rover::entry::Signer {
        key: mars_rover::entry::SignerKey::Ed25519(account_id(&delegate)),
        weight: 1,
    });
    let entry = mars_rover::entry::LedgerEntry {
        last_modified_ledger_seq: 0,
        data: mars_rover::entry::EntryData::Account(account),
        encoded,
    };
    sb.memory.upsert(account_key.encode(), entry, None);

    let mut env = base_envelope(&master, 1, 100);
    let hash = signing_hash(&sb.ledger_info.network_id, &env.tx_body_xdr);
    let sig = ed25519_dalek::Signer::sign(&delegate, &hash);
    env.signatures.push(DecoratedSignature {
        hint: hint_of(&account_id(&delegate)),
        signature: sig.to_bytes().to_vec(),
    });
    let r = sb.validator.validate(&env, &sb.ledger_info, &sb.memory);
    assert_eq!(r, Ok(()));
}

#[test]
fn listed_ed25519_signer_can_authorize() {
    // An account whose signer list carries a second Ed25519 key accepts a
    // signature matched through that signer's hint.
    let mut sb = Sandbox::new();
    let master = signing_key(10);
    let delegate = signing_key(11);
    sb.fund_account(account_id(&master), 1_000_000).unwrap();

    // Attach the delegate signer to the stored account entry.
    let account_key = mars_rover::entry::LedgerKey::Account { account_id: account_id(&master) };
    let slot = sb.memory.get(&account_key.encode()).unwrap();
    let mut account = match &slot.entry.data {
        mars_rover::entry::EntryData::Account(a) => a.duplicate(),
        _ => panic!("expected an account entry"),
    };
    let encoded = slot.entry.encoded.clone();
    account.signers.push(mars_rover::entry::Signer {
        key: mars_rover::entry::SignerKey::Ed25519(account_id(&delegate)),
        weight: 1,
    });
    let entry = mars_rover::entry::LedgerEntry {
        last_modified_ledger_seq: 0,
        data: mars_rover::entry::EntryData::Account(account),
        encoded,
    };
    sb.memory.upsert(account_key.encode(), entry, None);

    let mut env = base_envelope(&master, 1, 100);
    let hash = signing_hash(&sb.ledger_info.network_id, &env.tx_body_xdr);
    let sig = ed25519_dalek::Signer::sign(&delegate, &hash);
    env.signatures.push(DecoratedSignature {
        hint: hint_of(&account_id(&delegate)),
        signature: sig.to_bytes().to_vec(),
    });
    let r = sb.validator.validate(&env, &sb.ledger_info, &sb.memory);
    assert_eq!(r, Ok(()));
}
