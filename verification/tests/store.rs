//! The ledger store and the wire framing it is keyed by: store operations,
//! the key images checked against the wire schema's own encoder, the
//! canonical account image, and the application of engine change sets.

use mars_rover::entry::{EntryData, LedgerEntry, LedgerKey};
use mars_rover::executor::{EntryChange, Executor};
use mars_rover::memory::Memory;
use mars_rover::model::Durability;
use mars_rover::sandbox::Sandbox;

use soroban_env_host::xdr::{self, ReadXdr, WriteXdr};

fn data_entry(contract: Vec<u8>, key: Vec<u8>, val: Vec<u8>) -> LedgerEntry {
    LedgerEntry {
        last_modified_ledger_seq: 5,
        data: EntryData::ContractData {
            contract,
            key,
            durability: Durability::Persistent,
            val,
        },
        encoded: vec![1, 2, 3],
    }
}

#[test]
fn upsert_get_remove_roundtrip() {
    let mut memory = Memory::new();
    let entry = data_entry(vec![9; 4], vec![8; 4], vec![7; 4]);
    let key = entry.data.key().unwrap().encode();
    memory.upsert(key.clone(), entry, Some(444));

    let slot = memory.get(&key).unwrap();
    assert_eq!(slot.ttl, Some(444));
    assert_eq!(slot.entry.last_modified_ledger_seq, 5);

    memory.remove(&key);
    assert!(memory.get(&key).is_none());
}

#[test]
fn update_ttl_changes_only_the_ttl() {
    let mut memory = Memory::new();
    let entry = data_entry(vec![9; 4], vec![8; 4], vec![7; 4]);
    let key = entry.data.key().unwrap().encode();
    memory.upsert(key.clone(), entry, Some(10));
    memory.update_ttl(&key, Some(20));
    let slot = memory.get(&key).unwrap();
    assert_eq!(slot.ttl, Some(20));
    assert_eq!(slot.entry.encoded, vec![1, 2, 3]);
    // Updating the TTL of an absent key changes nothing.
    memory.update_ttl(&vec![0xaa], Some(30));
    assert!(memory.get(&vec![0xaa]).is_none());
}

#[test]
fn insert_derives_the_key_and_clears_the_ttl() {
    let mut memory = Memory::new();
    let entry = data_entry(vec![9; 4], vec![8; 4], vec![7; 4]);
    let key = entry.data.key().unwrap().encode();
    memory.insert_with_ttl(entry, Some(50));
    assert_eq!(memory.get(&key).unwrap().ttl, Some(50));
    // A plain insert replaces the TTL wholesale: an absent TTL clears it.
    let again = data_entry(vec![9; 4], vec![8; 4], vec![6; 4]);
    memory.insert(again);
    assert_eq!(memory.get(&key).unwrap().ttl, None);
}

#[test]
fn get_account_distinguishes_absence_from_other_kinds() {
    let mut memory = Memory::new();
    let entry = data_entry(vec![9; 4], vec![8; 4], vec![7; 4]);
    let key = entry.data.key().unwrap().encode();
    memory.insert(entry);
    assert!(matches!(memory.get_account(&vec![0xaa]), Ok(None)));
    assert!(memory.get_account(&key).is_err());
}

#[test]
fn key_images_match_the_wire_schema() {
    // The store's key framing must agree byte for byte with the wire
    // schema's own encoder, for every key shape the sandbox uses.
    let id = [3u8; 32];
    let ours = LedgerKey::Account { account_id: id.to_vec() }.encode();
    let theirs = xdr::LedgerKey::Account(xdr::LedgerKeyAccount {
        account_id: xdr::AccountId(xdr::PublicKey::PublicKeyTypeEd25519(xdr::Uint256(id))),
    })
    .to_xdr(xdr::Limits::none())
    .unwrap();
    assert_eq!(ours, theirs);

    let hash = [0xabu8; 32];
    let ours = LedgerKey::ContractCode { hash: hash.to_vec() }.encode();
    let theirs = xdr::LedgerKey::ContractCode(xdr::LedgerKeyContractCode {
        hash: xdr::Hash(hash),
    })
    .to_xdr(xdr::Limits::none())
    .unwrap();
    assert_eq!(ours, theirs);

    let contract = xdr::ScAddress::Contract(xdr::ContractId(xdr::Hash([0x11; 32])));
    let key_val = xdr::ScVal::U32(77);
    let ours = LedgerKey::ContractData {
        contract: contract.to_xdr(xdr::Limits::none()).unwrap(),
        key: key_val.to_xdr(xdr::Limits::none()).unwrap(),
        durability: Durability::Temporary,
    }
    .encode();
    let theirs = xdr::LedgerKey::ContractData(xdr::LedgerKeyContractData {
        contract,
        key: key_val,
        durability: xdr::ContractDataDurability::Temporary,
    })
    .to_xdr(xdr::Limits::none())
    .unwrap();
    assert_eq!(ours, theirs);

    let ours = LedgerKey::ConfigSetting { setting_id: 1 }.encode();
    let theirs = xdr::LedgerKey::ConfigSetting(xdr::LedgerKeyConfigSetting {
        config_setting_id: xdr::ConfigSettingId::ContractComputeV0,
    })
    .to_xdr(xdr::Limits::none())
    .unwrap();
    assert_eq!(ours, theirs);
}

#[test]
fn funded_account_image_matches_the_wire_schema() {
    // The canonical account image the sandbox writes decodes, under the
    // wire schema, to exactly the account it modelled.
    let mut sb = Sandbox::new();
    let id = [4u8; 32];
    sb.fund_account(id.to_vec(), 123_456).unwrap();
    let slot = sb
        .ledger_entry(&LedgerKey::Account { account_id: id.to_vec() })
        .expect("the funded account must be stored");
    let decoded =
        xdr::LedgerEntry::from_xdr(slot.entry.encoded.as_slice(), xdr::Limits::none()).unwrap();
    assert_eq!(decoded.last_modified_ledger_seq, 0);
    match decoded.data {
        xdr::LedgerEntryData::Account(a) => {
            assert_eq!(a.balance, 123_456);
            assert_eq!(a.seq_num.0, 0);
            assert_eq!(a.thresholds.0, [1, 0, 0, 0]);
            assert!(a.signers.is_empty());
            let xdr::PublicKey::PublicKeyTypeEd25519(master) = a.account_id.0;
            assert_eq!(master.0, id);
        },
        _ => panic!("expected an account entry"),
    }
}

#[test]
fn ttl_only_change_never_deletes() {
    // Applying a change that has no new value on a read-only footprint key
    // updates the TTL but leaves the entry's value and presence unchanged.
    let mut memory = Memory::new();
    let entry = data_entry(vec![9; 4], vec![8; 4], vec![7; 4]);
    let key = entry.data.key().unwrap().encode();
    memory.upsert(key.clone(), entry, Some(100));

    let executor = Executor::new();
    let changes = vec![EntryChange {
        read_only: true,
        enc_key: key.clone(),
        new_entry: None,
        ttl: Some(777),
    }];
    executor.apply_ledger_changes(&mut memory, &changes);

    let slot = memory.get(&key).unwrap();
    assert_eq!(slot.ttl, Some(777));
    assert_eq!(slot.entry.encoded, vec![1, 2, 3]);
    assert_eq!(slot.entry.last_modified_ledger_seq, 5);
}

#[test]
fn read_write_removal_deletes() {
    let mut memory = Memory::new();
    let entry = data_entry(vec![9; 4], vec![8; 4], vec![7; 4]);
    let key = entry.data.key().unwrap().encode();
    memory.upsert(key.clone(), entry, Some(100));

    let executor = Executor::new();
    let changes = vec![EntryChange {
        read_only: false,
        enc_key: key.clone(),
        new_entry: None,
        ttl: None,
    }];
    executor.apply_ledger_changes(&mut memory, &changes);
    assert!(memory.get(&key).is_none());
}

#[test]
fn contract_data_query_returns_the_stored_images() {
    let mut sb = Sandbox::new();
    let contract = xdr::ScAddress::Contract(xdr::ContractId(xdr::Hash([0x22; 32])))
        .to_xdr(xdr::Limits::none())
        .unwrap();
    let key_val = xdr::ScVal::Symbol(xdr::ScSymbol("counter".as_bytes().try_into().unwrap()))
        .to_xdr(xdr::Limits::none())
        .unwrap();
    let val = xdr::ScVal::U32(41).to_xdr(xdr::Limits::none()).unwrap();

    // Store the entry with a real wire image, as the engine would produce.
    let contract_sc: xdr::ScAddress =
        xdr::ScAddress::from_xdr(contract.as_slice(), xdr::Limits::none()).unwrap();
    let key_sc: xdr::ScVal = xdr::ScVal::from_xdr(key_val.as_slice(), xdr::Limits::none()).unwrap();
    let val_sc: xdr::ScVal = xdr::ScVal::from_xdr(val.as_slice(), xdr::Limits::none()).unwrap();
    let data = xdr::LedgerEntryData::ContractData(xdr::ContractDataEntry {
        ext: xdr::ExtensionPoint::V0,
        contract: contract_sc,
        key: key_sc,
        durability: xdr::ContractDataDurability::Persistent,
        val: val_sc,
    });
    let wire_entry = xdr::LedgerEntry {
        last_modified_ledger_seq: 17,
        data: data.clone(),
        ext: xdr::LedgerEntryExt::V0,
    };
    let image = wire_entry.to_xdr(xdr::Limits::none()).unwrap();

    let model = LedgerEntry {
        last_modified_ledger_seq: 17,
        data: EntryData::ContractData {
            contract: contract.clone(),
            key: key_val.clone(),
            durability: Durability::Persistent,
            val: val.clone(),
        },
        encoded: image,
    };
    let enc_key = model.data.key().unwrap().encode();
    sb.memory.upsert(enc_key.clone(), model, Some(2_000_000));

    let result = sb
        .get_contract_data(contract, key_val, Durability::Persistent)
        .unwrap();
    assert_eq!(result.last_modified_ledger_seq, Some(17));
    assert_eq!(result.live_until_ledger_seq, Some(2_000_000));
    assert_eq!(
        result.key,
        base64::Engine::encode(&base64::engine::general_purpose::STANDARD, &enc_key)
    );
    assert_eq!(
        result.val,
        base64::Engine::encode(
            &base64::engine::general_purpose::STANDARD,
            data.to_xdr(xdr::Limits::none()).unwrap()
        )
    );
}

#[test]
fn base64_known_vectors() {
    // Known vectors for the base64 encoding the query responses use, one
    // per padding shape.
    assert_eq!(mars_rover::codec::base64_encode(&b"Man".to_vec()), "TWFu");
    assert_eq!(mars_rover::codec::base64_encode(&b"Ma".to_vec()), "TWE=");
    assert_eq!(mars_rover::codec::base64_encode(&b"M".to_vec()), "TQ==");
    assert_eq!(mars_rover::codec::base64_encode(&Vec::new()), "");
}

#[test]
fn missing_contract_data_is_not_found() {
    let sb = Sandbox::new();
    let r = sb.get_contract_data(vec![1], vec![2], Durability::Temporary);
    assert!(matches!(r, Err(mars_rover::sandbox::SandboxError::NotFound)));
}
