//! The sandbox: the coordinator that ties the store, the validator, the
//! orchestrator and the record store into the two flows the caller sees —
//! *simulate*, which is read-only and speculative, and *submit*, which
//! validates, executes, mutates the store and records the outcome.
//!
//! Submission is side-effect-free on rejection: a transaction the validator
//! refuses changes no account, no entry and no record. Execution failures,
//! by contrast, are recorded and still advance the source account's
//! sequence number, since the network this sandbox emulates charges fees
//! for failed calls.

use vstd::prelude::*;
use vstd::string::StringExecFns;

use crate::codec::{
    base64_encode, base64_of, encode_account_entry, account_entry_xdr_of, encode_tx_result,
    hex_decode, hex_encode, hex_of, hex_parse_ok, hex_parsed, tx_result_b64_of,
};
use crate::engine::entry_data_xdr;
use crate::entry::{
    clone_bytes, clone_signers, i64_be, key_bytes, u32_be, AccountEntry, AccountEntryV,
    EntryData, EntryDataV, LedgerEntry, LedgerEntryV, LedgerKey, LedgerKeyV,
};
use crate::envelope::TransactionEnvelope;
use crate::executor::{apply_fold, change_entries_decoded, EntryChangeV, ExecutionResult, Executor};
use crate::ledger_info::get_initial_ledger_info;
use crate::memory::{Memory, StoredEntry};
use crate::model::{
    BaseSendTransactionResponse, Durability, GetFailedTransactionResponse,
    GetMissingTransactionResponse, GetSuccessfulTransactionResponse, GetTransactionResponse,
    LedgerEntryResult, LedgerInfo, NetworkInfo, SendTransactionResponse, SendTransactionStatus,
    TransactionEvents,
};
use crate::tx_storage::{TransactionInfo, TxStorage};
use crate::validation::{account_key_of, validate_spec, TxValidation, ValidationError};
use crate::utils::tx_hash;
use crate::utils::tx_hash_of;

verus! {

/// Why a sandbox operation failed.
#[derive(Debug)]
pub enum SandboxError {
    /// A caller-supplied value has the wrong shape.
    InvalidInput(String),
    /// A lookup found nothing.
    NotFound,
    /// The transaction was rejected by validation.
    Validation(ValidationError),
    /// The execution engine could not be driven, or the pipeline broke down
    /// after validation.
    Execution(String),
    /// A stored value could not be re-encoded for the response.
    Encoding(String),
}

/// The wire image of an account entry after the sequence bump: the new
/// last-modified sequence, the untouched identity and balance bytes, the
/// new sequence number, and the untouched rest.
pub open spec fn patched_account_image(enc: Seq<u8>, lm: u32, seq: i64) -> Seq<u8> {
    u32_be(lm) + enc.subrange(4, 52) + i64_be(seq) + enc.skip(60)
}

/// The store after bumping the source account's sequence number by one and
/// stamping it with the current ledger sequence. The store is unchanged
/// when the account is absent, is not an account entry, sits at the largest
/// sequence number, or carries a malformed image.
pub open spec fn bump_spec(
    m: Map<Seq<u8>, (LedgerEntryV, Option<u32>)>,
    id: Seq<u8>,
    lm: u32,
) -> Map<Seq<u8>, (LedgerEntryV, Option<u32>)> {
    let akey = account_key_of(id);
    if m.contains_key(akey) {
        match m[akey].0.data {
            EntryDataV::Account(a) => if a.seq_num < i64::MAX && m[akey].0.encoded.len() >= 60 {
                m.insert(
                    akey,
                    (
                        LedgerEntryV {
                            last_modified_ledger_seq: lm,
                            data: EntryDataV::Account(
                                AccountEntryV { seq_num: (a.seq_num + 1) as i64, ..a },
                            ),
                            encoded: patched_account_image(
                                m[akey].0.encoded,
                                lm,
                                (a.seq_num + 1) as i64,
                            ),
                        },
                        m[akey].1,
                    ),
                )
            } else {
                m
            },
            _ => m,
        }
    } else {
        m
    }
}

/// The balance stored for an account, when the account is in the store.
pub open spec fn balance_spec(
    m: Map<Seq<u8>, (LedgerEntryV, Option<u32>)>,
    id: Seq<u8>,
) -> Option<i64> {
    let akey = account_key_of(id);
    if m.contains_key(akey) {
        match m[akey].0.data {
            EntryDataV::Account(a) => Some(a.balance),
            _ => None,
        }
    } else {
        None
    }
}

/// The entry a freshly funded account stands as in the store.
pub open spec fn funded_entry(id: Seq<u8>, balance: i64) -> LedgerEntryV {
    LedgerEntryV {
        last_modified_ledger_seq: 0,
        data: EntryDataV::Account(
            AccountEntryV { account_id: id, balance, seq_num: 0, signers: Seq::empty() },
        ),
        encoded: account_entry_xdr_of(id, balance, 0, seq![1u8, 0u8, 0u8, 0u8], 0),
    }
}

/// The store after `n` sequence bumps of the same account under the same
/// ledger sequence stamp.
pub open spec fn bump_n(
    m: Map<Seq<u8>, (LedgerEntryV, Option<u32>)>,
    id: Seq<u8>,
    lm: u32,
    n: nat,
) -> Map<Seq<u8>, (LedgerEntryV, Option<u32>)>
    decreases n,
{
    if n == 0 {
        m
    } else {
        bump_spec(bump_n(m, id, lm, (n - 1) as nat), id, lm)
    }
}

/// Sequence monotonicity: after `n` submissions that each advance the
/// account's sequence number once — and whose execution left the account
/// entry itself alone — the stored sequence number is the initial one plus
/// `n`, and the balance is untouched. The account's wire image must be at
/// least the fixed account-entry prefix, as every image the sandbox writes
/// is.
pub proof fn lemma_sequence_monotonicity(
    m: Map<Seq<u8>, (LedgerEntryV, Option<u32>)>,
    id: Seq<u8>,
    lm: u32,
    a: AccountEntryV,
    n: nat,
)
    requires
        m.contains_key(account_key_of(id)),
        m[account_key_of(id)].0.data == EntryDataV::Account(a),
        m[account_key_of(id)].0.encoded.len() >= 60,
        a.seq_num + n <= i64::MAX,
    ensures
        bump_n(m, id, lm, n).contains_key(account_key_of(id)),
        bump_n(m, id, lm, n)[account_key_of(id)].0.data == EntryDataV::Account(
            AccountEntryV { seq_num: (a.seq_num + n) as i64, ..a },
        ),
        bump_n(m, id, lm, n)[account_key_of(id)].0.encoded.len() >= 60,
    decreases n,
{
    let akey = account_key_of(id);
    if n == 0 {
        assert(AccountEntryV { seq_num: (a.seq_num + 0) as i64, ..a } =~= a);
    } else {
        lemma_sequence_monotonicity(m, id, lm, a, (n - 1) as nat);
        let prev = bump_n(m, id, lm, (n - 1) as nat);
        let pa = AccountEntryV { seq_num: (a.seq_num + n - 1) as i64, ..a };
        assert(prev[akey].0.data == EntryDataV::Account(pa));
        assert(pa.seq_num < i64::MAX);
        assert(patched_account_image(
            prev[akey].0.encoded,
            lm,
            (pa.seq_num + 1) as i64,
        ).len() == prev[akey].0.encoded.len());
        assert(AccountEntryV { seq_num: (pa.seq_num + 1) as i64, ..pa } =~= AccountEntryV {
            seq_num: (a.seq_num + n) as i64,
            ..a
        });
    }
}

/// One submission advances the sequence number by exactly one: when the
/// engine's change set leaves the source account's key alone — as every
/// contract invocation that does not touch the account itself does — the
/// store a submission leaves behind holds the account with its sequence
/// number one higher, its balance and signers untouched.
pub proof fn lemma_submission_advances_sequence(
    m: Map<Seq<u8>, (LedgerEntryV, Option<u32>)>,
    cs: Seq<crate::executor::EntryChangeV>,
    id: Seq<u8>,
    lm: u32,
    a: AccountEntryV,
)
    requires
        m.contains_key(account_key_of(id)),
        m[account_key_of(id)].0.data == EntryDataV::Account(a),
        m[account_key_of(id)].0.encoded.len() >= 60,
        a.seq_num < i64::MAX,
        !crate::executor::touches(cs, account_key_of(id)),
    ensures
        bump_spec(apply_fold(m, cs), id, lm).contains_key(account_key_of(id)),
        bump_spec(apply_fold(m, cs), id, lm)[account_key_of(id)].0.data == EntryDataV::Account(
            AccountEntryV { seq_num: (a.seq_num + 1) as i64, ..a },
        ),
{
    crate::executor::lemma_apply_fold_untouched(m, cs, account_key_of(id));
}

/// Funding then querying: after funding an account with some balance, a
/// balance query on that account returns exactly that balance.
pub proof fn lemma_fund_then_balance(
    m: Map<Seq<u8>, (LedgerEntryV, Option<u32>)>,
    id: Seq<u8>,
    balance: i64,
)
    ensures
        balance_spec(
            m.insert(account_key_of(id), (funded_entry(id, balance), None)),
            id,
        ) == Some(balance),
{
}

/// The sandbox. The store, ledger context and record store are public for
/// diagnostic access; mutate them only through the sandbox's operations.
pub struct Sandbox {
    pub memory: Memory,
    pub ledger_info: LedgerInfo,
    pub executor: Executor,
    pub validator: TxValidation,
    pub tx_storage: TxStorage,
}

impl Sandbox {
    /// The sandbox's structural invariant: the store's own invariants hold.
    pub open spec fn wf(&self) -> bool {
        self.memory.wf()
    }

    /// A fresh sandbox: an empty store, the initial ledger context, and no
    /// records.
    pub fn new() -> (r: Sandbox)
        ensures
            r.wf(),
            r.memory@ == Map::<Seq<u8>, (LedgerEntryV, Option<u32>)>::empty(),
            r.tx_storage@ == Map::<Seq<char>, TransactionInfo>::empty(),
            r.ledger_info@.network_id == crate::ledger_info::initial_network_id(),
            r.ledger_info@.sequence_number == 1_000_000u32,
            r.ledger_info@.timestamp == 12_345_678u64,
    {
        Sandbox {
            memory: Memory::new(),
            ledger_info: get_initial_ledger_info(),
            executor: Executor::new(),
            validator: TxValidation::new(),
            tx_storage: TxStorage::new(),
        }
    }

    /// The current ledger context.
    pub fn get_ledger_info(&self) -> (r: &LedgerInfo)
        ensures
            r == &self.ledger_info,
    {
        &self.ledger_info
    }

    /// Sets the current timestamp. Negative times wrap, as the caller's
    /// interface hands the time over signed.
    pub fn set_time(&mut self, time: i64)
        ensures
            final(self).ledger_info@ == (LedgerInfo {
                timestamp: time as u64,
                ..old(self).ledger_info
            })@,
            final(self).memory == old(self).memory,
            final(self).tx_storage == old(self).tx_storage,
    {
        self.ledger_info.timestamp = time as u64;
    }

    /// Sets the current ledger sequence number.
    pub fn set_sequence(&mut self, seq: u32)
        ensures
            final(self).ledger_info@ == (LedgerInfo {
                sequence_number: seq,
                ..old(self).ledger_info
            })@,
            final(self).memory == old(self).memory,
            final(self).tx_storage == old(self).tx_storage,
    {
        self.ledger_info.sequence_number = seq;
    }

    /// Funds an account: inserts an account entry with the given identity
    /// and starting balance, a sequence number of zero and no extra
    /// signers, replacing whatever was stored under that account before.
    /// Rejects an identity that is not 32 bytes.
    pub fn fund_account(&mut self, account: Vec<u8>, balance: i64) -> (r: Result<
        (),
        SandboxError,
    >)
        requires
            old(self).wf(),
        ensures
            final(self).wf(),
            final(self).ledger_info == old(self).ledger_info,
            final(self).tx_storage == old(self).tx_storage,
            account@.len() == 32 ==> r is Ok && final(self).memory@ == old(self).memory@.insert(
                account_key_of(account@),
                (funded_entry(account@, balance), None),
            ),
            account@.len() != 32 ==> r is Err && final(self).memory@ == old(self).memory@,
    {
        let mut thresholds: Vec<u8> = Vec::new();
        thresholds.push(1);
        thresholds.push(0);
        thresholds.push(0);
        thresholds.push(0);
        assert(thresholds@ =~= seq![1u8, 0u8, 0u8, 0u8]);
        if account.len() != 32 {
            return Err(
                SandboxError::InvalidInput(
                    String::from_str("an account identity must be 32 bytes"),
                ),
            );
        }
        let encoded = match encode_account_entry(&account, balance, 0, &thresholds, 0) {
            Some(e) => e,
            None => {
                return Err(
                    SandboxError::InvalidInput(
                        String::from_str("the account entry could not be encoded"),
                    ),
                );
            },
        };
        let key = LedgerKey::Account { account_id: clone_bytes(&account) };
        let enc_key = key.encode();
        let ghost accv = account@;
        let entry = LedgerEntry {
            last_modified_ledger_seq: 0,
            data: EntryData::Account(
                AccountEntry { account_id: account, balance, seq_num: 0, signers: Vec::new() },
            ),
            encoded,
        };
        proof {
            assert(Seq::<crate::entry::Signer>::empty().map_values(
                |s: crate::entry::Signer| s@,
            ) =~= Seq::<crate::entry::SignerV>::empty());
            assert(entry@ =~= funded_entry(accv, balance));
        }
        self.memory.upsert(enc_key, entry, None);
        Ok(())
    }

    /// The stored account entry for an identity, or why there is none.
    pub fn get_account(&self, account: &Vec<u8>) -> (r: Result<AccountEntry, SandboxError>)
        requires
            self.wf(),
        ensures
            match r {
                Ok(a) => self.memory@.contains_key(account_key_of(account@))
                    && self.memory@[account_key_of(account@)].0.data == EntryDataV::Account(a@),
                Err(_) => balance_spec(self.memory@, account@) is None,
            },
    {
        let key = LedgerKey::Account { account_id: clone_bytes(account) };
        let enc_key = key.encode();
        match self.memory.get(&enc_key) {
            Some(slot) => match &slot.entry.data {
                EntryData::Account(a) => Ok(a.duplicate()),
                _ => Err(SandboxError::NotFound),
            },
            None => Err(SandboxError::NotFound),
        }
    }

    /// The stored balance for an account, or why there is none.
    pub fn get_balance(&self, account: &Vec<u8>) -> (r: Result<i64, SandboxError>)
        requires
            self.wf(),
        ensures
            match r {
                Ok(b) => balance_spec(self.memory@, account@) == Some(b),
                Err(_) => balance_spec(self.memory@, account@) is None,
            },
    {
        match self.get_account(account) {
            Ok(a) => Ok(a.balance),
            Err(e) => Err(e),
        }
    }

    /// The stored entry under a ledger key, for diagnostic access.
    pub fn ledger_entry(&self, key: &LedgerKey) -> (r: Option<&StoredEntry>)
        requires
            self.wf(),
        ensures
            match r {
                Some(e) => self.memory@.contains_key(key_bytes(key@)) && self.memory@[key_bytes(
                    key@,
                )] == (e.entry@, e.ttl),
                None => !self.memory@.contains_key(key_bytes(key@)),
            },
    {
        let enc = key.encode();
        self.memory.get(&enc)
    }

    /// The sandbox's identity: its passphrase and protocol version.
    pub fn get_network_info(&self) -> (r: NetworkInfo)
        ensures
            r.passphrase@ == "mars-rover; sandbox environment"@,
            r.protocol_version == self.ledger_info@.protocol_version,
    {
        NetworkInfo {
            passphrase: String::from_str(crate::ledger_info::network_passphrase()),
            protocol_version: self.ledger_info.protocol_version,
        }
    }

    /// A contract-data entry by contract address image, key image and
    /// durability: its payload and bookkeeping, or why there is none. The
    /// response carries the key and payload as base64 wire images.
    pub fn get_contract_data(
        &self,
        contract: Vec<u8>,
        key: Vec<u8>,
        durability: Durability,
    ) -> (r: Result<LedgerEntryResult, SandboxError>)
        requires
            self.wf(),
        ensures
            ({
                let kb = key_bytes(
                    LedgerKeyV::ContractData { contract: contract@, key: key@, durability },
                );
                match r {
                    Ok(res) => {
                        &&& self.memory@.contains_key(kb)
                        &&& res.last_modified_ledger_seq == Some(
                            self.memory@[kb].0.last_modified_ledger_seq,
                        )
                        &&& res.live_until_ledger_seq == self.memory@[kb].1
                        &&& res.key@ == base64_of(kb)
                        &&& (crate::engine::data_xdr_of(self.memory@[kb].0.encoded) matches Some(
                            d,
                        ) ==> res.val@ == base64_of(d))
                    },
                    Err(SandboxError::NotFound) => !self.memory@.contains_key(kb),
                    Err(SandboxError::Encoding(_)) => self.memory@.contains_key(kb)
                        && crate::engine::data_xdr_of(self.memory@[kb].0.encoded) is None,
                    Err(_) => false,
                }
            }),
    {
        let lkey = LedgerKey::ContractData { contract, key, durability };
        let enc_key = lkey.encode();
        let slot = match self.memory.get(&enc_key) {
            Some(s) => s,
            None => {
                return Err(SandboxError::NotFound);
            },
        };
        let data_image = match entry_data_xdr(&slot.entry.encoded) {
            Some(d) => d,
            None => {
                return Err(
                    SandboxError::Encoding(
                        String::from_str("the stored entry image could not be re-encoded"),
                    ),
                );
            },
        };
        Ok(
            LedgerEntryResult {
                last_modified_ledger_seq: Some(slot.entry.last_modified_ledger_seq),
                key: base64_encode(&enc_key),
                val: base64_encode(&data_image),
                live_until_ledger_seq: slot.ttl,
            },
        )
    }

    /// Advances the source account's sequence number by one and stamps the
    /// entry with the current ledger sequence, patching the stored wire
    /// image in place so every other field — signers included — is kept.
    /// Fails, leaving the store unchanged, when the account is absent, is
    /// not an account entry, sits at the largest sequence number, or
    /// carries a malformed image.
    fn apply_account_changes(&mut self, account_id: &Vec<u8>) -> (r: Result<(), SandboxError>)
        requires
            old(self).wf(),
        ensures
            final(self).wf(),
            final(self).ledger_info == old(self).ledger_info,
            final(self).tx_storage == old(self).tx_storage,
            final(self).memory@ == bump_spec(
                old(self).memory@,
                account_id@,
                old(self).ledger_info@.sequence_number,
            ),
            r is Err ==> final(self).memory@ == old(self).memory@,
    {
        let key = LedgerKey::Account { account_id: clone_bytes(account_id) };
        let enc_key = key.encode();
        let lm = self.ledger_info.sequence_number;
        let (new_entry, ttl) = match self.memory.get(&enc_key) {
            None => {
                return Err(
                    SandboxError::Execution(String::from_str("the source account vanished")),
                );
            },
            Some(slot) => {
                let account = match &slot.entry.data {
                    EntryData::Account(a) => a,
                    _ => {
                        return Err(
                            SandboxError::Execution(
                                String::from_str("the source key does not hold an account"),
                            ),
                        );
                    },
                };
                if account.seq_num == i64::MAX {
                    return Err(
                        SandboxError::Execution(
                            String::from_str("the sequence number cannot advance further"),
                        ),
                    );
                }
                if slot.entry.encoded.len() < 60 {
                    return Err(
                        SandboxError::Execution(
                            String::from_str("the stored account image is malformed"),
                        ),
                    );
                }
                let new_seq = account.seq_num + 1;
                let mut image: Vec<u8> = Vec::new();
                crate::entry::push_u32_be(&mut image, lm);
                crate::entry::push_range(&mut image, &slot.entry.encoded, 4, 52);
                crate::entry::push_i64_be(&mut image, new_seq);
                crate::entry::push_range(
                    &mut image,
                    &slot.entry.encoded,
                    60,
                    slot.entry.encoded.len(),
                );
                proof {
                    assert(slot.entry.encoded@.subrange(60, slot.entry.encoded@.len() as int)
                        =~= slot.entry.encoded@.skip(60));
                    assert(image@ =~= patched_account_image(slot.entry.encoded@, lm, new_seq));
                }
                let updated = AccountEntry {
                    account_id: clone_bytes(&account.account_id),
                    balance: account.balance,
                    seq_num: new_seq,
                    signers: clone_signers(&account.signers),
                };
                (
                    LedgerEntry {
                        last_modified_ledger_seq: lm,
                        data: EntryData::Account(updated),
                        encoded: image,
                    },
                    slot.ttl,
                )
            },
        };
        self.memory.upsert(clone_bytes(&enc_key), new_entry, ttl);
        assert(self.memory@ =~= bump_spec(
            old(self).memory@,
            account_id@,
            old(self).ledger_info@.sequence_number,
        ));
        Ok(())
    }

    /// Validates and executes a transaction without touching the sequence
    /// number or the record store: the outcome of the validator, then of
    /// the orchestrator. On rejection or on an engine failure the store is
    /// unchanged.
    pub fn send_transaction_inner(&mut self, envelope: &TransactionEnvelope) -> (r: Result<
        ExecutionResult,
        SandboxError,
    >)
        requires
            old(self).wf(),
        ensures
            final(self).wf(),
            final(self).ledger_info == old(self).ledger_info,
            final(self).tx_storage == old(self).tx_storage,
            match validate_spec(envelope@, old(self).ledger_info@, old(self).memory@) {
                Err(e) => (r matches Err(SandboxError::Validation(ve)) && ve == e && final(self).memory@ == old(self).memory@),
                Ok(_) => {
                    &&& (exists|cs: Seq<EntryChangeV>|
                        final(self).memory@ == apply_fold(old(self).memory@, cs) && #[trigger]
                        change_entries_decoded(cs))
                    &&& (r is Err ==> (r matches Err(SandboxError::Execution(m)) && final(self).memory@ == old(self).memory@))
                    &&& (r matches Ok(res) ==> res.fee_charges == envelope@.fee as i64 && (
                    res.result is Err ==> final(self).memory@ == old(self).memory@))
                },
            },
    {
        match self.validator.validate(envelope, &self.ledger_info, &self.memory) {
            Err(e) => {
                proof {
                    let cs = Seq::<EntryChangeV>::empty();
                    assert(apply_fold(old(self).memory@, cs) == old(self).memory@);
                    assert(change_entries_decoded(cs));
                }
                return Err(SandboxError::Validation(e));
            },
            Ok(_) => {},
        }
        match self.executor.send_transaction(envelope, &self.ledger_info, &mut self.memory) {
            Ok(res) => Ok(res),
            Err(m) => {
                proof {
                    let cs = Seq::<EntryChangeV>::empty();
                    assert(apply_fold(old(self).memory@, cs) == old(self).memory@);
                    assert(change_entries_decoded(cs));
                }
                Err(SandboxError::Execution(m))
            },
        }
    }

    /// Submits a transaction: validates it, executes it, applies the
    /// engine's changes, advances the source account's sequence number,
    /// and records the outcome under the transaction's hash.
    ///
    /// Submission is side-effect-free on rejection: when validation fails,
    /// the error is returned and no state — store, records or ledger
    /// context — has changed. Once validation has passed, the outcome is
    /// always recorded, even when the engine cannot be driven or the
    /// sequence bump itself fails. A logical failure of the call is a
    /// normal response carrying the failed result and diagnostic events.
    pub fn send_transaction(&mut self, envelope: TransactionEnvelope) -> (r: Result<
        SendTransactionResponse,
        SandboxError,
    >)
        requires
            old(self).wf(),
        ensures
            final(self).wf(),
            final(self).ledger_info == old(self).ledger_info,
            match validate_spec(envelope@, old(self).ledger_info@, old(self).memory@) {
                Err(e) => (r matches Err(SandboxError::Validation(ve)) && ve == e && final(self).memory@ == old(self).memory@ && final(self).tx_storage@ == old(self).tx_storage@),
                Ok(_) => {
                    let hhex = hex_of(
                        tx_hash_of(old(self).ledger_info@.network_id, envelope@.tx_body_xdr),
                    );
                    &&& (exists|cs: Seq<EntryChangeV>|
                        final(self).memory@ == bump_spec(
                            apply_fold(old(self).memory@, cs),
                            envelope@.source_account,
                            old(self).ledger_info@.sequence_number,
                        ) && #[trigger] change_entries_decoded(cs))
                    &&& match r {
                        Ok(resp) => {
                            &&& final(self).tx_storage@ == old(self).tx_storage@.insert(
                                hhex,
                                final(self).tx_storage@[hhex],
                            )
                            &&& final(self).tx_storage@.contains_key(hhex)
                            &&& final(self).tx_storage@[hhex].envelope@ == envelope@
                            &&& final(self).tx_storage@[hhex].ledger_info@ == old(self).ledger_info@
                            &&& resp.base.hash@ == hhex
                            &&& resp.base.latest_ledger == old(self).ledger_info@.sequence_number
                            &&& resp.base.latest_ledger_close_time == old(self).ledger_info@.timestamp
                            &&& (resp.base.status == SendTransactionStatus::Pending <==> final(self).tx_storage@[hhex].result is Ok)
                            &&& (resp.base.status == SendTransactionStatus::Pending
                                || resp.base.status == SendTransactionStatus::Error)
                            &&& (resp.error_result is Some <==> resp.base.status
                                == SendTransactionStatus::Error)
                            &&& (resp.error_result matches Some(er) ==> er@ == tx_result_b64_of(
                                envelope@.fee as i64,
                                false,
                                tx_hash_of(
                                    old(self).ledger_info@.network_id,
                                    envelope@.tx_body_xdr,
                                ),
                            ))
                            &&& (resp.diagnostic_events is Some <==> resp.base.status
                                == SendTransactionStatus::Error)
                            &&& (resp.diagnostic_events matches Some(ev) ==> ev@.len() == final(self).tx_storage@[hhex].events@.len() && (forall|j: int|
                                0 <= j < ev@.len() ==> (#[trigger] ev@[j])@ == final(self).tx_storage@[hhex].events@[j]@))
                        },
                        Err(err) => {
                            &&& err matches SandboxError::Execution(_)
                            &&& final(self).tx_storage@ == old(self).tx_storage@.insert(
                                hhex,
                                final(self).tx_storage@[hhex],
                            )
                            &&& final(self).tx_storage@.contains_key(hhex)
                            &&& final(self).tx_storage@[hhex].envelope@ == envelope@
                            &&& final(self).tx_storage@[hhex].ledger_info@ == old(self).ledger_info@
                        },
                    }
                },
            },
    {
        match self.validator.validate(&envelope, &self.ledger_info, &self.memory) {
            Err(e) => {
                return Err(SandboxError::Validation(e));
            },
            Ok(_) => {},
        }
        let exec_outcome = self.executor.send_transaction(
            &envelope,
            &self.ledger_info,
            &mut self.memory,
        );
        let bump_outcome = self.apply_account_changes(&envelope.source_account);
        let hash = tx_hash(&envelope, &self.ledger_info);
        let hash_hex = hex_encode(&hash);
        proof {
            if exec_outcome is Err {
                let cs = Seq::<EntryChangeV>::empty();
                assert(apply_fold(old(self).memory@, cs) == old(self).memory@);
                assert(change_entries_decoded(cs));
            }
        }
        match exec_outcome {
            Err(msg) => {
                let stored_msg = msg.clone();
                self.tx_storage.insert(
                    hash_hex,
                    TransactionInfo {
                        envelope,
                        result: Err(stored_msg),
                        events: Vec::new(),
                        ledger_info: self.ledger_info.duplicate(),
                    },
                );
                let returned = match bump_outcome {
                    Err(SandboxError::Execution(m)) => m,
                    Err(_) => String::from_str("the sequence number could not be advanced"),
                    Ok(_) => msg,
                };
                Err(SandboxError::Execution(returned))
            },
            Ok(exec_result) => {
                let ExecutionResult { fee_charges, result, events } = exec_result;
                let is_ok = result.is_ok();
                let status = if is_ok {
                    SendTransactionStatus::Pending
                } else {
                    SendTransactionStatus::Error
                };
                let error_result = if is_ok {
                    None
                } else {
                    match encode_tx_result(fee_charges, false, &hash) {
                        Some(s) => Some(s),
                        None => {
                            proof {
                                assert(false);
                            }
                            None
                        },
                    }
                };
                let diagnostic_events = if is_ok {
                    None
                } else {
                    Some(crate::entry::clone_byte_list(&events))
                };
                let response_hash = hash_hex.clone();
                self.tx_storage.insert(
                    hash_hex,
                    TransactionInfo {
                        envelope,
                        result,
                        events,
                        ledger_info: self.ledger_info.duplicate(),
                    },
                );
                match bump_outcome {
                    Err(e) => {
                        let returned = match e {
                            SandboxError::Execution(m) => m,
                            _ => String::from_str(
                                "the sequence number could not be advanced",
                            ),
                        };
                        Err(SandboxError::Execution(returned))
                    },
                    Ok(_) => Ok(
                        SendTransactionResponse {
                            base: BaseSendTransactionResponse {
                                status,
                                hash: response_hash,
                                latest_ledger: self.ledger_info.sequence_number,
                                latest_ledger_close_time: self.ledger_info.timestamp,
                            },
                            error_result,
                            diagnostic_events,
                        },
                    ),
                }
            },
        }
    }

    /// Looks a transaction hash up in the record store. A hash no
    /// submission was recorded under yields the not-found response; a
    /// recorded submission yields the success or failure response rebuilt
    /// from its record. The response is a function of the record store,
    /// the ledger context and the hash alone, so two lookups with no
    /// submission in between return the same thing.
    pub fn get_transaction(&self, hash: String) -> (r: Result<
        GetTransactionResponse,
        SandboxError,
    >)
        ensures
            match r {
                Ok(GetTransactionResponse::NotFound(m)) => {
                    &&& !self.tx_storage@.contains_key(hash@)
                    &&& m.tx_hash@ == hash@
                    &&& m.latest_ledger == self.ledger_info@.sequence_number
                    &&& m.latest_ledger_close_time == self.ledger_info@.timestamp
                    &&& m.oldest_ledger == 0
                    &&& m.oldest_ledger_close_time == 0
                },
                Ok(GetTransactionResponse::Success(s)) => {
                    let rec = self.tx_storage@[hash@];
                    &&& self.tx_storage@.contains_key(hash@)
                    &&& rec.result is Ok
                    &&& hex_parse_ok(hash@) && hex_parsed(hash@).len() == 32
                    &&& s.tx_hash@ == hash@
                    &&& s.latest_ledger == self.ledger_info@.sequence_number
                    &&& s.latest_ledger_close_time == self.ledger_info@.timestamp
                    &&& s.oldest_ledger == 0 && s.oldest_ledger_close_time == 0
                    &&& s.ledger == rec.ledger_info@.sequence_number
                    &&& s.created_at == rec.ledger_info@.timestamp
                    &&& s.application_order == 0 && s.fee_bump == false
                    &&& s.envelope_xdr@ == rec.envelope.envelope_xdr@
                    &&& s.result_xdr@ == tx_result_b64_of(
                        rec.envelope.fee as i64,
                        true,
                        hex_parsed(hash@),
                    )
                    &&& s.result_meta_xdr@ == Seq::<char>::empty()
                    &&& s.diagnostic_events_xdr is None
                    &&& (s.return_value matches Some(v) && rec.result matches Ok(o) ==> v@ == o@)
                    &&& s.return_value is Some
                    &&& s.events.transaction_events_xdr@.len() == 0
                    &&& s.events.contract_events_xdr@.len() == 1
                    &&& s.events.contract_events_xdr@[0]@.len() == rec.events@.len()
                    &&& (forall|j: int|
                        0 <= j < rec.events@.len() ==> (
                        #[trigger] s.events.contract_events_xdr@[0]@[j])@ == rec.events@[j]@)
                },
                Ok(GetTransactionResponse::Failed(f)) => {
                    let rec = self.tx_storage@[hash@];
                    &&& self.tx_storage@.contains_key(hash@)
                    &&& rec.result is Err
                    &&& f.tx_hash@ == hash@
                    &&& f.latest_ledger == self.ledger_info@.sequence_number
                    &&& f.latest_ledger_close_time == self.ledger_info@.timestamp
                    &&& f.oldest_ledger == 0 && f.oldest_ledger_close_time == 0
                    &&& f.ledger == rec.ledger_info@.sequence_number
                    &&& f.created_at == rec.ledger_info@.timestamp
                    &&& f.application_order == 0 && f.fee_bump == false
                    &&& f.envelope_xdr@ == rec.envelope.envelope_xdr@
                    &&& f.result_xdr@ == tx_result_b64_of(
                        rec.envelope.fee as i64,
                        false,
                        Seq::empty(),
                    )
                    &&& f.result_meta_xdr@ == Seq::<char>::empty()
                    &&& f.diagnostic_events_xdr is None
                    &&& f.events.transaction_events_xdr@.len() == 0
                    &&& f.events.contract_events_xdr@.len() == 1
                    &&& f.events.contract_events_xdr@[0]@.len() == rec.events@.len()
                    &&& (forall|j: int|
                        0 <= j < rec.events@.len() ==> (
                        #[trigger] f.events.contract_events_xdr@[0]@[j])@ == rec.events@[j]@)
                },
                Err(SandboxError::Encoding(_)) => self.tx_storage@.contains_key(hash@)
                    && self.tx_storage@[hash@].result is Ok && !(hex_parse_ok(hash@)
                    && hex_parsed(hash@).len() == 32),
                Err(_) => false,
            },
    {
        let info = match self.tx_storage.get(&hash) {
            None => {
                return Ok(
                    GetTransactionResponse::NotFound(
                        GetMissingTransactionResponse {
                            tx_hash: hash,
                            latest_ledger: self.ledger_info.sequence_number,
                            latest_ledger_close_time: self.ledger_info.timestamp,
                            oldest_ledger: 0,
                            oldest_ledger_close_time: 0,
                        },
                    ),
                );
            },
            Some(info) => info,
        };
        let events = TransactionEvents {
            transaction_events_xdr: Vec::new(),
            contract_events_xdr: {
                let mut outer: Vec<Vec<Vec<u8>>> = Vec::new();
                outer.push(crate::entry::clone_byte_list(&info.events));
                outer
            },
        };
        match &info.result {
            Ok(return_value) => {
                let hash_bytes = match hex_decode(&hash) {
                    Some(b) => b,
                    None => {
                        return Err(
                            SandboxError::Encoding(
                                String::from_str("the transaction hash is not hexadecimal"),
                            ),
                        );
                    },
                };
                if hash_bytes.len() != 32 {
                    return Err(
                        SandboxError::Encoding(
                            String::from_str("the transaction hash is not 32 bytes"),
                        ),
                    );
                }
                let result_xdr = match encode_tx_result(
                    info.envelope.fee as i64,
                    true,
                    &hash_bytes,
                ) {
                    Some(s) => s,
                    None => {
                        proof {
                            assert(false);
                        }
                        return Err(SandboxError::Encoding(String::new()));
                    },
                };
                Ok(
                    GetTransactionResponse::Success(
                        GetSuccessfulTransactionResponse {
                            tx_hash: hash,
                            latest_ledger: self.ledger_info.sequence_number,
                            latest_ledger_close_time: self.ledger_info.timestamp,
                            oldest_ledger: 0,
                            oldest_ledger_close_time: 0,
                            ledger: info.ledger_info.sequence_number,
                            created_at: info.ledger_info.timestamp,
                            application_order: 0,
                            fee_bump: false,
                            envelope_xdr: info.envelope.envelope_xdr.clone(),
                            result_xdr,
                            result_meta_xdr: String::new(),
                            diagnostic_events_xdr: None,
                            return_value: Some(clone_bytes(return_value)),
                            events,
                        },
                    ),
                )
            },
            Err(_) => {
                let empty_hash: Vec<u8> = Vec::new();
                let result_xdr = match encode_tx_result(
                    info.envelope.fee as i64,
                    false,
                    &empty_hash,
                ) {
                    Some(s) => s,
                    None => {
                        proof {
                            assert(false);
                        }
                        return Err(SandboxError::Encoding(String::new()));
                    },
                };
                Ok(
                    GetTransactionResponse::Failed(
                        GetFailedTransactionResponse {
                            tx_hash: hash,
                            latest_ledger: self.ledger_info.sequence_number,
                            latest_ledger_close_time: self.ledger_info.timestamp,
                            oldest_ledger: 0,
                            oldest_ledger_close_time: 0,
                            ledger: info.ledger_info.sequence_number,
                            created_at: info.ledger_info.timestamp,
                            application_order: 0,
                            fee_bump: false,
                            envelope_xdr: info.envelope.envelope_xdr.clone(),
                            result_xdr,
                            result_meta_xdr: String::new(),
                            diagnostic_events_xdr: None,
                            events,
                        },
                    ),
                )
            },
        }
    }
}

} // verus!
