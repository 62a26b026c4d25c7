//! Read-only validation of a transaction against the ledger store.
//!
//! The checks run in a fixed order and stop at the first failure: the source
//! account must exist, the transaction's sequence number must be one past
//! the account's, the balance must cover the declared fee, the current
//! timestamp must lie inside a declared time window, and the signatures must
//! carry a total weight of exactly one. Every matched, verifying signature
//! contributes a fixed weight of one, regardless of the signer's configured
//! weight. Extended preconditions are accepted but not enforced. Validation
//! never mutates any state.

use vstd::prelude::*;

use crate::crypto::{ed25519_valid, ed25519_verify};
use crate::entry::{
    clone_bytes, key_bytes, AccountEntry, AccountEntryV, EntryData, EntryDataV, LedgerEntryV,
    LedgerKey, LedgerKeyV, SignerKey, SignerKeyV, SignerV,
};
use crate::envelope::{DecoratedSignatureV, Preconditions, TransactionEnvelope,
    TransactionEnvelopeV};
use crate::memory::Memory;
use crate::model::{LedgerInfo, LedgerInfoV};
use crate::utils::{tx_hash, tx_hash_of};

verus! {

/// Why validation rejected a transaction.
#[derive(Clone, Copy, Debug, PartialEq, Eq, Structural)]
pub enum ValidationError {
    /// The source account is not in the store.
    AccountNotFound,
    /// The transaction's sequence number is not one past the account's.
    SequenceMismatch { expected: i64, got: i64 },
    /// The account's balance does not cover the declared fee.
    InsufficientBalance { have: i64, need: i64 },
    /// The current timestamp lies outside the declared time window.
    TimeBoundViolation { now: u64, min_time: u64, max_time: u64 },
    /// A signature's hint matches neither the master key nor any listed
    /// Ed25519 signer.
    NoMatchingSigner,
    /// A matched signature does not verify against the signing hash.
    InvalidSignature,
    /// The total signature weight is not exactly one.
    InvalidWeight { got: usize, expected: usize },
}

/// The store key under which an account with this identity lives.
pub open spec fn account_key_of(id: Seq<u8>) -> Seq<u8> {
    key_bytes(LedgerKeyV::Account { account_id: id })
}

/// Whether a four-byte hint names a key: it equals the key's last four
/// bytes.
pub open spec fn hint_matches(key: Seq<u8>, hint: Seq<u8>) -> bool {
    key.len() >= 4 && hint.len() == 4 && key.skip(key.len() - 4) == hint
}

/// The signer key a hint resolves to among the account's listed signers,
/// walked in order. A signer of any other kind than Ed25519 can never match
/// a hint and is skipped.
pub open spec fn resolve_from_signers(signers: Seq<SignerV>, hint: Seq<u8>) -> Option<Seq<u8>>
    decreases signers.len(),
{
    if signers.len() == 0 {
        None
    } else {
        match signers.first().key {
            SignerKeyV::Other => resolve_from_signers(signers.drop_first(), hint),
            SignerKeyV::Ed25519(k) => if hint_matches(k, hint) {
                Some(k)
            } else {
                resolve_from_signers(signers.drop_first(), hint)
            },
        }
    }
}

/// The verifying key a signature hint resolves to: the account's master key
/// when the hint names it, else the first listed signer it names.
pub open spec fn resolve_signer(account: AccountEntryV, hint: Seq<u8>) -> Option<Seq<u8>> {
    if hint_matches(account.account_id, hint) {
        Some(account.account_id)
    } else {
        resolve_from_signers(account.signers, hint)
    }
}

/// Whether a signature verifies: the key is 32 bytes, the signature 64, and
/// Ed25519 verification succeeds.
pub open spec fn sig_verifies(pk: Seq<u8>, msg: Seq<u8>, sig: Seq<u8>) -> bool {
    pk.len() == 32 && sig.len() == 64 && ed25519_valid(pk, msg, sig)
}

/// Outcome of checking the signatures from index `i` on: the first failure,
/// or the accumulated weight — one per signature.
pub open spec fn check_signatures_from(
    sigs: Seq<DecoratedSignatureV>,
    account: AccountEntryV,
    hash: Seq<u8>,
    i: int,
) -> Result<int, ValidationError>
    decreases sigs.len() - i,
{
    if i < 0 || i >= sigs.len() {
        Ok(0)
    } else {
        match resolve_signer(account, sigs[i].hint) {
            Option::None => Err(ValidationError::NoMatchingSigner),
            Option::Some(pk) => if !sig_verifies(pk, hash, sigs[i].signature) {
                Err(ValidationError::InvalidSignature)
            } else {
                match check_signatures_from(sigs, account, hash, i + 1) {
                    Ok(w) => Ok(w + 1),
                    Err(e) => Err(e),
                }
            },
        }
    }
}

/// The expected next sequence number, saturating at the largest value.
pub open spec fn expected_seq(stored: i64) -> i64 {
    if stored == i64::MAX {
        i64::MAX
    } else {
        (stored + 1) as i64
    }
}

/// The time-window check: passes unless a declared window excludes `now`.
pub open spec fn time_check(cond: Preconditions, now: u64) -> Result<(), ValidationError> {
    match cond {
        Preconditions::Time { min_time, max_time } => if now < min_time || now > max_time {
            Err(ValidationError::TimeBoundViolation { now, min_time, max_time })
        } else {
            Ok(())
        },
        _ => Ok(()),
    }
}

/// The whole validation outcome, in check order with the first failure
/// winning: account lookup, sequence, balance, time bounds, signatures.
pub open spec fn validate_spec(
    env: TransactionEnvelopeV,
    info: LedgerInfoV,
    mem: Map<Seq<u8>, (LedgerEntryV, Option<u32>)>,
) -> Result<(), ValidationError> {
    let akey = account_key_of(env.source_account);
    if !mem.contains_key(akey) {
        Err(ValidationError::AccountNotFound)
    } else {
        match mem[akey].0.data {
            EntryDataV::Account(a) => if !(a.seq_num < i64::MAX && env.seq_num == a.seq_num
                + 1) {
                Err(
                    ValidationError::SequenceMismatch {
                        expected: expected_seq(a.seq_num),
                        got: env.seq_num,
                    },
                )
            } else if a.balance < env.fee as i64 {
                Err(
                    ValidationError::InsufficientBalance {
                        have: a.balance,
                        need: env.fee as i64,
                    },
                )
            } else {
                match time_check(env.cond, info.timestamp) {
                    Err(e) => Err(e),
                    Ok(_) => match check_signatures_from(
                        env.signatures,
                        a,
                        tx_hash_of(info.network_id, env.tx_body_xdr),
                        0,
                    ) {
                        Err(e) => Err(e),
                        Ok(w) => if w != 1 {
                            Err(ValidationError::InvalidWeight { got: w as usize, expected: 1 })
                        } else {
                            Ok(())
                        },
                    },
                }
            },
            _ => Err(ValidationError::AccountNotFound),
        }
    }
}

/// A signature check that succeeds vouches for every signature it covered:
/// each one resolved to a key and verified.
proof fn lemma_check_ok_covers(
    sigs: Seq<DecoratedSignatureV>,
    account: AccountEntryV,
    hash: Seq<u8>,
    j: int,
    i: int,
)
    requires
        0 <= j <= i < sigs.len(),
        check_signatures_from(sigs, account, hash, j) is Ok,
    ensures
        resolve_signer(account, sigs[i].hint) is Some,
        (resolve_signer(account, sigs[i].hint) matches Some(pk) ==> sig_verifies(
            pk,
            hash,
            sigs[i].signature,
        )),
    decreases i - j,
{
    if j < i {
        lemma_check_ok_covers(sigs, account, hash, j + 1, i);
    }
}

/// A transaction with no signatures at all is never accepted: its total
/// signature weight is zero, not one.
pub proof fn lemma_zero_signatures_rejected(
    env: TransactionEnvelopeV,
    info: LedgerInfoV,
    mem: Map<Seq<u8>, (LedgerEntryV, Option<u32>)>,
)
    requires
        env.signatures.len() == 0,
    ensures
        validate_spec(env, info, mem) is Err,
{
}

/// A transaction carrying a signature whose hint matches no known key is
/// never accepted.
pub proof fn lemma_unmatched_hint_rejected(
    env: TransactionEnvelopeV,
    info: LedgerInfoV,
    mem: Map<Seq<u8>, (LedgerEntryV, Option<u32>)>,
    account: AccountEntryV,
    i: int,
)
    requires
        mem.contains_key(account_key_of(env.source_account)),
        mem[account_key_of(env.source_account)].0.data == EntryDataV::Account(account),
        0 <= i < env.signatures.len(),
        resolve_signer(account, env.signatures[i].hint) is None,
    ensures
        validate_spec(env, info, mem) is Err,
{
    let hash = tx_hash_of(info.network_id, env.tx_body_xdr);
    if check_signatures_from(env.signatures, account, hash, 0) is Ok {
        lemma_check_ok_covers(env.signatures, account, hash, 0, i);
    }
}

/// A transaction with exactly one correctly-matching, correctly-verifying
/// signature is accepted, absent other validation failures.
pub proof fn lemma_single_valid_signature_accepted(
    env: TransactionEnvelopeV,
    info: LedgerInfoV,
    mem: Map<Seq<u8>, (LedgerEntryV, Option<u32>)>,
    account: AccountEntryV,
    pk: Seq<u8>,
)
    requires
        mem.contains_key(account_key_of(env.source_account)),
        mem[account_key_of(env.source_account)].0.data == EntryDataV::Account(account),
        account.seq_num < i64::MAX,
        env.seq_num == account.seq_num + 1,
        account.balance >= env.fee as i64,
        time_check(env.cond, info.timestamp) is Ok,
        env.signatures.len() == 1,
        resolve_signer(account, env.signatures[0].hint) == Some(pk),
        sig_verifies(pk, tx_hash_of(info.network_id, env.tx_body_xdr), env.signatures[0].signature),
    ensures
        validate_spec(env, info, mem) == Ok::<(), ValidationError>(()),
{
    let hash = tx_hash_of(info.network_id, env.tx_body_xdr);
    assert(check_signatures_from(env.signatures, account, hash, 1) == Ok::<
        int,
        ValidationError,
    >(0));
    assert(check_signatures_from(env.signatures, account, hash, 0) == Ok::<
        int,
        ValidationError,
    >(1));
}

/// A transaction whose sequence number is not one past the stored one is
/// always rejected with a sequence mismatch.
pub proof fn lemma_stale_sequence_rejected(
    env: TransactionEnvelopeV,
    info: LedgerInfoV,
    mem: Map<Seq<u8>, (LedgerEntryV, Option<u32>)>,
    account: AccountEntryV,
)
    requires
        mem.contains_key(account_key_of(env.source_account)),
        mem[account_key_of(env.source_account)].0.data == EntryDataV::Account(account),
        env.seq_num != account.seq_num + 1,
    ensures
        validate_spec(env, info, mem) == Err::<(), ValidationError>(
            ValidationError::SequenceMismatch {
                expected: expected_seq(account.seq_num),
                got: env.seq_num,
            },
        ),
{
}

/// Whether a four-byte hint names a key, executably.
fn hint_matches_exec(key: &Vec<u8>, hint: &Vec<u8>) -> (r: bool)
    ensures
        r == hint_matches(key@, hint@),
{
    if key.len() < 4 || hint.len() != 4 {
        return false;
    }
    let n = key.len();
    let ok = key[n - 4] == hint[0] && key[n - 3] == hint[1] && key[n - 2] == hint[2] && key[n
        - 1] == hint[3];
    proof {
        let tail = key@.skip(n - 4);
        assert(tail.len() == 4);
        assert(tail[0] == key@[n as int - 4]);
        assert(tail[1] == key@[n as int - 3]);
        assert(tail[2] == key@[n as int - 2]);
        assert(tail[3] == key@[n as int - 1]);
        if ok {
            assert(tail =~= hint@);
        } else {
            if tail == hint@ {
                assert(tail[0] == hint@[0]);
                assert(tail[1] == hint@[1]);
                assert(tail[2] == hint@[2]);
                assert(tail[3] == hint@[3]);
            }
        }
    }
    ok
}

/// The verifying key a signature hint resolves to on this account, if any.
#[verifier::loop_isolation(false)]
fn resolve_signer_key(account: &AccountEntry, hint: &Vec<u8>) -> (r: Option<Vec<u8>>)
    ensures
        match r {
            Some(k) => resolve_signer(account@, hint@) == Some(k@),
            None => resolve_signer(account@, hint@) is None,
        },
{
    if hint_matches_exec(&account.account_id, hint) {
        return Some(clone_bytes(&account.account_id));
    }
    let ghost sv = account@.signers;
    proof {
        assert(sv.skip(0) =~= sv);
    }
    let mut i: usize = 0;
    while i < account.signers.len()
        invariant
            i <= account.signers@.len(),
            sv == account@.signers,
            sv.len() == account.signers@.len(),
            resolve_from_signers(sv, hint@) == resolve_from_signers(sv.skip(i as int), hint@),
        decreases account.signers@.len() - i,
    {
        proof {
            assert(sv[i as int] == account.signers@[i as int]@);
            assert(sv.skip(i as int).first() == sv[i as int]);
            assert(sv.skip(i as int).drop_first() =~= sv.skip(i as int + 1));
        }
        match &account.signers[i].key {
            SignerKey::Other => {
                proof {
                    assert(sv.skip(i as int).first().key is Other);
                    assert(resolve_from_signers(sv.skip(i as int), hint@)
                        == resolve_from_signers(sv.skip(i as int + 1), hint@));
                }
            },
            SignerKey::Ed25519(k) => {
                let matched = hint_matches_exec(k, hint);
                proof {
                    assert(sv.skip(i as int).first().key == SignerKeyV::Ed25519(k@));
                }
                if matched {
                    proof {
                        assert(resolve_from_signers(sv.skip(i as int), hint@) == Some(k@));
                    }
                    return Some(clone_bytes(k));
                }
                proof {
                    assert(resolve_from_signers(sv.skip(i as int), hint@)
                        == resolve_from_signers(sv.skip(i as int + 1), hint@));
                }
            },
        }
        i = i + 1;
    }
    proof {
        assert(sv.skip(sv.len() as int).len() == 0);
    }
    None
}

/// The transaction validator. It holds no state of its own; the store is
/// handed to each validation call.
pub struct TxValidation {}

impl TxValidation {
    /// A new validator.
    pub fn new() -> (r: TxValidation) {
        TxValidation {  }
    }

    /// Validates `envelope` against the current ledger info and store,
    /// returning exactly the outcome of [`validate_spec`]. No state is
    /// mutated.
    #[verifier::loop_isolation(false)]
    pub fn validate(
        &self,
        envelope: &TransactionEnvelope,
        ledger_info: &LedgerInfo,
        memory: &Memory,
    ) -> (r: Result<(), ValidationError>)
        requires
            memory.wf(),
        ensures
            r == validate_spec(envelope@, ledger_info@, memory@),
    {
        let account_key = LedgerKey::Account {
            account_id: clone_bytes(&envelope.source_account),
        };
        let akey = account_key.encode();
        let slot = match memory.get(&akey) {
            None => {
                return Err(ValidationError::AccountNotFound);
            },
            Some(s) => s,
        };
        let account = match &slot.entry.data {
            EntryData::Account(a) => a,
            _ => {
                return Err(ValidationError::AccountNotFound);
            },
        };
        let expected = if account.seq_num == i64::MAX {
            i64::MAX
        } else {
            account.seq_num + 1
        };
        if account.seq_num == i64::MAX || envelope.seq_num != expected {
            return Err(ValidationError::SequenceMismatch { expected, got: envelope.seq_num });
        }
        if account.balance < envelope.fee as i64 {
            return Err(
                ValidationError::InsufficientBalance {
                    have: account.balance,
                    need: envelope.fee as i64,
                },
            );
        }
        match envelope.cond {
            Preconditions::Time { min_time, max_time } => {
                let now = ledger_info.timestamp;
                if now < min_time || now > max_time {
                    return Err(ValidationError::TimeBoundViolation { now, min_time, max_time });
                }
            },
            _ => {},
        }
        let hash = tx_hash(envelope, ledger_info);
        let ghost sigs = envelope@.signatures;
        let ghost av = account@;
        let ghost hv = tx_hash_of(ledger_info@.network_id, envelope@.tx_body_xdr);
        let mut weight: usize = 0;
        let mut i: usize = 0;
        while i < envelope.signatures.len()
            invariant
                i <= envelope.signatures@.len(),
                weight == i,
                sigs == envelope@.signatures,
                sigs.len() == envelope.signatures@.len(),
                av == account@,
                hash@ == hv,
                check_signatures_from(sigs, av, hv, 0) == match check_signatures_from(
                    sigs,
                    av,
                    hv,
                    i as int,
                ) {
                    Ok(w) => Ok::<int, ValidationError>(w + i),
                    Err(e) => Err(e),
                },
            decreases envelope.signatures@.len() - i,
        {
            proof {
                assert(sigs[i as int] == envelope.signatures@[i as int]@);
            }
            let sig = &envelope.signatures[i];
            let pk = match resolve_signer_key(account, &sig.hint) {
                None => {
                    proof {
                        assert(check_signatures_from(sigs, av, hv, i as int) == Err::<
                            int,
                            ValidationError,
                        >(ValidationError::NoMatchingSigner));
                    }
                    return Err(ValidationError::NoMatchingSigner);
                },
                Some(pk) => pk,
            };
            let verified = ed25519_verify(&pk, &hash, &sig.signature);
            if !verified {
                proof {
                    assert(!sig_verifies(pk@, hv, sigs[i as int].signature));
                    assert(check_signatures_from(sigs, av, hv, i as int) == Err::<
                        int,
                        ValidationError,
                    >(ValidationError::InvalidSignature));
                }
                return Err(ValidationError::InvalidSignature);
            }
            proof {
                assert(sig_verifies(pk@, hv, sigs[i as int].signature));
                assert(check_signatures_from(sigs, av, hv, i as int)
                    == match check_signatures_from(sigs, av, hv, i as int + 1) {
                    Ok(w) => Ok::<int, ValidationError>(w + 1),
                    Err(e) => Err(e),
                });
            }
            weight = weight + 1;
            i = i + 1;
        }
        proof {
            assert(check_signatures_from(sigs, av, hv, sigs.len() as int) == Ok::<
                int,
                ValidationError,
            >(0));
        }
        if weight != 1 {
            return Err(ValidationError::InvalidWeight { got: weight, expected: 1 });
        }
        Ok(())
    }
}

} // verus!
