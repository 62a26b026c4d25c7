//! Execution orchestration: resolving the transaction's footprint against
//! the store, pre-compiling contract modules, invoking the execution
//! engine, and applying the changes it returns.

use vstd::prelude::*;
use vstd::string::StringExecFns;

use crate::engine::{
    as_account_entry, as_config_setting_entry, as_contract_code_entry, as_contract_data_entry,
    cache_module, cached_modules, engine_parts, entry_last_modified, make_budget,
    new_module_cache, run_engine, ttl_meta,
};
use crate::entry::{
    bytes_eq, clone_bytes, push_bytes, push_u32_be, u32_be, EntryData, EntryDataV, LedgerEntry,
    LedgerEntryV, LedgerKey,
};
use crate::envelope::TransactionEnvelope;
use crate::crypto::sha256;
use crate::memory::Memory;
use crate::model::{Durability, LedgerInfo};

verus! {

/// One ledger-entry change to apply to the store: whether its key was
/// read-only in the footprint, the key's wire image, the new entry (absent
/// for removals and TTL-only changes), and the new TTL.
pub struct EntryChange {
    pub read_only: bool,
    pub enc_key: Vec<u8>,
    pub new_entry: Option<LedgerEntry>,
    pub ttl: Option<u32>,
}

/// Mathematical view of [`EntryChange`].
#[verifier::ext_equal]
pub struct EntryChangeV {
    pub read_only: bool,
    pub enc_key: Seq<u8>,
    pub new_entry: Option<LedgerEntryV>,
    pub ttl: Option<u32>,
}

impl View for EntryChange {
    type V = EntryChangeV;

    open spec fn view(&self) -> EntryChangeV {
        EntryChangeV {
            read_only: self.read_only,
            enc_key: self.enc_key@,
            new_entry: match self.new_entry {
                Some(e) => Some(e@),
                None => None,
            },
            ttl: self.ttl,
        }
    }
}

/// The effect of one change on the store's map: a new value is an insert —
/// keeping a TTL only on evictable kinds —, a missing value on a read-write
/// key is a removal, and a missing value on a read-only key is a TTL-only
/// update that leaves the entry itself untouched.
pub open spec fn apply_one(
    m: Map<Seq<u8>, (LedgerEntryV, Option<u32>)>,
    c: EntryChangeV,
) -> Map<Seq<u8>, (LedgerEntryV, Option<u32>)> {
    match c.new_entry {
        Some(e) => m.insert(
            c.enc_key,
            (
                e,
                if e.data.is_evictable() {
                    c.ttl
                } else {
                    None
                },
            ),
        ),
        None => if !c.read_only {
            m.remove(c.enc_key)
        } else if m.contains_key(c.enc_key) && (c.ttl is None
            || m[c.enc_key].0.data.is_evictable()) {
            m.insert(c.enc_key, (m[c.enc_key].0, c.ttl))
        } else {
            m
        },
    }
}

/// The effect of a change list on the store's map, applied first to last.
pub open spec fn apply_fold(
    m: Map<Seq<u8>, (LedgerEntryV, Option<u32>)>,
    cs: Seq<EntryChangeV>,
) -> Map<Seq<u8>, (LedgerEntryV, Option<u32>)>
    decreases cs.len(),
{
    if cs.len() == 0 {
        m
    } else {
        apply_fold(apply_one(m, cs.first()), cs.drop_first())
    }
}

/// Appending a change to the list folds it in last.
pub proof fn lemma_apply_fold_snoc(
    m: Map<Seq<u8>, (LedgerEntryV, Option<u32>)>,
    s: Seq<EntryChangeV>,
    c: EntryChangeV,
)
    ensures
        apply_fold(m, s.push(c)) == apply_one(apply_fold(m, s), c),
    decreases s.len(),
{
    if s.len() == 0 {
        assert(s.push(c).first() == c);
        assert(s.push(c).drop_first() =~= s);
        assert(apply_fold(apply_one(m, c), s) == apply_one(m, c));
    } else {
        assert(s.push(c).first() == s.first());
        assert(s.push(c).drop_first() =~= s.drop_first().push(c));
        lemma_apply_fold_snoc(apply_one(m, s.first()), s.drop_first(), c);
        assert(apply_fold(m, s.push(c)) == apply_fold(
            apply_one(m, s.first()),
            s.drop_first().push(c),
        ));
        assert(apply_fold(m, s) == apply_fold(apply_one(m, s.first()), s.drop_first()));
    }
}

/// Whether some change in the list targets the given key.
pub open spec fn touches(cs: Seq<EntryChangeV>, k: Seq<u8>) -> bool {
    exists|i: int| 0 <= i < cs.len() && (#[trigger] cs[i]).enc_key == k
}

/// A change list that never targets a key leaves that key's presence and
/// pair exactly as they were.
pub proof fn lemma_apply_fold_untouched(
    m: Map<Seq<u8>, (LedgerEntryV, Option<u32>)>,
    cs: Seq<EntryChangeV>,
    k: Seq<u8>,
)
    requires
        !touches(cs, k),
    ensures
        apply_fold(m, cs).contains_key(k) == m.contains_key(k),
        m.contains_key(k) ==> apply_fold(m, cs)[k] == m[k],
    decreases cs.len(),
{
    if cs.len() > 0 {
        assert(cs[0].enc_key != k);
        let m1 = apply_one(m, cs.first());
        assert(m1.contains_key(k) == m.contains_key(k) && (m.contains_key(k) ==> m1[k] == m[k]));
        assert(!touches(cs.drop_first(), k)) by {
            if touches(cs.drop_first(), k) {
                let i = choose|i: int|
                    0 <= i < cs.drop_first().len() && (#[trigger] cs.drop_first()[i]).enc_key
                        == k;
                assert(cs[i + 1].enc_key == k);
            }
        }
        lemma_apply_fold_untouched(m1, cs.drop_first(), k);
    }
}

/// A TTL-only diff never deletes: a change with no new value on a
/// read-only footprint key leaves every entry's presence and value exactly
/// as they were, and — when its key holds an evictable entry, or clears the
/// TTL — replaces only that key's TTL.
pub proof fn lemma_ttl_only_diff_never_deletes(
    m: Map<Seq<u8>, (LedgerEntryV, Option<u32>)>,
    c: EntryChangeV,
)
    requires
        c.new_entry is None,
        c.read_only,
    ensures
        forall|k: Seq<u8>| #[trigger]
            apply_one(m, c).contains_key(k) <==> m.contains_key(k),
        forall|k: Seq<u8>|
            m.contains_key(k) ==> #[trigger] apply_one(m, c)[k].0 == m[k].0,
        m.contains_key(c.enc_key) && (c.ttl is None || m[c.enc_key].0.data.is_evictable())
            ==> apply_one(m, c)[c.enc_key].1 == c.ttl,
{
}

/// What one engine invocation produced, in the sandbox's terms: whether the
/// call logically failed, the declared fee that was charged, the returned
/// value's wire image or the failure message, and the emitted contract
/// events' wire images.
pub struct ExecutionResult {
    pub fee_charges: i64,
    pub result: Result<Vec<u8>, String>,
    pub events: Vec<Vec<u8>>,
}

/// The model entry an image stands for, assembled from the named results
/// of the wire decoders: the kinds the sandbox reads are taken apart into
/// plain values, any other kind is kept opaque, and the image itself is
/// retained on the entry. Nothing when the image is not a ledger entry.
pub open spec fn decoded_data_of(bytes: Seq<u8>) -> EntryDataV {
    match crate::engine::account_entry_of(bytes) {
        Some(a) => EntryDataV::Account(a),
        None => match crate::engine::code_entry_of(bytes) {
            Some(t) => EntryDataV::ContractCode { hash: t.0, code: t.1 },
            None => match crate::engine::data_entry_of(bytes) {
                Some(t) => EntryDataV::ContractData {
                    contract: t.0,
                    key: t.1,
                    durability: if t.2 == 1 {
                        Durability::Persistent
                    } else {
                        Durability::Temporary
                    },
                    val: t.3,
                },
                None => match crate::engine::setting_id_of(bytes) {
                    Some(id) => EntryDataV::ConfigSetting { setting_id: id },
                    None => EntryDataV::Other,
                },
            },
        },
    }
}

/// The decoded form of an entry image, when it decodes.
pub open spec fn decoded_entry_of(bytes: Seq<u8>) -> Option<LedgerEntryV> {
    match crate::engine::entry_last_modified_of(bytes) {
        None => None,
        Some(lm) => Some(
            LedgerEntryV {
                last_modified_ledger_seq: lm,
                data: decoded_data_of(bytes),
                encoded: bytes,
            },
        ),
    }
}

/// Decodes an entry's wire image into the model: exactly
/// [`decoded_entry_of`] of the image.
pub fn decode_entry(bytes: &Vec<u8>) -> (r: Option<LedgerEntry>)
    ensures
        match r {
            Some(e) => decoded_entry_of(bytes@) == Some(e@),
            None => decoded_entry_of(bytes@) is None,
        },
{
    let last_modified = match entry_last_modified(bytes) {
        Some(lm) => lm,
        None => {
            return None;
        },
    };
    let data = if let Some(account) = as_account_entry(bytes) {
        EntryData::Account(account)
    } else if let Some((hash, code)) = as_contract_code_entry(bytes) {
        EntryData::ContractCode { hash, code }
    } else if let Some((contract, key, durability_tag, val)) = as_contract_data_entry(bytes) {
        let durability = if durability_tag == 1 {
            Durability::Persistent
        } else {
            Durability::Temporary
        };
        EntryData::ContractData { contract, key, durability, val }
    } else if let Some(setting_id) = as_config_setting_entry(bytes) {
        EntryData::ConfigSetting { setting_id }
    } else {
        EntryData::Other
    };
    let entry = LedgerEntry {
        last_modified_ledger_seq: last_modified,
        data,
        encoded: clone_bytes(bytes),
    };
    proof {
        assert(entry@ =~= decoded_entry_of(bytes@).unwrap());
    }
    Some(entry)
}

/// Whether a decoded change faithfully reflects one raw engine change:
/// same read-only marking, key image and TTL, and the new entry — when the
/// raw change carries an image — is exactly that image's decoded form.
pub open spec fn change_decoded_ok(
    raw: (bool, Vec<u8>, Option<Vec<u8>>, Option<u32>),
    c: EntryChangeV,
) -> bool {
    &&& c.read_only == raw.0
    &&& c.enc_key == raw.1@
    &&& (match raw.2 {
        Some(img) => (decoded_entry_of(img@) matches Some(e) && c.new_entry == Some(e)),
        None => c.new_entry is None,
    })
    &&& c.ttl == raw.3
}

/// Whether every inserted entry in a change list is the faithful decode of
/// its own wire image.
pub open spec fn change_entries_decoded(cs: Seq<EntryChangeV>) -> bool {
    forall|i: int|
        0 <= i < cs.len() ==> ((#[trigger] cs[i]).new_entry matches Some(e)
            ==> decoded_entry_of(e.encoded) == Some(e))
}

/// Decodes the engine's raw change list into the model, change for change:
/// on success every change satisfies [`change_decoded_ok`] against its raw
/// counterpart; it fails exactly when some change carries an image that is
/// not a ledger entry.
#[verifier::loop_isolation(false)]
pub fn decode_changes(raw: &Vec<(bool, Vec<u8>, Option<Vec<u8>>, Option<u32>)>) -> (r: Result<
    Vec<EntryChange>,
    String,
>)
    ensures
        match r {
            Ok(cs) => cs@.len() == raw@.len() && (forall|i: int|
                0 <= i < raw@.len() ==> change_decoded_ok(raw@[i], (#[trigger] cs@[i])@))
                && change_entries_decoded(cs@.map_values(|c: EntryChange| c@)),
            Err(_) => exists|i: int|
                0 <= i < raw@.len() && ((#[trigger] raw@[i]).2 matches Some(img)
                    && decoded_entry_of(img@) is None),
        },
{
    let mut out: Vec<EntryChange> = Vec::new();
    let mut i: usize = 0;
    while i < raw.len()
        invariant
            i <= raw@.len(),
            out@.len() == i,
            forall|j: int| 0 <= j < i ==> change_decoded_ok(raw@[j], (#[trigger] out@[j])@),
        decreases raw@.len() - i,
    {
        let (read_only, enc_key, new_value, ttl) = &raw[i];
        let new_entry = match new_value {
            Some(bytes) => match decode_entry(bytes) {
                Some(e) => Some(e),
                None => {
                    return Err(
                        String::from_str("the engine returned an undecodable ledger entry"),
                    );
                },
            },
            None => None,
        };
        out.push(
            EntryChange {
                read_only: *read_only,
                enc_key: clone_bytes(enc_key),
                new_entry,
                ttl: *ttl,
            },
        );
        i = i + 1;
    }
    proof {
        let csv = out@.map_values(|c: EntryChange| c@);
        assert forall|j: int| 0 <= j < csv.len() implies ((#[trigger] csv[j]).new_entry matches
            Some(e) ==> decoded_entry_of(e.encoded) == Some(e)) by {
            assert(csv[j] == out@[j]@);
            assert(change_decoded_ok(raw@[j], out@[j]@));
        }
    }
    Ok(out)
}

/// Whether `needle` occurs in `haystack`, byte for byte.
fn contains_bytes(haystack: &Vec<Vec<u8>>, needle: &Vec<u8>) -> (r: bool)
    ensures
        r == (exists|i: int| 0 <= i < haystack@.len() && (#[trigger] haystack@[i])@ == needle@),
{
    let mut i: usize = 0;
    while i < haystack.len()
        invariant
            i <= haystack@.len(),
            forall|j: int| 0 <= j < i ==> (#[trigger] haystack@[j])@ != needle@,
        decreases haystack.len() - i,
    {
        if bytes_eq(&haystack[i], needle) {
            return true;
        }
        i = i + 1;
    }
    false
}

/// The wire image of an account identifier: the key-type tag and the
/// 32-byte key.
pub open spec fn account_id_bytes(id: Seq<u8>) -> Seq<u8> {
    u32_be(0) + id
}

/// Encodes an account identifier for the engine.
pub fn encode_account_id(id: &Vec<u8>) -> (r: Vec<u8>)
    ensures
        r@ == account_id_bytes(id@),
{
    let mut out: Vec<u8> = Vec::new();
    push_u32_be(&mut out, 0);
    push_bytes(&mut out, id);
    assert(out@ =~= account_id_bytes(id@));
    out
}

/// A resolved entry's size as handed to the engine's rent metadata: the
/// image's length, saturating at the largest wire size.
pub open spec fn clamped_size(n: int) -> u32 {
    if n > 0xffff_ffff {
        0xffff_ffffu32
    } else {
        n as u32
    }
}

/// Whether a resolved footprint slot reflects the store: an absent key is
/// marked absent with no metadata; a present key carries the stored
/// entry's wire image, and — exactly when the stored pair has a TTL — its
/// (live-until ledger, entry size) metadata.
pub open spec fn resolved_slot_ok(
    m: Map<Seq<u8>, (LedgerEntryV, Option<u32>)>,
    k: crate::entry::LedgerKeyV,
    slot: (Option<Vec<u8>>, Option<(u32, u32)>),
) -> bool {
    let kb = crate::entry::key_bytes(k);
    match slot.0 {
        Some(b) => m.contains_key(kb) && b@ == m[kb].0.encoded && (match slot.1 {
            Some(meta) => m[kb].1 == Some(meta.0) && meta.1 == clamped_size(
                m[kb].0.encoded.len() as int,
            ),
            None => m[kb].1 is None,
        }),
        None => !m.contains_key(kb) && slot.1 is None,
    }
}

/// Resolves one footprint key: appends the stored entry's wire image and
/// TTL metadata — or an absence marker — to `entries`, and collects
/// contract-code bytes for the module cache.
fn resolve_one(
    key: &LedgerKey,
    memory: &Memory,
    entries: &mut Vec<(Option<Vec<u8>>, Option<(u32, u32)>)>,
    code_entries: &mut Vec<Vec<u8>>,
)
    requires
        memory.wf(),
    ensures
        final(entries)@.len() == old(entries)@.len() + 1,
        forall|j: int| 0 <= j < old(entries)@.len() ==> final(entries)@[j] == old(entries)@[j],
        resolved_slot_ok(memory@, key@, final(entries)@.last()),
{
    let enc = key.encode();
    match memory.get(&enc) {
        Some(slot) => {
            let len = slot.entry.encoded.len();
            let size: u32 = if len > 0xffff_ffffusize {
                0xffff_ffffu32
            } else {
                len as u32
            };
            let meta = match slot.ttl {
                Some(t) => Some((t, size)),
                None => None,
            };
            entries.push((Some(clone_bytes(&slot.entry.encoded)), meta));
            if let EntryData::ContractCode { code, .. } = &slot.entry.data {
                code_entries.push(clone_bytes(code));
            }
        },
        None => {
            entries.push((None, None));
        },
    }
}

/// The code hashes this transaction restores, walked from restored index
/// `i` on: for each listed index that points at a contract-code key of the
/// read-write footprint, that key's hash, in index order.
pub open spec fn restored_hashes_from(
    rw: Seq<crate::entry::LedgerKeyV>,
    idxs: Seq<u32>,
    i: int,
) -> Seq<Seq<u8>>
    decreases idxs.len() - i,
{
    if i < 0 || i >= idxs.len() {
        Seq::empty()
    } else {
        let rest = restored_hashes_from(rw, idxs, i + 1);
        if idxs[i] < rw.len() {
            match rw[idxs[i] as int] {
                crate::entry::LedgerKeyV::ContractCode { hash } => seq![hash] + rest,
                _ => rest,
            }
        } else {
            rest
        }
    }
}

/// Whether a hash occurs in a list of hash byte vectors.
pub open spec fn hash_listed(restored: Seq<Vec<u8>>, h: Seq<u8>) -> bool {
    exists|i: int| 0 <= i < restored.len() && (#[trigger] restored[i])@ == h
}

/// The module identities an invocation pre-compiles: the digest of every
/// resolved code entry's bytes, except those listed as restored — restored
/// modules are left for the engine to compile lazily.
pub open spec fn modules_to_cache(code_entries: Seq<Vec<u8>>, restored: Seq<Vec<u8>>) -> Set<
    Seq<u8>,
> {
    Set::new(
        |h: Seq<u8>|
            (exists|i: int|
                0 <= i < code_entries.len() && h == crate::crypto::sha256_of(
                    (#[trigger] code_entries[i])@,
                )) && !hash_listed(restored, h),
    )
}

/// Walking one more code entry extends the pre-compile set by that entry's
/// digest, unless the digest is listed as restored.
proof fn lemma_modules_to_cache_step(ce: Seq<Vec<u8>>, restored: Seq<Vec<u8>>, i: int)
    requires
        0 <= i < ce.len(),
    ensures
        hash_listed(restored, crate::crypto::sha256_of(ce[i]@)) ==> modules_to_cache(
            ce.take(i + 1),
            restored,
        ) == modules_to_cache(ce.take(i), restored),
        !hash_listed(restored, crate::crypto::sha256_of(ce[i]@)) ==> modules_to_cache(
            ce.take(i + 1),
            restored,
        ) == modules_to_cache(ce.take(i), restored).insert(crate::crypto::sha256_of(ce[i]@)),
{
    let hi = crate::crypto::sha256_of(ce[i]@);
    let t0 = ce.take(i);
    let t1 = ce.take(i + 1);
    let s0 = modules_to_cache(t0, restored);
    let s1 = modules_to_cache(t1, restored);
    assert(t1[i] == ce[i]);
    if hash_listed(restored, hi) {
        assert(s1 =~= s0) by {
            assert forall|h: Seq<u8>| #[trigger] s1.contains(h) implies s0.contains(h) by {
                let j = choose|j: int|
                    0 <= j < t1.len() && h == crate::crypto::sha256_of((#[trigger] t1[j])@);
                assert(j < i) by {
                    if j == i {
                        assert(h == hi);
                    }
                }
                assert(t0[j] == t1[j]);
                assert(h == crate::crypto::sha256_of((t0[j])@));
            }
            assert forall|h: Seq<u8>| #[trigger] s0.contains(h) implies s1.contains(h) by {
                let j = choose|j: int|
                    0 <= j < t0.len() && h == crate::crypto::sha256_of((#[trigger] t0[j])@);
                assert(t1[j] == t0[j]);
                assert(h == crate::crypto::sha256_of((t1[j])@));
            }
        }
    } else {
        assert(s1 =~= s0.insert(hi)) by {
            assert forall|h: Seq<u8>| #[trigger] s1.contains(h) implies s0.insert(hi).contains(
                h,
            ) by {
                let j = choose|j: int|
                    0 <= j < t1.len() && h == crate::crypto::sha256_of((#[trigger] t1[j])@);
                if j < i {
                    assert(t0[j] == t1[j]);
                    assert(h == crate::crypto::sha256_of((t0[j])@));
                } else {
                    assert(h == hi);
                }
            }
            assert forall|h: Seq<u8>| #[trigger] s0.insert(hi).contains(h) implies s1.contains(
                h,
            ) by {
                if h == hi {
                    assert(h == crate::crypto::sha256_of((t1[i])@));
                } else {
                    let j = choose|j: int|
                        0 <= j < t0.len() && h == crate::crypto::sha256_of((#[trigger] t0[j])@);
                    assert(t1[j] == t0[j]);
                    assert(h == crate::crypto::sha256_of((t1[j])@));
                }
            }
        }
    }
}

/// The execution orchestrator. It holds no state of its own; the store is
/// handed to each call.
pub struct Executor {}

impl Executor {
    /// A new orchestrator.
    pub fn new() -> (r: Executor) {
        Executor {  }
    }

    /// Resolves the transaction's footprint against the store: one slot per
    /// footprint key, read-only keys first, each holding the stored entry's
    /// wire image and TTL metadata, or nothing when the key is absent. Also
    /// collects the code bytes of every resolved contract-code entry, for
    /// the module cache.
    #[verifier::loop_isolation(false)]
    fn resolve_footprint(&self, envelope: &TransactionEnvelope, memory: &Memory) -> (r: (
        Vec<(Option<Vec<u8>>, Option<(u32, u32)>)>,
        Vec<Vec<u8>>,
    ))
        requires
            memory.wf(),
        ensures
            r.0@.len() == envelope@.footprint_read_only.len()
                + envelope@.footprint_read_write.len(),
            forall|i: int|
                0 <= i < envelope@.footprint_read_only.len() ==> resolved_slot_ok(
                    memory@,
                    envelope@.footprint_read_only[i],
                    #[trigger] r.0@[i],
                ),
            forall|i: int|
                0 <= i < envelope@.footprint_read_write.len() ==> resolved_slot_ok(
                    memory@,
                    envelope@.footprint_read_write[i],
                    #[trigger] r.0@[envelope@.footprint_read_only.len() + i],
                ),
    {
        let mut entries: Vec<(Option<Vec<u8>>, Option<(u32, u32)>)> = Vec::new();
        let mut code_entries: Vec<Vec<u8>> = Vec::new();
        let mut i: usize = 0;
        while i < envelope.footprint_read_only.len()
            invariant
                entries@.len() == i,
                i <= envelope.footprint_read_only@.len(),
                forall|p: int|
                    0 <= p < i ==> resolved_slot_ok(
                        memory@,
                        envelope@.footprint_read_only[p],
                        #[trigger] entries@[p],
                    ),
            decreases envelope.footprint_read_only@.len() - i,
        {
            proof {
                assert(envelope@.footprint_read_only[i as int] == envelope.footprint_read_only@[
                    i as int
                ]@);
            }
            resolve_one(&envelope.footprint_read_only[i], memory, &mut entries, &mut code_entries);
            i = i + 1;
        }
        let mut j: usize = 0;
        while j < envelope.footprint_read_write.len()
            invariant
                entries@.len() == envelope.footprint_read_only@.len() + j,
                j <= envelope.footprint_read_write@.len(),
                forall|p: int|
                    0 <= p < envelope@.footprint_read_only.len() ==> resolved_slot_ok(
                        memory@,
                        envelope@.footprint_read_only[p],
                        #[trigger] entries@[p],
                    ),
                forall|p: int|
                    0 <= p < j ==> resolved_slot_ok(
                        memory@,
                        envelope@.footprint_read_write[p],
                        #[trigger] entries@[envelope@.footprint_read_only.len() + p],
                    ),
            decreases envelope.footprint_read_write@.len() - j,
        {
            proof {
                assert(envelope@.footprint_read_write[j as int] == envelope.footprint_read_write@[
                    j as int
                ]@);
            }
            resolve_one(&envelope.footprint_read_write[j], memory, &mut entries, &mut code_entries);
            j = j + 1;
        }
        (entries, code_entries)
    }

    /// The code hashes of the read-write footprint entries this transaction
    /// restores from archival: restored modules are left uncompiled so the
    /// engine compiles them lazily during the call. Exactly
    /// [`restored_hashes_from`] index zero.
    #[verifier::loop_isolation(false)]
    fn restored_code_hashes(&self, envelope: &TransactionEnvelope) -> (r: Vec<Vec<u8>>)
        ensures
            r@.map_values(|v: Vec<u8>| v@) == restored_hashes_from(
                envelope@.footprint_read_write,
                envelope@.restored_indices,
                0,
            ),
    {
        let ghost rw = envelope@.footprint_read_write;
        let ghost idxs = envelope@.restored_indices;
        let mut out: Vec<Vec<u8>> = Vec::new();
        let mut i: usize = 0;
        while i < envelope.restored_indices.len()
            invariant
                i <= idxs.len(),
                restored_hashes_from(rw, idxs, 0) == out@.map_values(|v: Vec<u8>| v@)
                    + restored_hashes_from(rw, idxs, i as int),
            decreases envelope.restored_indices@.len() - i,
        {
            let ghost out0 = out@;
            let idx = envelope.restored_indices[i] as usize;
            proof {
                assert(idxs[i as int] == envelope.restored_indices@[i as int]);
            }
            if idx < envelope.footprint_read_write.len() {
                proof {
                    assert(rw[idx as int] == envelope.footprint_read_write@[idx as int]@);
                }
                if let LedgerKey::ContractCode { hash } = &envelope.footprint_read_write[idx] {
                    out.push(clone_bytes(hash));
                    proof {
                        assert(restored_hashes_from(rw, idxs, i as int) == seq![hash@]
                            + restored_hashes_from(rw, idxs, i as int + 1));
                        assert(out@.map_values(|v: Vec<u8>| v@) =~= out0.map_values(
                            |v: Vec<u8>| v@,
                        ).push(hash@));
                        assert(out0.map_values(|v: Vec<u8>| v@) + (seq![hash@]
                            + restored_hashes_from(rw, idxs, i as int + 1)) =~= out@.map_values(
                            |v: Vec<u8>| v@,
                        ) + restored_hashes_from(rw, idxs, i as int + 1));
                    }
                } else {
                    proof {
                        assert(restored_hashes_from(rw, idxs, i as int) == restored_hashes_from(
                            rw,
                            idxs,
                            i as int + 1,
                        ));
                    }
                }
            } else {
                proof {
                    assert(restored_hashes_from(rw, idxs, i as int) == restored_hashes_from(
                        rw,
                        idxs,
                        i as int + 1,
                    ));
                }
            }
            i = i + 1;
        }
        proof {
            assert(restored_hashes_from(rw, idxs, idxs.len() as int)
                =~= Seq::<Seq<u8>>::empty());
            assert(out@.map_values(|v: Vec<u8>| v@) + Seq::<Seq<u8>>::empty() =~= out@.map_values(
                |v: Vec<u8>| v@,
            ));
        }
        out
    }

    /// Builds the module cache for an invocation: every resolved
    /// contract-code entry is identified by the digest of its bytes and
    /// pre-compiled, unless it is being restored by this transaction — the
    /// cache returned holds exactly [`modules_to_cache`]. Nothing is
    /// returned when the engine refuses the cache or one of the modules.
    #[verifier::loop_isolation(false)]
    fn build_module_cache(
        &self,
        protocol: u32,
        code_entries: &Vec<Vec<u8>>,
        restored: &Vec<Vec<u8>>,
    ) -> (r: Option<soroban_env_host::ModuleCache>)
        ensures
            r matches Some(cache) ==> cached_modules(cache) == modules_to_cache(
                code_entries@,
                restored@,
            ),
    {
        let ghost ce = code_entries@;
        let mut cache = match new_module_cache() {
            Some(c) => c,
            None => {
                return None;
            },
        };
        proof {
            assert(cached_modules(cache) =~= modules_to_cache(ce.take(0), restored@));
        }
        let mut i: usize = 0;
        while i < code_entries.len()
            invariant
                i <= ce.len(),
                cached_modules(cache) == modules_to_cache(ce.take(i as int), restored@),
            decreases code_entries@.len() - i,
        {
            let ghost before = cached_modules(cache);
            let code = &code_entries[i];
            let contract_id = sha256(code);
            let ghost h = crate::crypto::sha256_of(ce[i as int]@);
            proof {
                assert(ce.take(i as int + 1) =~= ce.take(i as int).push(ce[i as int]));
            }
            if !contains_bytes(restored, &contract_id) {
                if !cache_module(&mut cache, protocol, &contract_id, code) {
                    return None;
                }
                proof {
                    lemma_modules_to_cache_step(ce, restored@, i as int);
                    assert(cached_modules(cache) =~= modules_to_cache(
                        ce.take(i as int + 1),
                        restored@,
                    ));
                }
            } else {
                proof {
                    lemma_modules_to_cache_step(ce, restored@, i as int);
                    assert(cached_modules(cache) =~= modules_to_cache(
                        ce.take(i as int + 1),
                        restored@,
                    ));
                }
            }
            i = i + 1;
        }
        proof {
            assert(ce.take(ce.len() as int) =~= ce);
        }
        Some(cache)
    }

    /// Runs the envelope's host function against the current store and
    /// ledger context: resolves the footprint, pre-compiles modules, builds
    /// the cost budget, and invokes the engine. Returns the invoke result,
    /// the decoded ledger changes, and the emitted events; or the reason
    /// the engine could not be driven at all. When the invoke result is a
    /// failure, the engine reports no changes and no events; every decoded
    /// change's entry is the faithful decode of its own wire image.
    pub fn invoke_host_function(
        &self,
        envelope: &TransactionEnvelope,
        ledger_info: &LedgerInfo,
        memory: &Memory,
    ) -> (r: Result<(Result<Vec<u8>, String>, Vec<EntryChange>, Vec<Vec<u8>>), String>)
        requires
            memory.wf(),
        ensures
            match r {
                Ok(parts) => (parts.0 is Err ==> parts.1@.len() == 0 && parts.2@.len() == 0)
                    && change_entries_decoded(parts.1@.map_values(|c: EntryChange| c@)),
                Err(_) => true,
            },
    {
        let (entries, code_entries) = self.resolve_footprint(envelope, memory);
        let restored = self.restored_code_hashes(envelope);
        let module_cache = match self.build_module_cache(
            ledger_info.protocol_version,
            &code_entries,
            &restored,
        ) {
            Some(c) => c,
            None => {
                return Err(String::from_str("failed to build the module cache"));
            },
        };
        let mut cpu: Vec<(i64, i64)> = Vec::new();
        cpu.push((35, 36));
        cpu.push((37, 38));
        let mut mem: Vec<(i64, i64)> = Vec::new();
        mem.push((39, 40));
        mem.push((41, 42));
        mem.push((43, 44));
        let budget = match make_budget(&cpu, &mem) {
            Some(b) => b,
            None => {
                return Err(String::from_str("failed to build the execution budget"));
            },
        };
        let mut seed: Vec<u8> = Vec::new();
        let mut s: usize = 0;
        while s < 32
            decreases 32 - s,
        {
            seed.push(0);
            s = s + 1;
        }
        let mut auth: Vec<Vec<u8>> = Vec::new();
        let mut a: usize = 0;
        while a < envelope.auth.len()
            decreases envelope.auth@.len() - a,
        {
            auth.push(clone_bytes(&envelope.auth[a]));
            a = a + 1;
        }
        let mut engine_entries: Vec<
            (Option<Vec<u8>>, Option<soroban_env_host::e2e_invoke::TtlLedgerEntryMeta>),
        > = Vec::new();
        let mut t: usize = 0;
        while t < entries.len()
            decreases entries@.len() - t,
        {
            let (img, meta) = &entries[t];
            let packed = match meta {
                Some((live_until, size)) => Some(ttl_meta(*live_until, *size)),
                None => None,
            };
            let image = match img {
                Some(b) => Some(clone_bytes(b)),
                None => None,
            };
            engine_entries.push((image, packed));
            t = t + 1;
        }
        let outcome = match run_engine(
            &budget,
            clone_bytes(&envelope.host_function),
            clone_bytes(&envelope.resources),
            &envelope.restored_indices,
            encode_account_id(&envelope.source_account),
            auth,
            ledger_info,
            engine_entries,
            seed,
            Some(module_cache),
        ) {
            Some(o) => o,
            None => {
                return Err(String::from_str("the execution engine failed"));
            },
        };
        let (invoke_result, raw_changes, events) = engine_parts(outcome);
        let changes = match decode_changes(&raw_changes) {
            Ok(cs) => cs,
            Err(e) => {
                return Err(e);
            },
        };
        Ok((invoke_result, changes, events))
    }

    /// Applies the engine's ledger changes to the store, first to last, as
    /// [`apply_fold`] describes: inserts and updates replace the entry and
    /// its TTL, a missing new value removes a read-write key, and a missing
    /// new value on a read-only key only updates the TTL.
    pub fn apply_ledger_changes(&self, memory: &mut Memory, changes: &Vec<EntryChange>)
        requires
            old(memory).wf(),
        ensures
            final(memory).wf(),
            final(memory)@ == apply_fold(
                old(memory)@,
                changes@.map_values(|c: EntryChange| c@),
            ),
    {
        let ghost cs = changes@.map_values(|c: EntryChange| c@);
        let mut i: usize = 0;
        while i < changes.len()
            invariant
                i <= changes@.len(),
                cs == changes@.map_values(|c: EntryChange| c@),
                cs.len() == changes@.len(),
                memory.wf(),
                memory@ == apply_fold(old(memory)@, cs.take(i as int)),
            decreases changes@.len() - i,
        {
            let change = &changes[i];
            proof {
                assert(cs[i as int] == changes@[i as int]@);
                assert(cs.take(i as int).push(cs[i as int]) =~= cs.take(i as int + 1));
                lemma_apply_fold_snoc(old(memory)@, cs.take(i as int), cs[i as int]);
            }
            match &change.new_entry {
                Some(entry) => {
                    let owned = entry.duplicate();
                    let ttl_eff = if owned.data.is_evictable() {
                        change.ttl
                    } else {
                        None
                    };
                    memory.upsert(clone_bytes(&change.enc_key), owned, ttl_eff);
                },
                None => {
                    if !change.read_only {
                        memory.remove(&change.enc_key);
                    } else {
                        memory.update_ttl(&change.enc_key, change.ttl);
                    }
                },
            }
            i = i + 1;
        }
        proof {
            assert(cs.take(cs.len() as int) =~= cs);
        }
    }

    /// Builds the simulation response from what the engine's recording mode
    /// produced. A failed invocation yields the error response with the
    /// diagnostic events and no state changes; a successful one carries the
    /// inferred transaction data, authorization and return value, and the
    /// predicted — never applied — state changes.
    pub fn simulation_response(
        &self,
        outcome: crate::model::SimulationOutcome,
        ledger_info: &LedgerInfo,
    ) -> (r: Result<crate::model::SimulateTransactionResponse, String>)
        ensures
            match r {
                Ok(resp) => match resp {
                    crate::model::SimulateTransactionResponse::Error(e) => {
                        &&& !outcome.ok
                        &&& e.error@ == outcome.error@
                        &&& e.latest_ledger == ledger_info@.sequence_number
                        &&& e.parsed == true
                        &&& e.events@ == outcome.events@
                    },
                    crate::model::SimulateTransactionResponse::Success(s) => {
                        &&& outcome.ok
                        &&& s.latest_ledger == ledger_info@.sequence_number
                        &&& s.parsed == true
                        &&& s.events@ == outcome.events@
                        &&& s.transaction_data@ == outcome.transaction_data_xdr@
                        &&& s.min_resource_fee@ == outcome.min_resource_fee@
                        &&& (s.result matches Some(hf) ==> hf.retval@ == outcome.retval_xdr@
                            && hf.auth@ == outcome.auth_xdr@)
                        &&& s.result is Some
                        &&& (s.state_changes matches Some(cs) ==> cs@.len()
                            == outcome.diffs@.len() && (forall|i: int|
                            0 <= i < outcome.diffs@.len() ==> crate::utils::change_matches_diff(
                                &(#[trigger] cs@[i]),
                                &outcome.diffs@[i],
                            )))
                        &&& s.state_changes is Some
                    },
                },
                Err(_) => outcome.ok && (exists|i: int|
                    0 <= i < outcome.diffs@.len() && !crate::utils::diff_ok(
                        &#[trigger] outcome.diffs@[i],
                    )),
            },
    {
        if !outcome.ok {
            return Ok(
                crate::model::SimulateTransactionResponse::Error(
                    crate::model::SimulateTransactionErrorResponse {
                        id: String::from_str("1"),
                        latest_ledger: ledger_info.sequence_number,
                        events: outcome.events,
                        parsed: true,
                        error: outcome.error,
                    },
                ),
            );
        }
        let state_changes = match crate::utils::changes_from_simulation(&outcome.diffs) {
            Ok(cs) => cs,
            Err(e) => {
                return Err(e);
            },
        };
        Ok(
            crate::model::SimulateTransactionResponse::Success(
                crate::model::SimulateTransactionSuccessResponse {
                    id: String::from_str("1"),
                    latest_ledger: ledger_info.sequence_number,
                    events: outcome.events,
                    parsed: true,
                    transaction_data: outcome.transaction_data_xdr,
                    min_resource_fee: outcome.min_resource_fee,
                    result: Some(
                        crate::model::SimulateHostFunctionResult {
                            auth: outcome.auth_xdr,
                            retval: outcome.retval_xdr,
                        },
                    ),
                    state_changes: Some(state_changes),
                },
            ),
        )
    }

    /// Runs the transaction's operation and applies its effects: invokes
    /// the engine and folds the returned changes into the store. On a
    /// logical failure of the call, the engine reports no changes, so the
    /// store is unchanged; when the engine cannot be driven at all, an
    /// error is returned and the store is unchanged. On success the store
    /// is the fold of a change list whose every inserted entry is the
    /// faithful decode of its own wire image — the list the engine
    /// returned, which no contract can name.
    pub fn send_transaction(
        &self,
        envelope: &TransactionEnvelope,
        ledger_info: &LedgerInfo,
        memory: &mut Memory,
    ) -> (r: Result<ExecutionResult, String>)
        requires
            old(memory).wf(),
        ensures
            final(memory).wf(),
            r is Err ==> final(memory)@ == old(memory)@,
            match r {
                Ok(res) => {
                    &&& res.fee_charges == envelope@.fee as i64
                    &&& exists|cs: Seq<EntryChangeV>|
                        final(memory)@ == apply_fold(old(memory)@, cs) && #[trigger]
                        change_entries_decoded(cs)
                    &&& (res.result is Err ==> final(memory)@ == old(memory)@)
                },
                Err(_) => true,
            },
    {
        let (invoke_result, changes, events) = match self.invoke_host_function(
            envelope,
            ledger_info,
            memory,
        ) {
            Ok(parts) => parts,
            Err(e) => {
                return Err(e);
            },
        };
        self.apply_ledger_changes(memory, &changes);
        proof {
            let cs = changes@.map_values(|c: EntryChange| c@);
            assert(memory@ == apply_fold(old(memory)@, cs));
            if invoke_result is Err {
                assert(cs.len() == 0);
                assert(apply_fold(old(memory)@, cs) == old(memory)@);
            }
        }
        Ok(
            ExecutionResult {
                fee_charges: envelope.fee as i64,
                result: invoke_result,
                events,
            },
        )
    }
}

} // verus!
