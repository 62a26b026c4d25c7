//! Ledger keys and ledger entries, modelled as plain data.
//!
//! The store is keyed by the wire encoding of the ledger key, so the model
//! carries, for each key shape the sandbox works with, the exact byte frame
//! the wire schema gives it: a four-byte big-endian discriminant followed by
//! the variant's payload. Entries decoded from the execution engine keep
//! the wire image they arrived as in the `encoded` field; entries created
//! by the sandbox get a canonical image from the codec.

use vstd::prelude::*;

use crate::model::Durability;

verus! {

/// A ledger key: the identity of one unit of ledger state.
pub enum LedgerKey {
    /// An account, identified by its 32-byte master verifying key.
    Account { account_id: Vec<u8> },
    /// A contract-data entry. `contract` holds the wire encoding of the
    /// contract address and `key` the wire encoding of the data key; both are
    /// opaque to the sandbox.
    ContractData { contract: Vec<u8>, key: Vec<u8>, durability: Durability },
    /// Uploaded contract code, identified by the 32-byte hash of its bytes.
    ContractCode { hash: Vec<u8> },
    /// A network configuration setting, identified by its setting id.
    ConfigSetting { setting_id: u32 },
}

/// Mathematical view of [`LedgerKey`].
#[verifier::ext_equal]
pub enum LedgerKeyV {
    Account { account_id: Seq<u8> },
    ContractData { contract: Seq<u8>, key: Seq<u8>, durability: Durability },
    ContractCode { hash: Seq<u8> },
    ConfigSetting { setting_id: u32 },
}

impl View for LedgerKey {
    type V = LedgerKeyV;

    open spec fn view(&self) -> LedgerKeyV {
        match self {
            LedgerKey::Account { account_id } => LedgerKeyV::Account { account_id: account_id@ },
            LedgerKey::ContractData { contract, key, durability } => LedgerKeyV::ContractData {
                contract: contract@,
                key: key@,
                durability: *durability,
            },
            LedgerKey::ContractCode { hash } => LedgerKeyV::ContractCode { hash: hash@ },
            LedgerKey::ConfigSetting { setting_id } => LedgerKeyV::ConfigSetting {
                setting_id: *setting_id,
            },
        }
    }
}

/// The four bytes of `x` in big-endian order.
pub open spec fn u32_be(x: u32) -> Seq<u8> {
    seq![(x >> 24) as u8, (x >> 16) as u8, (x >> 8) as u8, x as u8]
}

/// Wire tag of a durability class.
pub open spec fn durability_tag(d: Durability) -> u32 {
    match d {
        Durability::Temporary => 0u32,
        Durability::Persistent => 1u32,
    }
}

/// Wire encoding of a ledger key: the four-byte discriminant of the variant
/// followed by its payload fields in order.
pub open spec fn key_bytes(k: LedgerKeyV) -> Seq<u8> {
    match k {
        LedgerKeyV::Account { account_id } => u32_be(0) + u32_be(0) + account_id,
        LedgerKeyV::ContractData { contract, key, durability } => u32_be(6) + contract + key
            + u32_be(durability_tag(durability)),
        LedgerKeyV::ContractCode { hash } => u32_be(7) + hash,
        LedgerKeyV::ConfigSetting { setting_id } => u32_be(8) + u32_be(setting_id),
    }
}

/// Appends the four bytes of `x` in big-endian order to `out`.
pub fn push_u32_be(out: &mut Vec<u8>, x: u32)
    ensures
        final(out)@ == old(out)@ + u32_be(x),
{
    out.push((x >> 24) as u8);
    out.push((x >> 16) as u8);
    out.push((x >> 8) as u8);
    out.push(x as u8);
    assert(out@ =~= old(out)@ + u32_be(x));
}

/// Appends all of `bytes` to `out`.
pub fn push_bytes(out: &mut Vec<u8>, bytes: &Vec<u8>)
    ensures
        final(out)@ == old(out)@ + bytes@,
{
    let mut i: usize = 0;
    while i < bytes.len()
        invariant
            i <= bytes.len(),
            out@ == old(out)@ + bytes@.subrange(0, i as int),
        decreases bytes.len() - i,
    {
        out.push(bytes[i]);
        i = i + 1;
        assert(out@ =~= old(out)@ + bytes@.subrange(0, i as int));
    }
    assert(bytes@.subrange(0, bytes@.len() as int) =~= bytes@);
}

impl LedgerKey {
    /// The wire encoding of this key, used as the store's lookup key and as
    /// the key image handed to the execution engine's change set.
    pub fn encode(&self) -> (r: Vec<u8>)
        ensures
            r@ == key_bytes(self@),
    {
        let mut out: Vec<u8> = Vec::new();
        match self {
            LedgerKey::Account { account_id } => {
                push_u32_be(&mut out, 0);
                push_u32_be(&mut out, 0);
                push_bytes(&mut out, account_id);
            },
            LedgerKey::ContractData { contract, key, durability } => {
                push_u32_be(&mut out, 6);
                push_bytes(&mut out, contract);
                push_bytes(&mut out, key);
                let tag: u32 = match durability {
                    Durability::Temporary => 0,
                    Durability::Persistent => 1,
                };
                push_u32_be(&mut out, tag);
            },
            LedgerKey::ContractCode { hash } => {
                push_u32_be(&mut out, 7);
                push_bytes(&mut out, hash);
            },
            LedgerKey::ConfigSetting { setting_id } => {
                push_u32_be(&mut out, 8);
                push_u32_be(&mut out, *setting_id);
            },
        }
        assert(out@ =~= key_bytes(self@));
        out
    }
}

/// A signer key listed on an account. Only Ed25519 signers can match a
/// signature hint; other kinds are kept so the account round-trips, but they
/// never verify anything.
pub enum SignerKey {
    Ed25519(Vec<u8>),
    Other,
}

/// Mathematical view of [`SignerKey`].
#[verifier::ext_equal]
pub enum SignerKeyV {
    Ed25519(Seq<u8>),
    Other,
}

impl View for SignerKey {
    type V = SignerKeyV;

    open spec fn view(&self) -> SignerKeyV {
        match self {
            SignerKey::Ed25519(k) => SignerKeyV::Ed25519(k@),
            SignerKey::Other => SignerKeyV::Other,
        }
    }
}

/// An additional signer on an account, with its configured weight.
pub struct Signer {
    pub key: SignerKey,
    pub weight: u32,
}

/// Mathematical view of [`Signer`].
#[verifier::ext_equal]
pub struct SignerV {
    pub key: SignerKeyV,
    pub weight: u32,
}

impl View for Signer {
    type V = SignerV;

    open spec fn view(&self) -> SignerV {
        SignerV { key: self.key@, weight: self.weight }
    }
}

/// The account state the sandbox maintains: identity, balance, sequence
/// number, and the signers that may authorize its transactions.
pub struct AccountEntry {
    pub account_id: Vec<u8>,
    pub balance: i64,
    pub seq_num: i64,
    pub signers: Vec<Signer>,
}

/// Mathematical view of [`AccountEntry`].
#[verifier::ext_equal]
pub struct AccountEntryV {
    pub account_id: Seq<u8>,
    pub balance: i64,
    pub seq_num: i64,
    pub signers: Seq<SignerV>,
}

impl View for AccountEntry {
    type V = AccountEntryV;

    open spec fn view(&self) -> AccountEntryV {
        AccountEntryV {
            account_id: self.account_id@,
            balance: self.balance,
            seq_num: self.seq_num,
            signers: self.signers@.map_values(|s: Signer| s@),
        }
    }
}

/// The payload of a ledger entry. Kinds the sandbox's logic never reads are
/// kept opaque under `Other`; their state lives entirely in the entry's wire
/// image.
pub enum EntryData {
    Account(AccountEntry),
    ContractData { contract: Vec<u8>, key: Vec<u8>, durability: Durability, val: Vec<u8> },
    ContractCode { hash: Vec<u8>, code: Vec<u8> },
    ConfigSetting { setting_id: u32 },
    Other,
}

/// Mathematical view of [`EntryData`].
#[verifier::ext_equal]
pub enum EntryDataV {
    Account(AccountEntryV),
    ContractData { contract: Seq<u8>, key: Seq<u8>, durability: Durability, val: Seq<u8> },
    ContractCode { hash: Seq<u8>, code: Seq<u8> },
    ConfigSetting { setting_id: u32 },
    Other,
}

impl View for EntryData {
    type V = EntryDataV;

    open spec fn view(&self) -> EntryDataV {
        match self {
            EntryData::Account(a) => EntryDataV::Account(a@),
            EntryData::ContractData { contract, key, durability, val } => EntryDataV::ContractData {
                contract: contract@,
                key: key@,
                durability: *durability,
                val: val@,
            },
            EntryData::ContractCode { hash, code } => EntryDataV::ContractCode {
                hash: hash@,
                code: code@,
            },
            EntryData::ConfigSetting { setting_id } => EntryDataV::ConfigSetting {
                setting_id: *setting_id,
            },
            EntryData::Other => EntryDataV::Other,
        }
    }
}

/// One ledger entry: its payload, the ledger sequence it was last modified
/// in, and its wire image as the execution engine consumes and produces it.
pub struct LedgerEntry {
    pub last_modified_ledger_seq: u32,
    pub data: EntryData,
    pub encoded: Vec<u8>,
}

/// Mathematical view of [`LedgerEntry`].
#[verifier::ext_equal]
pub struct LedgerEntryV {
    pub last_modified_ledger_seq: u32,
    pub data: EntryDataV,
    pub encoded: Seq<u8>,
}

impl View for LedgerEntry {
    type V = LedgerEntryV;

    open spec fn view(&self) -> LedgerEntryV {
        LedgerEntryV {
            last_modified_ledger_seq: self.last_modified_ledger_seq,
            data: self.data@,
            encoded: self.encoded@,
        }
    }
}

impl EntryDataV {
    /// Whether this entry kind carries a TTL: only contract code and
    /// contract data are evictable.
    pub open spec fn is_evictable(self) -> bool {
        match self {
            EntryDataV::ContractData { .. } => true,
            EntryDataV::ContractCode { .. } => true,
            _ => false,
        }
    }

    /// The key of this entry, for the kinds whose key the model can derive.
    pub open spec fn key(self) -> Option<LedgerKeyV> {
        match self {
            EntryDataV::Account(a) => Some(LedgerKeyV::Account { account_id: a.account_id }),
            EntryDataV::ContractData { contract, key, durability, .. } => Some(
                LedgerKeyV::ContractData { contract, key, durability },
            ),
            EntryDataV::ContractCode { hash, .. } => Some(LedgerKeyV::ContractCode { hash }),
            EntryDataV::ConfigSetting { setting_id } => Some(
                LedgerKeyV::ConfigSetting { setting_id },
            ),
            EntryDataV::Other => None,
        }
    }
}

impl EntryData {
    /// Whether this entry kind carries a TTL.
    pub fn is_evictable(&self) -> (r: bool)
        ensures
            r == self@.is_evictable(),
    {
        match self {
            EntryData::ContractData { .. } => true,
            EntryData::ContractCode { .. } => true,
            _ => false,
        }
    }

    /// The key of this entry, for the kinds whose key the model can derive.
    pub fn key(&self) -> (r: Option<LedgerKey>)
        ensures
            match r {
                Some(k) => self@.key() == Some(k@),
                None => self@.key() is None,
            },
    {
        match self {
            EntryData::Account(a) => Some(
                LedgerKey::Account { account_id: clone_bytes(&a.account_id) },
            ),
            EntryData::ContractData { contract, key, durability, .. } => Some(
                LedgerKey::ContractData {
                    contract: clone_bytes(contract),
                    key: clone_bytes(key),
                    durability: *durability,
                },
            ),
            EntryData::ContractCode { hash, .. } => Some(
                LedgerKey::ContractCode { hash: clone_bytes(hash) },
            ),
            EntryData::ConfigSetting { setting_id } => Some(
                LedgerKey::ConfigSetting { setting_id: *setting_id },
            ),
            EntryData::Other => None,
        }
    }
}

impl EntryData {
    /// An owned copy of this payload.
    pub fn duplicate(&self) -> (r: EntryData)
        ensures
            r@ == self@,
    {
        match self {
            EntryData::Account(a) => EntryData::Account(a.duplicate()),
            EntryData::ContractData { contract, key, durability, val } => EntryData::ContractData {
                contract: clone_bytes(contract),
                key: clone_bytes(key),
                durability: *durability,
                val: clone_bytes(val),
            },
            EntryData::ContractCode { hash, code } => EntryData::ContractCode {
                hash: clone_bytes(hash),
                code: clone_bytes(code),
            },
            EntryData::ConfigSetting { setting_id } => EntryData::ConfigSetting {
                setting_id: *setting_id,
            },
            EntryData::Other => EntryData::Other,
        }
    }
}

impl LedgerEntry {
    /// An owned copy of this entry.
    pub fn duplicate(&self) -> (r: LedgerEntry)
        ensures
            r@ == self@,
    {
        LedgerEntry {
            last_modified_ledger_seq: self.last_modified_ledger_seq,
            data: self.data.duplicate(),
            encoded: clone_bytes(&self.encoded),
        }
    }
}

/// Byte-for-byte equality of two byte vectors.
pub fn bytes_eq(a: &Vec<u8>, b: &Vec<u8>) -> (r: bool)
    ensures
        r == (a@ == b@),
{
    if a.len() != b.len() {
        return false;
    }
    let mut i: usize = 0;
    while i < a.len()
        invariant
            i <= a.len(),
            a@.len() == b@.len(),
            forall|j: int| 0 <= j < i ==> a@[j] == b@[j],
        decreases a.len() - i,
    {
        if a[i] != b[i] {
            return false;
        }
        i = i + 1;
    }
    assert(a@ =~= b@);
    true
}

/// The eight bytes of `x` in big-endian two's-complement order.
pub open spec fn i64_be(x: i64) -> Seq<u8> {
    u32_be(((x as u64) >> 32u64) as u32) + u32_be((x as u64) as u32)
}

/// Appends the eight bytes of `x` in big-endian order to `out`.
pub fn push_i64_be(out: &mut Vec<u8>, x: i64)
    ensures
        final(out)@ == old(out)@ + i64_be(x),
{
    let hi: u32 = ((x as u64) >> 32u64) as u32;
    let lo: u32 = (x as u64) as u32;
    push_u32_be(out, hi);
    push_u32_be(out, lo);
    assert(out@ =~= old(out)@ + i64_be(x));
}

/// Appends the bytes of `v` from `from` (inclusive) to `to` (exclusive) to
/// `out`.
pub fn push_range(out: &mut Vec<u8>, v: &Vec<u8>, from: usize, to: usize)
    requires
        from <= to <= v@.len(),
    ensures
        final(out)@ == old(out)@ + v@.subrange(from as int, to as int),
{
    let mut i: usize = from;
    assert(out@ =~= old(out)@ + v@.subrange(from as int, from as int));
    while i < to
        invariant
            from <= i <= to <= v@.len(),
            out@ == old(out)@ + v@.subrange(from as int, i as int),
        decreases to - i,
    {
        out.push(v[i]);
        i = i + 1;
        assert(out@ =~= old(out)@ + v@.subrange(from as int, i as int));
    }
}

impl Signer {
    /// An owned copy of this signer.
    pub fn duplicate(&self) -> (r: Signer)
        ensures
            r@ == self@,
    {
        let key = match &self.key {
            SignerKey::Ed25519(k) => SignerKey::Ed25519(clone_bytes(k)),
            SignerKey::Other => SignerKey::Other,
        };
        Signer { key, weight: self.weight }
    }
}

/// An owned copy of a signer list, preserving its view.
pub fn clone_signers(v: &Vec<Signer>) -> (r: Vec<Signer>)
    ensures
        r@.map_values(|s: Signer| s@) == v@.map_values(|s: Signer| s@),
{
    let mut out: Vec<Signer> = Vec::new();
    let mut i: usize = 0;
    while i < v.len()
        invariant
            i <= v.len(),
            out@.len() == i,
            forall|j: int| 0 <= j < i ==> (#[trigger] out@[j])@ == v@[j]@,
        decreases v.len() - i,
    {
        out.push(v[i].duplicate());
        i = i + 1;
    }
    assert(out@.map_values(|s: Signer| s@) =~= v@.map_values(|s: Signer| s@)) by {
        assert forall|j: int| #![trigger out@[j]] 0 <= j < v@.len() implies out@.map_values(
            |s: Signer| s@,
        )[j] == v@.map_values(|s: Signer| s@)[j] by {
            assert(out@[j]@ == v@[j]@);
        }
    }
    out
}

impl AccountEntry {
    /// An owned copy of this account entry.
    pub fn duplicate(&self) -> (r: AccountEntry)
        ensures
            r@ == self@,
    {
        AccountEntry {
            account_id: clone_bytes(&self.account_id),
            balance: self.balance,
            seq_num: self.seq_num,
            signers: clone_signers(&self.signers),
        }
    }
}

/// An owned copy of a list of byte vectors, element for element.
pub fn clone_byte_list(v: &Vec<Vec<u8>>) -> (r: Vec<Vec<u8>>)
    ensures
        r@.len() == v@.len(),
        forall|j: int| 0 <= j < v@.len() ==> (#[trigger] r@[j])@ == v@[j]@,
{
    let mut out: Vec<Vec<u8>> = Vec::new();
    let mut i: usize = 0;
    while i < v.len()
        invariant
            i <= v.len(),
            out@.len() == i,
            forall|j: int| 0 <= j < i ==> (#[trigger] out@[j])@ == v@[j]@,
        decreases v.len() - i,
    {
        out.push(clone_bytes(&v[i]));
        i = i + 1;
    }
    out
}

/// An owned copy of a byte vector.
pub fn clone_bytes(v: &Vec<u8>) -> (r: Vec<u8>)
    ensures
        r@ == v@,
{
    let mut out: Vec<u8> = Vec::new();
    let mut i: usize = 0;
    while i < v.len()
        invariant
            i <= v.len(),
            out@ == v@.subrange(0, i as int),
        decreases v.len() - i,
    {
        out.push(v[i]);
        i = i + 1;
        assert(out@ =~= v@.subrange(0, i as int));
    }
    assert(v@.subrange(0, v@.len() as int) =~= v@);
    out
}

} // verus!
