//! The transaction's signing hash.
//!
//! The signing payload is domain-separated: the 32-byte network id, then the
//! wire tag of a plain transaction, then the wire image of the transaction
//! body. Signatures are not part of the body, so the hash is independent of
//! them.

use vstd::prelude::*;
use vstd::string::StringExecFns;

use crate::crypto::{sha256, sha256_of};
use crate::entry::{clone_bytes, push_bytes, push_u32_be, u32_be};
use crate::envelope::TransactionEnvelope;
use crate::model::{ChangeKind, EntryDiff, LedgerEntryChange, LedgerInfo};

verus! {

/// The signing payload: network id, the plain-transaction wire tag, and the
/// transaction body's wire image.
pub open spec fn signature_payload(network_id: Seq<u8>, tx_body: Seq<u8>) -> Seq<u8> {
    network_id + u32_be(2) + tx_body
}

/// The transaction's signing hash: the digest of its signing payload. This
/// hash is also the transaction's identifier.
pub open spec fn tx_hash_of(network_id: Seq<u8>, tx_body: Seq<u8>) -> Seq<u8> {
    sha256_of(signature_payload(network_id, tx_body))
}

/// Computes the signing hash of `envelope` under the network id of
/// `ledger_info`.
pub fn tx_hash(envelope: &TransactionEnvelope, ledger_info: &LedgerInfo) -> (r: Vec<u8>)
    ensures
        r@ == tx_hash_of(ledger_info@.network_id, envelope@.tx_body_xdr),
        r@.len() == 32,
{
    let mut payload = clone_bytes(&ledger_info.network_id);
    push_u32_be(&mut payload, 2);
    push_bytes(&mut payload, &envelope.tx_body_xdr);
    assert(payload@ =~= signature_payload(ledger_info@.network_id, envelope@.tx_body_xdr));
    sha256(&payload)
}

/// Whether a simulated diff is well-formed: it has a state on at least one
/// side.
pub open spec fn diff_ok(d: &EntryDiff) -> bool {
    d.before is Some || d.after is Some
}

/// The change kind a diff stands for: anything with a new state is an
/// update; a vanished state is a removal.
pub open spec fn diff_kind(d: &EntryDiff) -> ChangeKind {
    if d.after is Some {
        ChangeKind::Updated
    } else {
        ChangeKind::Removed
    }
}

/// Whether a response state change faithfully reflects one simulated diff:
/// the kind the diff stands for, the diff's key image, and the before and
/// after images carried over unchanged.
pub open spec fn change_matches_diff(c: &LedgerEntryChange, d: &EntryDiff) -> bool {
    &&& c.change_type == diff_kind(d)
    &&& c.key@ == d.key@
    &&& (c.before matches Some(b) <==> d.before is Some)
    &&& (c.before matches Some(b) ==> (d.before matches Some(o) && b@ == o@))
    &&& (c.after matches Some(b) <==> d.after is Some)
    &&& (c.after matches Some(b) ==> (d.after matches Some(o) && b@ == o@))
}

/// Turns the simulation engine's diffs into the response's state changes.
/// Fails exactly when some diff has no state on either side.
#[verifier::loop_isolation(false)]
pub fn changes_from_simulation(diffs: &Vec<EntryDiff>) -> (r: Result<
    Vec<LedgerEntryChange>,
    String,
>)
    ensures
        match r {
            Ok(cs) => (forall|i: int| 0 <= i < diffs@.len() ==> diff_ok(&diffs@[i]))
                && cs@.len() == diffs@.len() && (forall|i: int|
                0 <= i < diffs@.len() ==> change_matches_diff(&(#[trigger] cs@[i]), &diffs@[i])),
            Err(_) => exists|i: int| 0 <= i < diffs@.len() && !diff_ok(&#[trigger] diffs@[i]),
        },
{
    let mut out: Vec<LedgerEntryChange> = Vec::new();
    let mut i: usize = 0;
    while i < diffs.len()
        invariant
            i <= diffs@.len(),
            out@.len() == i,
            forall|j: int| 0 <= j < i ==> diff_ok(&diffs@[j]),
            forall|j: int|
                0 <= j < i ==> change_matches_diff(&(#[trigger] out@[j]), &diffs@[j]),
        decreases diffs@.len() - i,
    {
        let d = &diffs[i];
        let change_type = match (&d.before, &d.after) {
            (Option::Some(_), Option::Some(_)) => ChangeKind::Updated,
            (Option::Some(_), Option::None) => ChangeKind::Removed,
            (Option::None, Option::Some(_)) => ChangeKind::Updated,
            (Option::None, Option::None) => {
                return Err(String::from_str("a simulated diff holds no state on either side"));
            },
        };
        let before = match &d.before {
            Some(b) => Some(clone_bytes(b)),
            None => None,
        };
        let after = match &d.after {
            Some(b) => Some(clone_bytes(b)),
            None => None,
        };
        out.push(
            LedgerEntryChange { change_type, key: clone_bytes(&d.key), before, after },
        );
        i = i + 1;
    }
    Ok(out)
}

} // verus!
