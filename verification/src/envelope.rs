//! The transaction envelope, modelled as plain data.
//!
//! The sandbox supports exactly one shape of transaction: a single
//! invoke-host-function operation. The fields the sandbox's own logic reads
//! (source, sequence number, fee, preconditions, signatures, footprint,
//! restored indices) are plain values; the parts only the execution engine
//! interprets (the host function, authorization entries and resource
//! declaration) are carried as opaque wire images, as is the transaction
//! body the signing payload is built from.

use vstd::prelude::*;

use crate::entry::{LedgerKey, LedgerKeyV};

verus! {

/// A signature over the transaction's signing hash, with the four-byte hint
/// that names the verifying key: the last four bytes of that key.
pub struct DecoratedSignature {
    pub hint: Vec<u8>,
    pub signature: Vec<u8>,
}

/// Mathematical view of [`DecoratedSignature`].
#[verifier::ext_equal]
pub struct DecoratedSignatureV {
    pub hint: Seq<u8>,
    pub signature: Seq<u8>,
}

impl View for DecoratedSignature {
    type V = DecoratedSignatureV;

    open spec fn view(&self) -> DecoratedSignatureV {
        DecoratedSignatureV { hint: self.hint@, signature: self.signature@ }
    }
}

/// The transaction's preconditions, as far as the sandbox enforces them: no
/// precondition, a closed time window, or the extended form, which is
/// accepted but not enforced.
#[derive(Clone, Copy, Debug, PartialEq, Eq, Structural)]
pub enum Preconditions {
    Unrestricted,
    Time { min_time: u64, max_time: u64 },
    Extended,
}

/// A transaction envelope holding one invoke-host-function operation.
pub struct TransactionEnvelope {
    /// The source account's 32-byte master verifying key.
    pub source_account: Vec<u8>,
    /// The declared fee.
    pub fee: u32,
    /// The transaction's sequence number; it must be one past the account's.
    pub seq_num: i64,
    /// Preconditions on when the transaction may run.
    pub cond: Preconditions,
    /// The signatures authorizing the transaction.
    pub signatures: Vec<DecoratedSignature>,
    /// Wire image of the host function to invoke; opaque to the sandbox.
    pub host_function: Vec<u8>,
    /// Wire images of the authorization entries; opaque to the sandbox.
    pub auth: Vec<Vec<u8>>,
    /// Wire image of the resource declaration handed to the engine.
    pub resources: Vec<u8>,
    /// The declared read-only footprint, in wire order.
    pub footprint_read_only: Vec<LedgerKey>,
    /// The declared read-write footprint, in wire order.
    pub footprint_read_write: Vec<LedgerKey>,
    /// Indices into the read-write footprint of entries restored from
    /// archival by this transaction.
    pub restored_indices: Vec<u32>,
    /// Wire image of the transaction body, the part the signing payload is
    /// built from; it excludes the signatures.
    pub tx_body_xdr: Vec<u8>,
    /// The envelope as ingested, in its textual wire form.
    pub envelope_xdr: String,
}

/// Mathematical view of [`TransactionEnvelope`].
#[verifier::ext_equal]
pub struct TransactionEnvelopeV {
    pub source_account: Seq<u8>,
    pub fee: u32,
    pub seq_num: i64,
    pub cond: Preconditions,
    pub signatures: Seq<DecoratedSignatureV>,
    pub host_function: Seq<u8>,
    pub auth: Seq<Seq<u8>>,
    pub resources: Seq<u8>,
    pub footprint_read_only: Seq<LedgerKeyV>,
    pub footprint_read_write: Seq<LedgerKeyV>,
    pub restored_indices: Seq<u32>,
    pub tx_body_xdr: Seq<u8>,
    pub envelope_xdr: Seq<char>,
}

impl View for TransactionEnvelope {
    type V = TransactionEnvelopeV;

    open spec fn view(&self) -> TransactionEnvelopeV {
        TransactionEnvelopeV {
            source_account: self.source_account@,
            fee: self.fee,
            seq_num: self.seq_num,
            cond: self.cond,
            signatures: self.signatures@.map_values(|s: DecoratedSignature| s@),
            host_function: self.host_function@,
            auth: self.auth@.map_values(|a: Vec<u8>| a@),
            resources: self.resources@,
            footprint_read_only: self.footprint_read_only@.map_values(|k: LedgerKey| k@),
            footprint_read_write: self.footprint_read_write@.map_values(|k: LedgerKey| k@),
            restored_indices: self.restored_indices@,
            tx_body_xdr: self.tx_body_xdr@,
            envelope_xdr: self.envelope_xdr@,
        }
    }
}

} // verus!
