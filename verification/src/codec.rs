//! Encoding helpers at the wire boundary: hexadecimal and base64 text
//! encodings, and the two fixed wire images the sandbox has to produce
//! itself — a funded account entry and a transaction result.
//!
//! Hexadecimal and base64 are specified exactly. The two wire images are
//! deterministic functions of their inputs and are given names.

use vstd::prelude::*;

use soroban_env_host::xdr::{
    AccountEntryExt, AccountId, InvokeHostFunctionResult, LedgerEntryData, LedgerEntryExt,
    Limits, OperationResult, OperationResultTr, PublicKey, SequenceNumber, Thresholds,
    TransactionResult, TransactionResultExt, TransactionResultResult, Uint256, WriteXdr,
};

verus! {

/// The sixteen lower-case hexadecimal digits, in value order.
pub open spec fn hex_digits() -> Seq<char> {
    seq!['0', '1', '2', '3', '4', '5', '6', '7', '8', '9', 'a', 'b', 'c', 'd', 'e', 'f']
}

/// Lower-case hexadecimal encoding of a byte string: two digits per byte,
/// high nibble first.
pub open spec fn hex_of(bytes: Seq<u8>) -> Seq<char> {
    Seq::new(
        bytes.len() * 2,
        |i: int|
            if i % 2 == 0 {
                hex_digits()[(bytes[i / 2] >> 4u8) as int]
            } else {
                hex_digits()[(bytes[i / 2] & 0xfu8) as int]
            },
    )
}

/// Whether `c` is a hexadecimal digit, in either case.
pub open spec fn is_hex_char(c: char) -> bool {
    ('0' <= c && c <= '9') || ('a' <= c && c <= 'f') || ('A' <= c && c <= 'F')
}

/// The value of a hexadecimal digit.
pub open spec fn hex_char_value(c: char) -> u8 {
    if '0' <= c && c <= '9' {
        ((c as u8) - ('0' as u8)) as u8
    } else if 'a' <= c && c <= 'f' {
        ((c as u8) - ('a' as u8) + 10) as u8
    } else {
        ((c as u8) - ('A' as u8) + 10) as u8
    }
}

/// Whether a character string is a well-formed hexadecimal encoding: an even
/// number of digits.
pub open spec fn hex_parse_ok(s: Seq<char>) -> bool {
    s.len() % 2 == 0 && (forall|i: int| 0 <= i < s.len() ==> is_hex_char(#[trigger] s[i]))
}

/// The byte string a well-formed hexadecimal encoding stands for.
pub open spec fn hex_parsed(s: Seq<char>) -> Seq<u8> {
    Seq::new(
        s.len() / 2,
        |i: int| (hex_char_value(s[2 * i]) * 16 + hex_char_value(s[2 * i + 1])) as u8,
    )
}

/// Relies on hex::encode: lower-case hexadecimal, two digits per byte, high
/// nibble first.
#[verifier::external_body]
pub fn hex_encode(bytes: &Vec<u8>) -> (r: String)
    ensures
        r@ == hex_of(bytes@),
{
    hex::encode(bytes.as_slice())
}

/// Relies on hex::decode: succeeds exactly on an even number of hexadecimal
/// digits (either case), yielding the bytes they stand for.
#[verifier::external_body]
pub fn hex_decode(s: &String) -> (r: Option<Vec<u8>>)
    ensures
        match r {
            Some(v) => hex_parse_ok(s@) && v@ == hex_parsed(s@),
            None => !hex_parse_ok(s@),
        },
{
    hex::decode(s.as_str()).ok()
}

/// The sixty-four characters of the standard base64 alphabet, in value
/// order.
pub open spec fn base64_alphabet() -> Seq<char> {
    seq![
        'A', 'B', 'C', 'D', 'E', 'F', 'G', 'H', 'I', 'J', 'K', 'L', 'M', 'N', 'O', 'P', 'Q',
        'R', 'S', 'T', 'U', 'V', 'W', 'X', 'Y', 'Z', 'a', 'b', 'c', 'd', 'e', 'f', 'g', 'h',
        'i', 'j', 'k', 'l', 'm', 'n', 'o', 'p', 'q', 'r', 's', 't', 'u', 'v', 'w', 'x', 'y',
        'z', '0', '1', '2', '3', '4', '5', '6', '7', '8', '9', '+', '/'
    ]
}

/// The character at position `i` of a base64 encoding: positions cover the
/// input three bytes per four characters, high bits first, with `=` padding
/// where the final group runs past the input.
pub open spec fn base64_char(bytes: Seq<u8>, i: int) -> char {
    let g = i / 4;
    let p = i % 4;
    let b0 = bytes[3 * g];
    let b1: u8 = if 3 * g + 1 < bytes.len() {
        bytes[3 * g + 1]
    } else {
        0
    };
    let b2: u8 = if 3 * g + 2 < bytes.len() {
        bytes[3 * g + 2]
    } else {
        0
    };
    if p == 0 {
        base64_alphabet()[(b0 >> 2u8) as int]
    } else if p == 1 {
        base64_alphabet()[(((b0 & 3u8) << 4u8) | (b1 >> 4u8)) as int]
    } else if p == 2 {
        if 3 * g + 1 < bytes.len() {
            base64_alphabet()[(((b1 & 15u8) << 2u8) | (b2 >> 6u8)) as int]
        } else {
            '='
        }
    } else {
        if 3 * g + 2 < bytes.len() {
            base64_alphabet()[(b2 & 63u8) as int]
        } else {
            '='
        }
    }
}

/// The base64 encoding (standard alphabet, padded) of a byte string: four
/// characters per three input bytes, rounded up.
pub open spec fn base64_of(bytes: Seq<u8>) -> Seq<char> {
    Seq::new(((bytes.len() + 2) / 3) * 4, |i: int| base64_char(bytes, i))
}

/// Relies on the base64 crate's standard-alphabet, padded engine, matching
/// the exact encoding [`base64_of`] spells out.
#[verifier::external_body]
pub fn base64_encode(bytes: &Vec<u8>) -> (r: String)
    ensures
        r@ == base64_of(bytes@),
{
    base64::Engine::encode(&base64::engine::general_purpose::STANDARD, bytes.as_slice())
}

/// The wire image of a whole-ledger-entry record holding an account with the
/// given identity, balance, sequence number and thresholds, last modified at
/// the given ledger sequence, with no extra signers or sub-entries.
pub uninterp spec fn account_entry_xdr_of(
    id: Seq<u8>,
    balance: i64,
    seq: i64,
    thresholds: Seq<u8>,
    last_modified: u32,
) -> Seq<u8>;

/// Relies on the wire schema's `LedgerEntry`/`AccountEntry` encoder: the
/// image is a function of the fields alone. Fails only when `id` is not 32
/// bytes or `thresholds` not 4.
#[verifier::external_body]
pub fn encode_account_entry(
    id: &Vec<u8>,
    balance: i64,
    seq: i64,
    thresholds: &Vec<u8>,
    last_modified: u32,
) -> (r: Option<Vec<u8>>)
    ensures
        match r {
            Some(v) => v@ == account_entry_xdr_of(id@, balance, seq, thresholds@, last_modified),
            None => !(id@.len() == 32 && thresholds@.len() == 4),
        },
{
    let key: [u8; 32] = id.as_slice().try_into().ok()?;
    let th: [u8; 4] = thresholds.as_slice().try_into().ok()?;
    let account = soroban_env_host::xdr::AccountEntry {
        account_id: AccountId(PublicKey::PublicKeyTypeEd25519(Uint256(key))),
        balance, seq_num: SequenceNumber(seq), num_sub_entries: 0, inflation_dest: None,
        flags: 0, home_domain: Default::default(), thresholds: Thresholds(th),
        signers: Default::default(), ext: AccountEntryExt::V0,
    };
    let entry = soroban_env_host::xdr::LedgerEntry {
        last_modified_ledger_seq: last_modified, data: LedgerEntryData::Account(account),
        ext: LedgerEntryExt::V0,
    };
    WriteXdr::to_xdr(&entry, Limits::none()).ok()
}

/// The base64 wire image of a transaction result with the given charged fee:
/// on success, a single invoke-host-function operation result carrying the
/// given 32-byte hash; on failure, a single trapped invoke-host-function
/// operation result.
pub uninterp spec fn tx_result_b64_of(fee: i64, success: bool, op_hash: Seq<u8>) -> Seq<char>;

/// Relies on the wire schema's `TransactionResult` encoder: the image is a
/// function of the fields alone. Fails only when `success` is set and
/// `op_hash` is not 32 bytes.
#[verifier::external_body]
pub fn encode_tx_result(fee: i64, success: bool, op_hash: &Vec<u8>) -> (r: Option<String>)
    ensures
        match r {
            Some(s) => s@ == tx_result_b64_of(fee, success, op_hash@),
            None => success && op_hash@.len() != 32,
        },
{
    let inner = if success {
        let h: [u8; 32] = op_hash.as_slice().try_into().ok()?;
        InvokeHostFunctionResult::Success(soroban_env_host::xdr::Hash(h))
    } else { InvokeHostFunctionResult::Trapped };
    let ops = vec![OperationResult::OpInner(OperationResultTr::InvokeHostFunction(inner))];
    let result = if success { TransactionResultResult::TxSuccess(ops.try_into().ok()?) }
    else { TransactionResultResult::TxFailed(ops.try_into().ok()?) };
    let tr = TransactionResult { fee_charged: fee, result, ext: TransactionResultExt::V0 };
    WriteXdr::to_xdr_base64(&tr, Limits::none()).ok()
}

} // verus!
