//! Cryptographic primitives the sandbox relies on: the 256-bit digest that
//! identifies transactions, keys and contract code, and Ed25519 signature
//! verification.
//!
//! Both are deterministic functions of their byte inputs alone, so each is
//! given a name that contracts elsewhere in the crate speak of.

use vstd::prelude::*;

verus! {

/// The 32-byte SHA-256 digest of a byte string.
pub uninterp spec fn sha256_of(bytes: Seq<u8>) -> Seq<u8>;

/// Whether `sig` is a valid Ed25519 signature of `msg` under the verifying
/// key `pk`. False whenever `pk` is not a valid key encoding.
pub uninterp spec fn ed25519_valid(pk: Seq<u8>, msg: Seq<u8>, sig: Seq<u8>) -> bool;

/// Relies on sha2's SHA-256 implementation; its digest is a function of the
/// input bytes alone and is always 32 bytes long.
#[verifier::external_body]
pub fn sha256(data: &Vec<u8>) -> (r: Vec<u8>)
    ensures
        r@ == sha256_of(data@),
        r@.len() == 32,
{
    <sha2::Sha256 as sha2::Digest>::digest(data.as_slice()).to_vec()
}

/// Relies on ed25519-dalek's `VerifyingKey::verify`: verification is a
/// deterministic function of key, message and signature bytes. Returns false
/// when the key or signature bytes do not have the required length or do not
/// decode to a valid key.
#[verifier::external_body]
pub fn ed25519_verify(pk: &Vec<u8>, msg: &Vec<u8>, sig: &Vec<u8>) -> (r: bool)
    ensures
        pk@.len() == 32 && sig@.len() == 64 ==> r == ed25519_valid(pk@, msg@, sig@),
        !(pk@.len() == 32 && sig@.len() == 64) ==> r == false,
{
    let key_bytes: [u8; 32] = match pk.as_slice().try_into() { Ok(a) => a, Err(_) => return false };
    let vk = match ed25519_dalek::VerifyingKey::from_bytes(&key_bytes) {
        Ok(v) => v,
        Err(_) => return false,
    };
    let sig_bytes: [u8; 64] = match sig.as_slice().try_into() { Ok(a) => a, Err(_) => return false };
    let signature = ed25519_dalek::Signature::from_bytes(&sig_bytes);
    ed25519_dalek::Verifier::verify(&vk, msg.as_slice(), &signature).is_ok()
}

} // verus!
