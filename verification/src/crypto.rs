//! Cryptographic primitives the session engine relies on, as narrow
//! contracts: a SHA-256 digest and an Argon2id key derivation.  Both are
//! pure functions of their inputs; the contracts name the results and state
//! only the output lengths the primitives document.

use vstd::prelude::*;

verus! {

/// The SHA-256 digest of a byte string.
pub uninterp spec fn sha256_of(data: Seq<u8>) -> Seq<u8>;

/// Relies on sha2's Sha256: the digest depends on the input alone and is 32
/// bytes long.
#[verifier::external_body]
pub fn sha256(data: &Vec<u8>) -> (r: Vec<u8>)
    ensures
        r@ == sha256_of(data@),
        r@.len() == 32,
{
    let mut hasher = <sha2::Sha256 as sha2::Digest>::new();
    sha2::Digest::update(&mut hasher, data.as_slice());
    sha2::Digest::finalize(hasher).to_vec()
}

/// The Argon2id key derived from a passphrase and a 16-byte salt, with the
/// crate's default cost parameters, as a 256-bit key.
pub uninterp spec fn argon2id_of(pwd: Seq<u8>, salt: Seq<u8>) -> Seq<u8>;

/// Relies on argon2's Argon2id (default parameters): the derived key
/// depends on passphrase and salt alone and fills the 32-byte output.  A
/// 16-byte salt and a password shorter than 2^32 bytes are accepted.
#[verifier::external_body]
pub fn argon2id_derive(pwd: &Vec<u8>, salt: &Vec<u8>) -> (r: Vec<u8>)
    requires
        salt@.len() == 16,
        pwd@.len() < 0x1_0000_0000,
    ensures
        r@ == argon2id_of(pwd@, salt@),
        r@.len() == 32,
{
    let mut out = [0u8; 32];
    argon2::Argon2::default().hash_password_into(pwd, salt, &mut out).expect(
        "the admitted salt, password and output lengths cannot be rejected",
    );
    out.to_vec()
}

} // verus!
