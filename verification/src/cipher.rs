//! Trusted wrappers around AES-128-CBC with PKCS7 padding.
//!
//! Encryption is a function of key, initialization vector, and plaintext
//! alone; decryption inverts it, failing on a ciphertext that is not a
//! whole number of blocks or whose final block unpads incorrectly.

use block_modes::BlockMode;
use vstd::prelude::*;

verus! {

/// The AES-128-CBC encryption of `plaintext` under `key` and `iv`, with
/// PKCS7 padding.
pub uninterp spec fn spec_aes_cbc_encrypt(key: Seq<u8>, iv: Seq<u8>, plaintext: Seq<u8>) -> Seq<
    u8,
>;

/// The AES-128-CBC decryption of `ciphertext` under `key` and `iv`, or
/// `None` when the ciphertext is not a whole number of blocks or its
/// padding is malformed.
pub uninterp spec fn spec_aes_cbc_decrypt(key: Seq<u8>, iv: Seq<u8>, ciphertext: Seq<u8>) -> Option<
    Seq<u8>,
>;

/// Relies on `block_modes::BlockMode::encrypt_vec` over `Cbc<Aes128,
/// Pkcs7>`: a function of key, IV, and plaintext alone; PKCS7 always pads
/// to the next whole block; and `decrypt_vec` inverts it.
#[verifier::external_body]
pub fn aes_cbc_encrypt(key: &[u8], iv: &[u8], plaintext: &[u8]) -> (r: Vec<u8>)
    requires
        key@.len() == 16,
        iv@.len() == 16,
    ensures
        r@ == spec_aes_cbc_encrypt(key@, iv@, plaintext@),
        r@.len() == plaintext@.len() + 16 - (plaintext@.len() % 16),
        spec_aes_cbc_decrypt(key@, iv@, r@) == Some(plaintext@),
{
    let cipher = block_modes::Cbc::<aes::Aes128, block_modes::block_padding::Pkcs7>::new_from_slices(
        key,
        iv,
    ).unwrap();
    cipher.encrypt_vec(plaintext)
}

/// Relies on `block_modes::BlockMode::decrypt_vec` over `Cbc<Aes128,
/// Pkcs7>`: a function of key, IV, and ciphertext alone, failing exactly
/// on a ciphertext that is not a whole number of blocks or unpads
/// incorrectly.
#[verifier::external_body]
pub fn aes_cbc_decrypt(key: &[u8], iv: &[u8], ciphertext: &[u8]) -> (r: Option<Vec<u8>>)
    requires
        key@.len() == 16,
        iv@.len() == 16,
    ensures
        match r {
            Some(p) => spec_aes_cbc_decrypt(key@, iv@, ciphertext@) == Some(p@),
            None => spec_aes_cbc_decrypt(key@, iv@, ciphertext@) is None,
        },
{
    let cipher = block_modes::Cbc::<aes::Aes128, block_modes::block_padding::Pkcs7>::new_from_slices(
        key,
        iv,
    ).unwrap();
    cipher.decrypt_vec(ciphertext).ok()
}

} // verus!
