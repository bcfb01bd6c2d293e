//! Trusted wrappers around the hash primitives: SHA-256, RIPEMD-160, and
//! HMAC with SHA-256 / SHA-512.
//!
//! Each primitive has a fixed output width, so its result is modelled as a
//! sequence of that exact length whose bytes are given by an uninterpreted
//! function of the input.

use ripemd160::Digest;
use vstd::prelude::*;

verus! {

pub uninterp spec fn spec_sha256_byte(data: Seq<u8>, i: int) -> u8;

pub uninterp spec fn spec_ripemd160_byte(data: Seq<u8>, i: int) -> u8;

pub uninterp spec fn spec_hmac_sha256_byte(key: Seq<u8>, data: Seq<u8>, i: int) -> u8;

pub uninterp spec fn spec_hmac_sha512_byte(key: Seq<u8>, data: Seq<u8>, i: int) -> u8;

/// The SHA-256 digest of `data`: always 32 bytes.
pub open spec fn spec_sha256(data: Seq<u8>) -> Seq<u8> {
    Seq::new(32, |i: int| spec_sha256_byte(data, i))
}

/// The RIPEMD-160 digest of `data`: always 20 bytes.
pub open spec fn spec_ripemd160(data: Seq<u8>) -> Seq<u8> {
    Seq::new(20, |i: int| spec_ripemd160_byte(data, i))
}

/// The HMAC-SHA256 tag over `data` under `key`: always 32 bytes.
pub open spec fn spec_hmac_sha256(key: Seq<u8>, data: Seq<u8>) -> Seq<u8> {
    Seq::new(32, |i: int| spec_hmac_sha256_byte(key, data, i))
}

/// The HMAC-SHA512 tag over `data` under `key`: always 64 bytes.
pub open spec fn spec_hmac_sha512(key: Seq<u8>, data: Seq<u8>) -> Seq<u8> {
    Seq::new(64, |i: int| spec_hmac_sha512_byte(key, data, i))
}

/// Relies on `ring::digest::digest` with `SHA256`: a 32-byte digest that is a
/// function of the input bytes alone.
#[verifier::external_body]
pub fn sha256(data: &[u8]) -> (r: [u8; 32])
    ensures
        r@ == spec_sha256(data@),
        forall|i: int| 0 <= i < 32 ==> r@[i] == spec_sha256_byte(data@, i),
{
    ring::digest::digest(&ring::digest::SHA256, data).as_ref().try_into().unwrap()
}

/// Relies on `ripemd160::Ripemd160::digest`: a 20-byte digest that is a
/// function of the input bytes alone.
#[verifier::external_body]
pub fn ripemd160(data: &[u8]) -> (r: [u8; 20])
    ensures
        r@ == spec_ripemd160(data@),
        forall|i: int| 0 <= i < 20 ==> r@[i] == spec_ripemd160_byte(data@, i),
{
    let mut out = [0u8; 20];
    out.copy_from_slice(&ripemd160::Ripemd160::digest(data)[..]);
    out
}

/// Relies on `ring::hmac::sign` with `HMAC_SHA256`: a 32-byte tag that is a
/// function of the key and message bytes alone.
#[verifier::external_body]
pub fn hmac_sha256(key: &[u8], data: &[u8]) -> (r: [u8; 32])
    ensures
        r@ == spec_hmac_sha256(key@, data@),
        forall|i: int| 0 <= i < 32 ==> r@[i] == spec_hmac_sha256_byte(key@, data@, i),
{
    let hmac_key = ring::hmac::Key::new(ring::hmac::HMAC_SHA256, key);
    ring::hmac::sign(&hmac_key, data).as_ref().try_into().unwrap()
}

/// Relies on `ring::hmac::sign` with `HMAC_SHA512`: a 64-byte tag that is a
/// function of the key and message bytes alone.
#[verifier::external_body]
pub fn hmac_sha512(key: &[u8], data: &[u8]) -> (r: [u8; 64])
    ensures
        r@ == spec_hmac_sha512(key@, data@),
        forall|i: int| 0 <= i < 64 ==> r@[i] == spec_hmac_sha512_byte(key@, data@, i),
{
    let hmac_key = ring::hmac::Key::new(ring::hmac::HMAC_SHA512, key);
    ring::hmac::sign(&hmac_key, data).as_ref().try_into().unwrap()
}

/// Byte-for-byte equality of two slices, scanned in full with no early exit,
/// so that comparisons of authentication tags do not leak a matching prefix
/// through timing.
pub fn bytes_eq(a: &[u8], b: &[u8]) -> (r: bool)
    ensures
        r == (a@ == b@),
{
    if a.len() != b.len() {
        return false;
    }
    let n: usize = a.len();
    let mut diff: u8 = 0;
    for i in 0..n
        invariant
            n == a@.len(),
            n == b@.len(),
            diff == 0 <==> (forall|j: int| 0 <= j < i ==> a@[j] == b@[j]),
    {
        if a[i] != b[i] {
            diff = 1;
        }
    }
    proof {
        if diff == 0 {
            assert(a@ =~= b@);
        }
    }
    diff == 0
}

} // verus!
