//! Elliptic-curve keys over secp256k1, carried as their canonical byte
//! encodings.
//!
//! A [`PublicKey`] holds the 33-byte compressed encoding of a curve point;
//! a [`PrivateKey`] holds a 32-byte scalar in the valid secret-key range.
//! The curve operations — base-point multiplication, tweak addition, point
//! combination, and scalar multiplication — are supplied by the `secp256k1`
//! library and named here as uninterpreted functions from bytes to bytes.

use vstd::prelude::*;

use crate::bitcoin::byteorder::read_bytes_32;

verus! {

/// The canonical compressed encoding of the point that `s` encodes, if `s`
/// is a valid SEC1 public-key encoding.
pub uninterp spec fn spec_pubkey_parse(s: Seq<u8>) -> Option<Seq<u8>>;

/// Whether `s` is a 32-byte scalar in the valid secret-key range.
pub uninterp spec fn spec_seckey_valid(s: Seq<u8>) -> bool;

/// The compressed public key of the secret scalar `s`.
pub uninterp spec fn spec_pubkey_of_secret(s: Seq<u8>) -> Seq<u8>;

/// The compressed sum of the point `p` and the tweak `t` times the base
/// point, or `None` when the tweak or the sum is degenerate.
pub uninterp spec fn spec_pubkey_tweak_add(p: Seq<u8>, t: Seq<u8>) -> Option<Seq<u8>>;

/// The scalar sum of `s` and `t` modulo the curve order, or `None` when the
/// sum leaves the valid secret-key range.
pub uninterp spec fn spec_seckey_tweak_add(s: Seq<u8>, t: Seq<u8>) -> Option<Seq<u8>>;

/// The compressed sum of the points `a` and `b`, or `None` when the sum is
/// the point at infinity.
pub uninterp spec fn spec_pubkey_combine(a: Seq<u8>, b: Seq<u8>) -> Option<Seq<u8>>;

/// The compressed product of the point `p` by the scalar `t`, or `None`
/// when the scalar is out of range or the product degenerate.
pub uninterp spec fn spec_pubkey_mul_tweak(p: Seq<u8>, t: Seq<u8>) -> Option<Seq<u8>>;

/// Whether `s` is a well-formed 64-byte compact ECDSA signature.
pub uninterp spec fn spec_sig_valid(s: Seq<u8>) -> bool;

/// Whether `sig` is a valid ECDSA signature by `key` over the 32-byte
/// message digest `digest`.
pub uninterp spec fn spec_ecdsa_verify(digest: Seq<u8>, sig: Seq<u8>, key: Seq<u8>) -> bool;

/// Whether `s` is the canonical compressed encoding of a curve point.
pub open spec fn is_pubkey(s: Seq<u8>) -> bool {
    spec_pubkey_parse(s) == Some(s)
}

/// Relies on `secp256k1::SecretKey::from_slice`: it accepts exactly the
/// 32-byte scalars in the valid secret-key range.
#[verifier::external_body]
fn seckey_check(bytes: &[u8]) -> (r: bool)
    ensures
        r == spec_seckey_valid(bytes@),
        r ==> bytes@.len() == 32,
{
    secp256k1::SecretKey::from_slice(bytes).is_ok()
}

/// Relies on `secp256k1::PublicKey::from_slice` and `serialize`: parsing
/// accepts exactly the valid SEC1 encodings, and serializing the parsed
/// point yields its canonical compressed form, which parses back to itself.
#[verifier::external_body]
fn pubkey_parse_raw(bytes: &[u8]) -> (r: Option<[u8; 33]>)
    ensures
        match r {
            Some(c) => {
                &&& spec_pubkey_parse(bytes@) == Some(c@)
                &&& spec_pubkey_parse(c@) == Some(c@)
            },
            None => spec_pubkey_parse(bytes@) is None,
        },
{
    match secp256k1::PublicKey::from_slice(bytes) {
        Ok(pk) => Some(pk.serialize()),
        Err(_) => None,
    }
}

/// Relies on `secp256k1::PublicKey::from_secret_key` and `serialize`: the
/// public key of a valid secret key, in canonical compressed form.
#[verifier::external_body]
fn pubkey_from_secret_raw(bytes: &[u8; 32]) -> (r: [u8; 33])
    requires
        spec_seckey_valid(bytes@),
    ensures
        r@ == spec_pubkey_of_secret(bytes@),
        spec_pubkey_parse(r@) == Some(r@),
{
    let sk = secp256k1::SecretKey::from_slice(bytes).unwrap();
    let pk = secp256k1::PublicKey::from_secret_key(&secp256k1::Secp256k1::signing_only(), &sk);
    pk.serialize()
}

/// Relies on `secp256k1::PublicKey::add_exp_assign`: adds `tweak` times the
/// base point to the point, failing on an out-of-range tweak or a
/// degenerate sum; the result is re-serialized in canonical form.
#[verifier::external_body]
fn pubkey_tweak_add_raw(key: &[u8; 33], tweak: &[u8; 32]) -> (r: Option<[u8; 33]>)
    requires
        is_pubkey(key@),
    ensures
        match r {
            Some(c) => {
                &&& spec_pubkey_tweak_add(key@, tweak@) == Some(c@)
                &&& spec_pubkey_parse(c@) == Some(c@)
            },
            None => spec_pubkey_tweak_add(key@, tweak@) is None,
        },
{
    let mut pk = secp256k1::PublicKey::from_slice(key).unwrap();
    match pk.add_exp_assign(&secp256k1::Secp256k1::verification_only(), tweak) {
        Ok(()) => Some(pk.serialize()),
        Err(_) => None,
    }
}

/// Relies on `secp256k1::SecretKey::add_assign`: adds `tweak` to the scalar
/// modulo the curve order, failing when the sum leaves the valid range.
#[verifier::external_body]
fn seckey_tweak_add_raw(key: &[u8; 32], tweak: &[u8; 32]) -> (r: Option<[u8; 32]>)
    requires
        spec_seckey_valid(key@),
    ensures
        match r {
            Some(c) => {
                &&& spec_seckey_tweak_add(key@, tweak@) == Some(c@)
                &&& spec_seckey_valid(c@)
            },
            None => spec_seckey_tweak_add(key@, tweak@) is None,
        },
{
    let mut sk = secp256k1::SecretKey::from_slice(key).unwrap();
    match sk.add_assign(tweak) {
        Ok(()) => {
            let mut out = [0u8; 32];
            out.copy_from_slice(&sk[..]);
            Some(out)
        },
        Err(_) => None,
    }
}

/// Relies on `secp256k1::PublicKey::combine`: the sum of two points,
/// failing when the sum is the point at infinity; the result is
/// re-serialized in canonical form.
#[verifier::external_body]
fn pubkey_combine_raw(a: &[u8; 33], b: &[u8; 33]) -> (r: Option<[u8; 33]>)
    requires
        is_pubkey(a@),
        is_pubkey(b@),
    ensures
        match r {
            Some(c) => {
                &&& spec_pubkey_combine(a@, b@) == Some(c@)
                &&& spec_pubkey_parse(c@) == Some(c@)
            },
            None => spec_pubkey_combine(a@, b@) is None,
        },
{
    let ka = secp256k1::PublicKey::from_slice(a).unwrap();
    let kb = secp256k1::PublicKey::from_slice(b).unwrap();
    match ka.combine(&kb) {
        Ok(c) => Some(c.serialize()),
        Err(_) => None,
    }
}

/// Relies on `secp256k1::PublicKey::mul_assign`: multiplies the point by a
/// 32-byte scalar, failing on an out-of-range scalar or a degenerate
/// product; the result is re-serialized in canonical form.
#[verifier::external_body]
fn pubkey_mul_tweak_raw(key: &[u8; 33], tweak: &[u8]) -> (r: Option<[u8; 33]>)
    requires
        is_pubkey(key@),
    ensures
        match r {
            Some(c) => {
                &&& spec_pubkey_mul_tweak(key@, tweak@) == Some(c@)
                &&& spec_pubkey_parse(c@) == Some(c@)
            },
            None => spec_pubkey_mul_tweak(key@, tweak@) is None,
        },
{
    let mut pk = secp256k1::PublicKey::from_slice(key).unwrap();
    match pk.mul_assign(&secp256k1::Secp256k1::verification_only(), tweak) {
        Ok(()) => Some(pk.serialize()),
        Err(_) => None,
    }
}

/// Relies on `secp256k1::Signature::from_compact`: it accepts exactly the
/// well-formed 64-byte compact signatures.
#[verifier::external_body]
fn sig_check_raw(bytes: &[u8]) -> (r: bool)
    ensures
        r == spec_sig_valid(bytes@),
        r ==> bytes@.len() == 64,
{
    secp256k1::Signature::from_compact(bytes).is_ok()
}

/// Relies on `secp256k1::Secp256k1::verify`: whether the signature checks
/// out over the digest under the key, a function of the three inputs alone.
#[verifier::external_body]
fn ecdsa_verify_raw(digest: &[u8; 32], sig: &[u8; 64], key: &[u8; 33]) -> (r: bool)
    requires
        spec_sig_valid(sig@),
        is_pubkey(key@),
    ensures
        r == spec_ecdsa_verify(digest@, sig@, key@),
{
    let msg = secp256k1::Message::from_slice(digest).unwrap();
    let s = secp256k1::Signature::from_compact(sig).unwrap();
    let pk = secp256k1::PublicKey::from_slice(key).unwrap();
    secp256k1::Secp256k1::verification_only().verify(&msg, &s, &pk).is_ok()
}

/// A public key: the canonical 33-byte compressed encoding of a curve
/// point.
#[derive(Clone, Copy, Debug, PartialEq, Eq)]
pub struct PublicKey {
    bytes: [u8; 33],
}

impl View for PublicKey {
    type V = Seq<u8>;

    closed spec fn view(&self) -> Seq<u8> {
        self.bytes@
    }
}

impl PublicKey {
    #[verifier::type_invariant]
    spec fn wf(self) -> bool {
        is_pubkey(self.bytes@)
    }

    /// Parse a public key from a SEC1 encoding.
    pub fn from_slice(bytes: &[u8]) -> (r: Option<PublicKey>)
        ensures
            match r {
                Some(k) => spec_pubkey_parse(bytes@) == Some(k@),
                None => spec_pubkey_parse(bytes@) is None,
            },
    {
        match pubkey_parse_raw(bytes) {
            Some(c) => Some(PublicKey { bytes: c }),
            None => None,
        }
    }

    /// The public key of a private key.
    pub fn from_private_key(key: &PrivateKey) -> (r: PublicKey)
        ensures
            r@ == spec_pubkey_of_secret(key@),
    {
        proof {
            use_type_invariant(key);
        }
        PublicKey { bytes: pubkey_from_secret_raw(&key.bytes) }
    }

    /// The compressed encoding of the key.
    pub fn serialize(&self) -> (r: [u8; 33])
        ensures
            r@ == self@,
    {
        self.bytes
    }

    /// Add `tweak` times the base point to this point.
    pub fn tweak_add(&self, tweak: &[u8; 32]) -> (r: Option<PublicKey>)
        ensures
            match r {
                Some(k) => spec_pubkey_tweak_add(self@, tweak@) == Some(k@),
                None => spec_pubkey_tweak_add(self@, tweak@) is None,
            },
    {
        proof {
            use_type_invariant(self);
        }
        match pubkey_tweak_add_raw(&self.bytes, tweak) {
            Some(c) => Some(PublicKey { bytes: c }),
            None => None,
        }
    }

    /// Add another point to this one.
    pub fn combine(&self, other: &PublicKey) -> (r: Option<PublicKey>)
        ensures
            match r {
                Some(k) => spec_pubkey_combine(self@, other@) == Some(k@),
                None => spec_pubkey_combine(self@, other@) is None,
            },
    {
        proof {
            use_type_invariant(self);
            use_type_invariant(other);
        }
        match pubkey_combine_raw(&self.bytes, &other.bytes) {
            Some(c) => Some(PublicKey { bytes: c }),
            None => None,
        }
    }

    /// Multiply this point by a scalar.
    pub fn tweak_mul(&self, tweak: &[u8]) -> (r: Option<PublicKey>)
        ensures
            match r {
                Some(k) => spec_pubkey_mul_tweak(self@, tweak@) == Some(k@),
                None => spec_pubkey_mul_tweak(self@, tweak@) is None,
            },
    {
        proof {
            use_type_invariant(self);
        }
        match pubkey_mul_tweak_raw(&self.bytes, tweak) {
            Some(c) => Some(PublicKey { bytes: c }),
            None => None,
        }
    }
}

/// A private key: a 32-byte scalar in the valid secret-key range.
#[derive(Clone, Copy, Debug, PartialEq, Eq)]
pub struct PrivateKey {
    bytes: [u8; 32],
}

impl View for PrivateKey {
    type V = Seq<u8>;

    closed spec fn view(&self) -> Seq<u8> {
        self.bytes@
    }
}

impl PrivateKey {
    #[verifier::type_invariant]
    spec fn wf(self) -> bool {
        spec_seckey_valid(self.bytes@)
    }

    /// Parse a private key from a 32-byte scalar.
    pub fn from_slice(bytes: &[u8]) -> (r: Option<PrivateKey>)
        ensures
            match r {
                Some(k) => spec_seckey_valid(bytes@) && k@ == bytes@,
                None => !spec_seckey_valid(bytes@),
            },
    {
        if seckey_check(bytes) {
            let arr = read_bytes_32(bytes, 0);
            proof {
                assert(arr@ =~= bytes@);
            }
            Some(PrivateKey { bytes: arr })
        } else {
            None
        }
    }

    /// The scalar bytes of the key.
    pub fn as_bytes(&self) -> (r: &[u8; 32])
        ensures
            r@ == self@,
    {
        &self.bytes
    }

    /// Add `tweak` to the scalar modulo the curve order.
    pub fn tweak_add(&self, tweak: &[u8; 32]) -> (r: Option<PrivateKey>)
        ensures
            match r {
                Some(k) => spec_seckey_tweak_add(self@, tweak@) == Some(k@),
                None => spec_seckey_tweak_add(self@, tweak@) is None,
            },
    {
        proof {
            use_type_invariant(self);
        }
        match seckey_tweak_add_raw(&self.bytes, tweak) {
            Some(c) => Some(PrivateKey { bytes: c }),
            None => None,
        }
    }
}

/// Whether `bytes` is a well-formed 64-byte compact ECDSA signature.
pub fn signature_check(bytes: &[u8]) -> (r: bool)
    ensures
        r == spec_sig_valid(bytes@),
        r ==> bytes@.len() == 64,
{
    sig_check_raw(bytes)
}

/// Whether `sig` is a valid ECDSA signature by `key` over `digest`.
pub(crate) fn ecdsa_verify(digest: &[u8; 32], sig: &[u8; 64], key: &PublicKey) -> (r: bool)
    requires
        spec_sig_valid(sig@),
    ensures
        r == spec_ecdsa_verify(digest@, sig@, key@),
{
    proof {
        use_type_invariant(key);
    }
    ecdsa_verify_raw(digest, sig, &key.bytes)
}

} // verus!
