//! Hierarchical deterministic key derivation: the [`ExtendedPublicKey`] and
//! [`ExtendedPrivateKey`] structs.
//!
//! An extended key pairs a key with a 32-byte chain code.  A child key at a
//! normal index is derived by an HMAC-SHA512 over the serialized parent
//! public key and the big-endian index, keyed by the chain code; the first
//! half of the tag tweaks the key and the second half becomes the child's
//! chain code.  Hardened children feed the private scalar into the HMAC
//! instead, so they cannot be derived from the public key alone.

use vstd::prelude::*;

use crate::bitcoin::byteorder::{push_slice, push_u32_be, read_bytes_32, spec_u32_be};
use crate::hashes::{hmac_sha512, spec_hmac_sha512};
use crate::keys::{
    spec_pubkey_of_secret, spec_pubkey_tweak_add, spec_seckey_tweak_add, spec_seckey_valid,
    PrivateKey, PublicKey,
};

verus! {

/// Error associated with child number construction.
#[derive(Clone, Copy, Debug, PartialEq, Eq, Structural)]
pub struct IndexError(pub u32);

/// Public key to public key derivation can not be performed for a hardened
/// key.
#[derive(Clone, Copy, Debug, PartialEq, Eq, Structural)]
pub struct HardenedDeriveError;

/// Represents a child number.
#[derive(Clone, Copy, Debug, PartialEq, Eq, Structural)]
pub enum ChildNumber {
    /// A "normal" child number is within range [0, 2^31 - 1]
    Normal(u32),
    /// A "hardened" child number is within range [0, 2^31 - 1]
    Hardened(u32),
}

/// Error associated with the derivation of an extended key.
#[derive(Clone, Copy, Debug, PartialEq, Eq, Structural)]
pub enum DeriveError {
    /// Public key to public key derivation can not be performed for a
    /// hardened key.
    HardenedDeriveError,
    /// The derivation tweak is out of range or the tweaked key degenerate.
    InvalidTweak,
}

impl ChildNumber {
    /// Create a [`ChildNumber::Normal`] from an index, returns an error if
    /// the index is not within [0, 2^31).
    pub fn from_normal_index(index: u32) -> (r: Result<Self, IndexError>)
        ensures
            match r {
                Ok(c) => index < 0x80000000 && c == ChildNumber::Normal(index),
                Err(e) => index >= 0x80000000 && e == IndexError(index),
            },
    {
        proof {
            assert((index & (1u32 << 31)) == 0 <==> index < 0x80000000) by (bit_vector);
        }
        if index & (1u32 << 31) == 0 {
            Ok(ChildNumber::Normal(index))
        } else {
            Err(IndexError(index))
        }
    }

    /// Create a [`ChildNumber::Hardened`] from an index, returns an error
    /// if the index is not within [0, 2^31).
    pub fn from_hardened_index(index: u32) -> (r: Result<Self, IndexError>)
        ensures
            match r {
                Ok(c) => index < 0x80000000 && c == ChildNumber::Hardened(index),
                Err(e) => index >= 0x80000000 && e == IndexError(index),
            },
    {
        proof {
            assert((index & (1u32 << 31)) == 0 <==> index < 0x80000000) by (bit_vector);
        }
        if index & (1u32 << 31) == 0 {
            Ok(ChildNumber::Hardened(index))
        } else {
            Err(IndexError(index))
        }
    }
}

impl From<u32> for ChildNumber {
    fn from(number: u32) -> (r: Self) {
        if number >= 0x80000000 {
            ChildNumber::Hardened(number - 0x80000000)
        } else {
            ChildNumber::Normal(number)
        }
    }
}

impl vstd::std_specs::convert::FromSpecImpl<u32> for ChildNumber {
    open spec fn obeys_from_spec() -> bool {
        true
    }

    open spec fn from_spec(number: u32) -> ChildNumber {
        if number >= 0x80000000 {
            ChildNumber::Hardened((number - 0x80000000) as u32)
        } else {
            ChildNumber::Normal(number)
        }
    }
}

/// One step of public child derivation at a normal index: the tweaked
/// public key and the new chain code, or `None` when the HMAC's left half
/// is not a valid scalar or the tweaked point is degenerate.
pub open spec fn spec_derive_public_child(pk: Seq<u8>, cc: Seq<u8>, index: u32) -> Option<
    (Seq<u8>, Seq<u8>),
> {
    let h = spec_hmac_sha512(cc, pk + spec_u32_be(index));
    let il = h.subrange(0, 32);
    let ir = h.subrange(32, 64);
    if !spec_seckey_valid(il) {
        None
    } else {
        match spec_pubkey_tweak_add(pk, il) {
            None => None,
            Some(child) => Some((child, ir)),
        }
    }
}

/// One step of private child derivation: normal children key the HMAC data
/// on the parent's public key, hardened children on a zero byte and the
/// private scalar itself.
pub open spec fn spec_derive_private_child(sk: Seq<u8>, cc: Seq<u8>, child: ChildNumber) -> Option<
    (Seq<u8>, Seq<u8>),
> {
    let data = match child {
        ChildNumber::Normal(index) => spec_pubkey_of_secret(sk) + spec_u32_be(index),
        ChildNumber::Hardened(index) => seq![0u8] + sk + spec_u32_be(index),
    };
    let h = spec_hmac_sha512(cc, data);
    let il = h.subrange(0, 32);
    let ir = h.subrange(32, 64);
    if !spec_seckey_valid(il) {
        None
    } else {
        match spec_seckey_tweak_add(il, sk) {
            None => None,
            Some(child_key) => Some((child_key, ir)),
        }
    }
}

/// Folding public child derivation along a path, left to right; the empty
/// path leaves the key unchanged.
pub open spec fn spec_derive_public_path(pk: Seq<u8>, cc: Seq<u8>, path: Seq<ChildNumber>) -> Result<
    (Seq<u8>, Seq<u8>),
    DeriveError,
>
    decreases path.len(),
{
    if path.len() == 0 {
        Ok((pk, cc))
    } else {
        match path[0] {
            ChildNumber::Hardened(_) => Err(DeriveError::HardenedDeriveError),
            ChildNumber::Normal(index) => match spec_derive_public_child(pk, cc, index) {
                None => Err(DeriveError::InvalidTweak),
                Some(p) => spec_derive_public_path(p.0, p.1, path.drop_first()),
            },
        }
    }
}

/// Folding private child derivation along a path, left to right; the empty
/// path leaves the key unchanged.
pub open spec fn spec_derive_private_path(
    sk: Seq<u8>,
    cc: Seq<u8>,
    path: Seq<ChildNumber>,
) -> Option<(Seq<u8>, Seq<u8>)>
    decreases path.len(),
{
    if path.len() == 0 {
        Some((sk, cc))
    } else {
        match spec_derive_private_child(sk, cc, path[0]) {
            None => None,
            Some(p) => spec_derive_private_path(p.0, p.1, path.drop_first()),
        }
    }
}

/// A wrapper around [`PublicKey`] to allow hierarchical deterministic
/// public key derivation.
#[derive(Clone, Copy, Debug, PartialEq, Eq)]
pub struct ExtendedPublicKey {
    public_key: PublicKey,
    chain_code: [u8; 32],
}

/// The mathematical model of an extended public key.
pub struct ExtendedPublicKeyV {
    /// The compressed public key bytes.
    pub public_key: Seq<u8>,
    /// The chain code bytes.
    pub chain_code: Seq<u8>,
}

impl View for ExtendedPublicKey {
    type V = ExtendedPublicKeyV;

    closed spec fn view(&self) -> ExtendedPublicKeyV {
        ExtendedPublicKeyV { public_key: self.public_key@, chain_code: self.chain_code@ }
    }
}

impl ExtendedPublicKey {
    /// Construct a new master public key.
    pub fn new_master(public_key: PublicKey, chain_code: [u8; 32]) -> (r: Self)
        ensures
            r@.public_key == public_key@,
            r@.chain_code == chain_code@,
    {
        Self { public_key, chain_code }
    }

    /// Get the underlying [`PublicKey`].
    pub fn get_public_key(&self) -> (r: &PublicKey)
        ensures
            r@ == self@.public_key,
    {
        &self.public_key
    }

    /// Convert into the underlying [`PublicKey`].
    pub fn into_public_key(self) -> (r: PublicKey)
        ensures
            r@ == self@.public_key,
    {
        self.public_key
    }

    /// Convert into the [`PublicKey`] and chain code.
    pub fn as_parts(&self) -> (r: (PublicKey, [u8; 32]))
        ensures
            r.0@ == self@.public_key,
            r.1@ == self@.chain_code,
    {
        (self.public_key, self.chain_code)
    }

    /// Convert into the [`PublicKey`] and chain code.
    pub fn into_parts(self) -> (r: (PublicKey, [u8; 32]))
        ensures
            r.0@ == self@.public_key,
            r.1@ == self@.chain_code,
    {
        (self.public_key, self.chain_code)
    }

    /// Derive the child [`ExtendedPublicKey`] from a [`ChildNumber`].
    ///
    /// Hardened children cannot be derived here: the HMAC input they need
    /// contains the private scalar, which the public key does not
    /// determine.
    pub fn derive_public_child(&self, child_number: ChildNumber) -> (r: Result<
        ExtendedPublicKey,
        DeriveError,
    >)
        ensures
            match child_number {
                ChildNumber::Hardened(_) => r == Err::<ExtendedPublicKey, DeriveError>(
                    DeriveError::HardenedDeriveError,
                ),
                ChildNumber::Normal(index) => match spec_derive_public_child(
                    self@.public_key,
                    self@.chain_code,
                    index,
                ) {
                    Some(p) => r matches Ok(k) && k@.public_key == p.0 && k@.chain_code == p.1,
                    None => r == Err::<ExtendedPublicKey, DeriveError>(DeriveError::InvalidTweak),
                },
            },
    {
        let index = match child_number {
            ChildNumber::Hardened(_) => {
                return Err(DeriveError::HardenedDeriveError);
            },
            ChildNumber::Normal(index) => index,
        };
        let serialized = self.public_key.serialize();
        let mut data: Vec<u8> = Vec::new();
        push_slice(&mut data, serialized.as_slice());
        push_u32_be(&mut data, index);
        proof {
            assert(data@ =~= self@.public_key + spec_u32_be(index));
        }
        let h = hmac_sha512(self.chain_code.as_slice(), data.as_slice());
        let il = read_bytes_32(h.as_slice(), 0);
        let ir = read_bytes_32(h.as_slice(), 32);
        proof {
            assert(il@ =~= spec_hmac_sha512(self@.chain_code, data@).subrange(0, 32));
            assert(ir@ =~= spec_hmac_sha512(self@.chain_code, data@).subrange(32, 64));
        }
        if PrivateKey::from_slice(il.as_slice()).is_none() {
            return Err(DeriveError::InvalidTweak);
        }
        match self.public_key.tweak_add(&il) {
            None => Err(DeriveError::InvalidTweak),
            Some(child) => Ok(ExtendedPublicKey { public_key: child, chain_code: ir }),
        }
    }

    /// Attempts to derive an [`ExtendedPublicKey`] from a path, one child
    /// derivation per entry, left to right.
    pub fn derive_public_path(&self, path: &[ChildNumber]) -> (r: Result<
        ExtendedPublicKey,
        DeriveError,
    >)
        ensures
            match r {
                Ok(k) => spec_derive_public_path(self@.public_key, self@.chain_code, path@)
                    == Ok::<_, DeriveError>((k@.public_key, k@.chain_code)),
                Err(e) => spec_derive_public_path(self@.public_key, self@.chain_code, path@)
                    == Err::<(Seq<u8>, Seq<u8>), _>(e),
            },
    {
        let mut key = *self;
        let n: usize = path.len();
        proof {
            assert(path@.skip(0) =~= path@);
        }
        for i in 0..n
            invariant
                n == path@.len(),
                spec_derive_public_path(self@.public_key, self@.chain_code, path@)
                    == spec_derive_public_path(key@.public_key, key@.chain_code, path@.skip(
                    i as int,
                )),
        {
            let ghost before = key@;
            key = match key.derive_public_child(path[i]) {
                Ok(k) => k,
                Err(e) => {
                    proof {
                        assert(path@.skip(i as int)[0] == path@[i as int]);
                    }
                    return Err(e);
                },
            };
            proof {
                assert(path@.skip(i as int)[0] == path@[i as int]);
                assert(path@.skip(i as int).drop_first() =~= path@.skip(i + 1));
            }
        }
        proof {
            assert(path@.skip(n as int) =~= Seq::<ChildNumber>::empty());
        }
        Ok(key)
    }
}

/// A wrapper around [`PrivateKey`] to allow hierarchical deterministic
/// private key derivation.
#[derive(Clone, Copy, Debug, PartialEq, Eq)]
pub struct ExtendedPrivateKey {
    private_key: PrivateKey,
    chain_code: [u8; 32],
}

/// The mathematical model of an extended private key.
pub struct ExtendedPrivateKeyV {
    /// The private scalar bytes.
    pub private_key: Seq<u8>,
    /// The chain code bytes.
    pub chain_code: Seq<u8>,
}

impl View for ExtendedPrivateKey {
    type V = ExtendedPrivateKeyV;

    closed spec fn view(&self) -> ExtendedPrivateKeyV {
        ExtendedPrivateKeyV { private_key: self.private_key@, chain_code: self.chain_code@ }
    }
}

impl ExtendedPrivateKey {
    /// Construct a new master private key.
    pub fn new_master(private_key: PrivateKey, chain_code: [u8; 32]) -> (r: Self)
        ensures
            r@.private_key == private_key@,
            r@.chain_code == chain_code@,
    {
        Self { private_key, chain_code }
    }

    /// Get the underlying [`PrivateKey`].
    pub fn get_private_key(&self) -> (r: &PrivateKey)
        ensures
            r@ == self@.private_key,
    {
        &self.private_key
    }

    /// Convert into the underlying [`PrivateKey`].
    pub fn into_private_key(self) -> (r: PrivateKey)
        ensures
            r@ == self@.private_key,
    {
        self.private_key
    }

    /// Convert into the [`PrivateKey`] and chain code.
    pub fn into_parts(self) -> (r: (PrivateKey, [u8; 32]))
        ensures
            r.0@ == self@.private_key,
            r.1@ == self@.chain_code,
    {
        (self.private_key, self.chain_code)
    }

    /// Derive the child [`ExtendedPrivateKey`] from a [`ChildNumber`].
    ///
    /// Fails only when the HMAC's left half or the tweaked scalar leaves
    /// the valid secret-key range, which is never expected in practice but
    /// is reachable with adversarial input and must not panic.
    pub fn derive_private_child(&self, child_number: ChildNumber) -> (r: Result<
        ExtendedPrivateKey,
        DeriveError,
    >)
        ensures
            match spec_derive_private_child(self@.private_key, self@.chain_code, child_number) {
                Some(p) => r matches Ok(k) && k@.private_key == p.0 && k@.chain_code == p.1,
                None => r == Err::<ExtendedPrivateKey, DeriveError>(DeriveError::InvalidTweak),
            },
    {
        let mut data: Vec<u8> = Vec::new();
        match child_number {
            ChildNumber::Normal(index) => {
                let public_key = PublicKey::from_private_key(&self.private_key);
                let serialized = public_key.serialize();
                push_slice(&mut data, serialized.as_slice());
                push_u32_be(&mut data, index);
                proof {
                    assert(data@ =~= spec_pubkey_of_secret(self@.private_key) + spec_u32_be(
                        index,
                    ));
                }
            },
            ChildNumber::Hardened(index) => {
                data.push(0u8);
                let scalar = self.private_key.as_bytes();
                push_slice(&mut data, scalar.as_slice());
                push_u32_be(&mut data, index);
                proof {
                    assert(data@ =~= seq![0u8] + self@.private_key + spec_u32_be(index));
                }
            },
        }
        let h = hmac_sha512(self.chain_code.as_slice(), data.as_slice());
        let il = read_bytes_32(h.as_slice(), 0);
        let ir = read_bytes_32(h.as_slice(), 32);
        proof {
            assert(il@ =~= spec_hmac_sha512(self@.chain_code, data@).subrange(0, 32));
            assert(ir@ =~= spec_hmac_sha512(self@.chain_code, data@).subrange(32, 64));
        }
        let il_key = match PrivateKey::from_slice(il.as_slice()) {
            None => {
                return Err(DeriveError::InvalidTweak);
            },
            Some(k) => k,
        };
        proof {
            assert(il_key@ =~= il@);
        }
        match il_key.tweak_add(self.private_key.as_bytes()) {
            None => Err(DeriveError::InvalidTweak),
            Some(child) => Ok(ExtendedPrivateKey { private_key: child, chain_code: ir }),
        }
    }

    /// Derive an [`ExtendedPrivateKey`] from a path, one child derivation
    /// per entry, left to right.
    pub fn derive_private_path(&self, path: &[ChildNumber]) -> (r: Result<
        ExtendedPrivateKey,
        DeriveError,
    >)
        ensures
            match r {
                Ok(k) => spec_derive_private_path(self@.private_key, self@.chain_code, path@)
                    == Some((k@.private_key, k@.chain_code)),
                Err(e) => spec_derive_private_path(self@.private_key, self@.chain_code, path@)
                    is None && e == DeriveError::InvalidTweak,
            },
    {
        let mut key = *self;
        let n: usize = path.len();
        proof {
            assert(path@.skip(0) =~= path@);
        }
        for i in 0..n
            invariant
                n == path@.len(),
                spec_derive_private_path(self@.private_key, self@.chain_code, path@)
                    == spec_derive_private_path(key@.private_key, key@.chain_code, path@.skip(
                    i as int,
                )),
        {
            key = match key.derive_private_child(path[i]) {
                Ok(k) => k,
                Err(e) => {
                    proof {
                        assert(path@.skip(i as int)[0] == path@[i as int]);
                    }
                    return Err(e);
                },
            };
            proof {
                assert(path@.skip(i as int)[0] == path@[i as int]);
                assert(path@.skip(i as int).drop_first() =~= path@.skip(i + 1));
            }
        }
        proof {
            assert(path@.skip(n as int) =~= Seq::<ChildNumber>::empty());
        }
        Ok(key)
    }
}

/// Deriving a private key along a three-entry path is the same as deriving
/// the three children one after the other, with a failed tweak at any step
/// failing the whole derivation.
pub proof fn lemma_private_path_is_fold(
    sk: Seq<u8>,
    cc: Seq<u8>,
    i1: ChildNumber,
    i2: ChildNumber,
    i3: ChildNumber,
)
    ensures
        spec_derive_private_path(sk, cc, seq![i1, i2, i3]) == match spec_derive_private_child(
            sk,
            cc,
            i1,
        ) {
            None => None::<(Seq<u8>, Seq<u8>)>,
            Some(p1) => match spec_derive_private_child(p1.0, p1.1, i2) {
                None => None::<(Seq<u8>, Seq<u8>)>,
                Some(p2) => spec_derive_private_child(p2.0, p2.1, i3),
            },
        },
{
    reveal_with_fuel(spec_derive_private_path, 5);
    let path = seq![i1, i2, i3];
    assert(path[0] == i1);
    assert(path.len() == 3);
    assert(seq![i2, i3][0] == i2);
    assert(seq![i3][0] == i3);
    assert(path.drop_first() =~= seq![i2, i3]);
    assert(seq![i2, i3].drop_first() =~= seq![i3]);
    assert(seq![i3].drop_first() =~= Seq::<ChildNumber>::empty());
    match spec_derive_private_child(sk, cc, i1) {
        None => {
        },
        Some(p1) => {
            match spec_derive_private_child(p1.0, p1.1, i2) {
                None => {
                },
                Some(p2) => {
                    match spec_derive_private_child(p2.0, p2.1, i3) {
                        None => {
                        },
                        Some(p3) => {
                        },
                    }
                },
            }
        },
    }
}

} // verus!
