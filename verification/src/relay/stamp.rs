//! Stamps: proof-of-payment bound to a message and its recipient.
//!
//! A stamp names transaction outputs that pay to addresses derived from
//! the message's payload digest and the destination public key.  The
//! verifier rebuilds that derivation — combine the destination key with
//! the digest's public key, seed an extended key with the digest as chain
//! code, walk the fixed prefix path, then one child per transaction and
//! one per claimed output — and compares each derived address against the
//! pay-to-pubkey-hash script of the referenced output.  Neither the digest
//! nor the destination key can change without every derived address
//! changing with them.

use vstd::prelude::*;

use crate::bitcoin::bip32::{
    spec_derive_private_child, spec_derive_private_path, spec_derive_public_child,
    spec_derive_public_path, ChildNumber, ExtendedPrivateKey, ExtendedPublicKey,
};
use crate::bitcoin::script::{spec_is_p2pkh, spec_p2pkh_hash};
use crate::bitcoin::transaction::{
    spec_decode_transaction, DecodeError as TransactionDecodeError, Transaction, TransactionV,
};
use crate::hashes::{ripemd160, sha256, spec_ripemd160, spec_sha256, bytes_eq};
use crate::keys::{
    spec_pubkey_combine, spec_pubkey_of_secret, spec_seckey_tweak_add, spec_seckey_valid,
    PrivateKey, PublicKey,
};

verus! {

/// The kind of stamp attached to a message.
#[derive(Clone, Copy, Debug, PartialEq, Eq, Structural)]
pub enum StampType {
    /// No stamp: such a message cannot pass verification.
    NoStamp,
    /// The stamp commits transaction outputs to the message.
    MessageCommitment,
}

impl StampType {
    /// The stamp type a wire tag stands for, if any.
    pub open spec fn spec_from_i32(tag: i32) -> Option<StampType> {
        if tag == 0 {
            Some(StampType::NoStamp)
        } else if tag == 1 {
            Some(StampType::MessageCommitment)
        } else {
            None
        }
    }

    /// Resolve a wire tag into a stamp type.
    pub fn from_i32(tag: i32) -> (r: Option<StampType>)
        ensures
            r == Self::spec_from_i32(tag),
    {
        if tag == 0 {
            Some(StampType::NoStamp)
        } else if tag == 1 {
            Some(StampType::MessageCommitment)
        } else {
            None
        }
    }

    /// The wire tag of this stamp type.
    pub fn to_i32(&self) -> (r: i32)
        ensures
            Self::spec_from_i32(r) == Some(*self),
    {
        match self {
            StampType::NoStamp => 0,
            StampType::MessageCommitment => 1,
        }
    }
}

/// One stamped transaction: its raw bytes and the output indices claimed
/// as stamp payments.
#[derive(Clone, Debug, PartialEq, Eq)]
pub struct StampOutpoints {
    /// The raw bytes of the stamping transaction.
    pub stamp_tx: Vec<u8>,
    /// The indices of the outputs claimed as stamp payments.
    pub vouts: Vec<u32>,
}

/// The mathematical model of one stamped transaction.
pub struct StampOutpointsV {
    /// The raw transaction bytes.
    pub stamp_tx: Seq<u8>,
    /// The claimed output indices.
    pub vouts: Seq<u32>,
}

impl View for StampOutpoints {
    type V = StampOutpointsV;

    open spec fn view(&self) -> StampOutpointsV {
        StampOutpointsV { stamp_tx: self.stamp_tx@, vouts: self.vouts@ }
    }
}

/// A stamp: its kind and the ordered stamped transactions.  The order
/// matters: the derivation index of each transaction is its position.
#[derive(Clone, Debug, PartialEq, Eq)]
pub struct Stamp {
    /// The wire tag of the stamp's kind.
    pub stamp_type: i32,
    /// The stamped transactions, in derivation order.
    pub stamp_outpoints: Vec<StampOutpoints>,
}

/// Error associated with verification of stamps.
#[derive(Clone, Debug, PartialEq, Eq)]
pub enum StampError {
    /// Failed to decode a transaction.
    Decode(TransactionDecodeError),
    /// A specified stamp output doesn't exist.
    MissingOutput,
    /// A specified stamp output was not a pay-to-pubkey-hash.
    NotP2PKH,
    /// A specified stamp output contained an unexpected address: the
    /// derived address, then the one the script pays to.
    UnexpectedAddress(Vec<u8>, Vec<u8>),
    /// Combination or tweaking of public keys was degenerate.
    DegenerateCombination,
    /// Child numbers given caused an overflow.
    ChildNumberOverflow,
    /// Unsupported stamp type.
    UnsupportedStampType,
    /// Stamp type was the none kind.
    NoneType,
}

/// The mathematical model of a stamp verification failure.
pub enum SpecStampError {
    /// Failed to decode a transaction.
    Decode(TransactionDecodeError),
    /// A claimed output doesn't exist.
    MissingOutput,
    /// A claimed output was not a pay-to-pubkey-hash.
    NotP2PKH,
    /// A claimed output pays the wrong address: the derived address, then
    /// the one the script pays to.
    UnexpectedAddress(Seq<u8>, Seq<u8>),
    /// Combination or tweaking of public keys was degenerate.
    DegenerateCombination,
    /// A derivation index was out of range.
    ChildNumberOverflow,
    /// Unsupported stamp type.
    UnsupportedStampType,
    /// The stamp type was the none kind.
    NoneType,
}

impl View for StampError {
    type V = SpecStampError;

    open spec fn view(&self) -> SpecStampError {
        match self {
            StampError::Decode(e) => SpecStampError::Decode(*e),
            StampError::MissingOutput => SpecStampError::MissingOutput,
            StampError::NotP2PKH => SpecStampError::NotP2PKH,
            StampError::UnexpectedAddress(actual, expected) => SpecStampError::UnexpectedAddress(
                actual@,
                expected@,
            ),
            StampError::DegenerateCombination => SpecStampError::DegenerateCombination,
            StampError::ChildNumberOverflow => SpecStampError::ChildNumberOverflow,
            StampError::UnsupportedStampType => SpecStampError::UnsupportedStampType,
            StampError::NoneType => SpecStampError::NoneType,
        }
    }
}

/// The address hash a derived child public key pays to:
/// `RIPEMD160(SHA256(serialized key))`.
pub open spec fn spec_stamp_address(child_key: Seq<u8>) -> Seq<u8> {
    spec_ripemd160(spec_sha256(child_key))
}

/// Checking the claimed outputs of one stamped transaction against the
/// per-transaction key: each must exist, be pay-to-pubkey-hash, and pay
/// the address of the child key derived at its own index.
pub open spec fn spec_check_vouts(tx: TransactionV, vouts: Seq<u32>, key: (Seq<u8>, Seq<u8>)) -> Result<
    (),
    SpecStampError,
>
    decreases vouts.len(),
{
    if vouts.len() == 0 {
        Ok(())
    } else {
        let vout = vouts[0];
        if vout >= tx.outputs.len() {
            Err(SpecStampError::MissingOutput)
        } else {
            let script = tx.outputs[vout as int].script;
            if !spec_is_p2pkh(script) {
                Err(SpecStampError::NotP2PKH)
            } else if vout >= 0x80000000 {
                Err(SpecStampError::ChildNumberOverflow)
            } else {
                match spec_derive_public_child(key.0, key.1, vout) {
                    None => Err(SpecStampError::DegenerateCombination),
                    Some(child) => {
                        let actual = spec_stamp_address(child.0);
                        let expected = spec_p2pkh_hash(script);
                        if actual != expected {
                            Err(SpecStampError::UnexpectedAddress(actual, expected))
                        } else {
                            spec_check_vouts(tx, vouts.drop_first(), key)
                        }
                    },
                }
            }
        }
    }
}

/// Checking every stamped transaction in order against the intermediate
/// key: each decodes, gets a child key at its position, and has all its
/// claimed outputs pass; the decoded transactions come back in order.
pub open spec fn spec_check_outpoints(
    outs: Seq<StampOutpointsV>,
    key: (Seq<u8>, Seq<u8>),
    tx_num: int,
) -> Result<Seq<TransactionV>, SpecStampError>
    decreases outs.len(),
{
    if outs.len() == 0 {
        Ok(Seq::empty())
    } else {
        match spec_decode_transaction(outs[0].stamp_tx) {
            Err(e) => Err(SpecStampError::Decode(e)),
            Ok((tx, _)) => if tx_num >= 0x80000000 {
                Err(SpecStampError::ChildNumberOverflow)
            } else {
                match spec_derive_public_child(key.0, key.1, tx_num as u32) {
                    None => Err(SpecStampError::DegenerateCombination),
                    Some(tx_key) => match spec_check_vouts(tx, outs[0].vouts, tx_key) {
                        Err(e) => Err(e),
                        Ok(()) => match spec_check_outpoints(outs.drop_first(), key, tx_num + 1) {
                            Err(e) => Err(e),
                            Ok(rest) => Ok(seq![tx] + rest),
                        },
                    },
                }
            },
        }
    }
}

/// The fixed two-step derivation prefix of every stamp.
pub open spec fn spec_stamp_path_prefix() -> Seq<ChildNumber> {
    seq![ChildNumber::Normal(44), ChildNumber::Normal(145)]
}

/// The whole stamp check: reject the none kind, build the master key from
/// the digest's public key combined with the destination key and the
/// digest as chain code, derive the fixed prefix, then check every
/// stamped transaction.
pub open spec fn spec_verify_stamp(
    outs: Seq<StampOutpointsV>,
    digest: Seq<u8>,
    dest: Seq<u8>,
    stamp_type: StampType,
) -> Result<Seq<TransactionV>, SpecStampError> {
    if stamp_type == StampType::NoStamp {
        Err(SpecStampError::NoneType)
    } else if !spec_seckey_valid(digest) {
        Err(SpecStampError::DegenerateCombination)
    } else {
        match spec_pubkey_combine(dest, spec_pubkey_of_secret(digest)) {
            None => Err(SpecStampError::DegenerateCombination),
            Some(combined) => match spec_derive_public_path(
                combined,
                digest,
                spec_stamp_path_prefix(),
            ) {
                Err(_) => Err(SpecStampError::DegenerateCombination),
                Ok(intermediate) => spec_check_outpoints(outs, intermediate, 0),
            },
        }
    }
}

/// Verify that the stamp covers the payload digest, returning the decoded
/// stamped transactions.
#[verifier::loop_isolation(false)]
#[verifier::rlimit(100)]
pub fn verify_stamp(
    stamp_outpoints: &[StampOutpoints],
    payload_digest: &[u8; 32],
    destination_public_key: &PublicKey,
    stamp_type: StampType,
) -> (r: Result<Vec<Transaction>, StampError>)
    ensures
        ({
            let spec = spec_verify_stamp(
                stamp_outpoints@.map_values(|o: StampOutpoints| o@),
                payload_digest@,
                destination_public_key@,
                stamp_type,
            );
            match r {
                Ok(txs) => spec == Ok::<_, SpecStampError>(
                    txs@.map_values(|t: Transaction| t@),
                ),
                Err(e) => spec == Err::<Seq<TransactionV>, _>(e@),
            }
        }),
{
    let ghost outs_v = stamp_outpoints@.map_values(|o: StampOutpoints| o@);
    if stamp_type == StampType::NoStamp {
        return Err(StampError::NoneType);
    }
    let payload_secret_key = match PrivateKey::from_slice(payload_digest.as_slice()) {
        Some(k) => k,
        None => {
            return Err(StampError::DegenerateCombination);
        },
    };
    let payload_public_key = PublicKey::from_private_key(&payload_secret_key);
    let combined_key = match destination_public_key.combine(&payload_public_key) {
        Some(c) => c,
        None => {
            return Err(StampError::DegenerateCombination);
        },
    };
    let master_pk = ExtendedPublicKey::new_master(combined_key, *payload_digest);
    let path: [ChildNumber; 2] = [ChildNumber::Normal(44), ChildNumber::Normal(145)];
    proof {
        assert(path@ =~= spec_stamp_path_prefix());
    }
    let intermediate_child = match master_pk.derive_public_path(path.as_slice()) {
        Ok(k) => k,
        Err(_) => {
            return Err(StampError::DegenerateCombination);
        },
    };
    let ghost ikey = (intermediate_child@.public_key, intermediate_child@.chain_code);
    proof {
        assert(spec_verify_stamp(outs_v, payload_digest@, destination_public_key@, stamp_type)
            == spec_check_outpoints(outs_v, ikey, 0));
    }
    let n: usize = stamp_outpoints.len();
    let mut txs: Vec<Transaction> = Vec::new();
    proof {
        assert(outs_v.skip(0) =~= outs_v);
        assert(txs@.map_values(|t: Transaction| t@) =~= Seq::<TransactionV>::empty());
    }
    for tx_num in 0..n
        invariant
            n == outs_v.len() == stamp_outpoints@.len(),
            outs_v == stamp_outpoints@.map_values(|o: StampOutpoints| o@),
            ikey == (intermediate_child@.public_key, intermediate_child@.chain_code),
            match spec_check_outpoints(outs_v.skip(tx_num as int), ikey, tx_num as int) {
                Ok(rest) => spec_check_outpoints(outs_v, ikey, 0) == Ok::<_, SpecStampError>(
                    txs@.map_values(|t: Transaction| t@) + rest,
                ),
                Err(e) => spec_check_outpoints(outs_v, ikey, 0) == Err::<Seq<TransactionV>, _>(
                    e,
                ),
            },
    {
        let ghost acc = txs@.map_values(|t: Transaction| t@);
        proof {
            assert(outs_v.skip(tx_num as int)[0] == outs_v[tx_num as int]);
            assert(outs_v[tx_num as int] == stamp_outpoints@[tx_num as int]@);
        }
        let outpoint = &stamp_outpoints[tx_num];
        let tx = match Transaction::decode(outpoint.stamp_tx.as_slice()) {
            Ok(tx) => tx,
            Err(e) => {
                return Err(StampError::Decode(e));
            },
        };
        if tx_num >= 0x80000000usize {
            return Err(StampError::ChildNumberOverflow);
        }
        let tx_child = match intermediate_child.derive_public_child(
            ChildNumber::Normal(tx_num as u32),
        ) {
            Ok(k) => k,
            Err(_) => {
                return Err(StampError::DegenerateCombination);
            },
        };
        let ghost tx_key = (tx_child@.public_key, tx_child@.chain_code);
        let ghost vouts_v = outpoint.vouts@;
        let n_vouts: usize = outpoint.vouts.len();
        proof {
            assert(vouts_v.skip(0) =~= vouts_v);
        }
        for j in 0..n_vouts
            invariant
                n_vouts == vouts_v.len(),
                vouts_v == outpoint.vouts@,
                tx_key == (tx_child@.public_key, tx_child@.chain_code),
                spec_check_vouts(tx@, vouts_v.skip(j as int), tx_key) == spec_check_vouts(
                    tx@,
                    vouts_v,
                    tx_key,
                ),
        {
            proof {
                assert(vouts_v.skip(j as int)[0] == vouts_v[j as int]);
            }
            let vout = outpoint.vouts[j];
            if (vout as usize) >= tx.outputs.len() {
                proof {
                    assert(tx@.outputs.len() == tx.outputs@.len());
                }
                return Err(StampError::MissingOutput);
            }
            let output = &tx.outputs[vout as usize];
            proof {
                assert(tx@.outputs[vout as int] == tx.outputs@[vout as int]@);
            }
            let script = &output.script;
            if !script.is_p2pkh() {
                return Err(StampError::NotP2PKH);
            }
            if vout >= 0x80000000 {
                return Err(StampError::ChildNumberOverflow);
            }
            let child_key = match tx_child.derive_public_child(ChildNumber::Normal(vout)) {
                Ok(k) => k,
                Err(_) => {
                    return Err(StampError::DegenerateCombination);
                },
            };
            let raw_child_key = child_key.get_public_key().serialize();
            let sha256_digest = sha256(raw_child_key.as_slice());
            let hash160_digest = ripemd160(sha256_digest.as_slice());
            let script_bytes = script.as_bytes();
            let pubkey_hash = &script_bytes[3..23];
            proof {
                assert(pubkey_hash@ =~= spec_p2pkh_hash(script@));
            }
            if !bytes_eq(hash160_digest.as_slice(), pubkey_hash) {
                return Err(StampError::UnexpectedAddress(
                    vstd::slice::slice_to_vec(hash160_digest.as_slice()),
                    vstd::slice::slice_to_vec(pubkey_hash),
                ));
            }
            proof {
                assert(vouts_v.skip(j as int).drop_first() =~= vouts_v.skip(j + 1));
            }
        }
        proof {
            assert(vouts_v.skip(n_vouts as int) =~= Seq::<u32>::empty());
            assert(spec_check_vouts(tx@, vouts_v, tx_key) == Ok::<(), SpecStampError>(()));
        }
        let ghost rem_before = spec_check_outpoints(outs_v.skip(tx_num as int), ikey, tx_num as int);
        txs.push(tx);
        proof {
            assert(txs@.map_values(|t: Transaction| t@) =~= acc.push(tx@));
            assert(outs_v.skip(tx_num as int).drop_first() =~= outs_v.skip(tx_num + 1));
            match spec_check_outpoints(outs_v.skip(tx_num + 1), ikey, tx_num + 1) {
                Ok(rest2) => {
                    assert(rem_before == Ok::<_, SpecStampError>(seq![tx@] + rest2));
                    assert(acc + (seq![tx@] + rest2) =~= acc.push(tx@) + rest2);
                },
                Err(e) => {
                    assert(rem_before == Err::<Seq<TransactionV>, _>(e));
                },
            }
        }
    }
    proof {
        assert(outs_v.skip(n as int) =~= Seq::<StampOutpointsV>::empty());
        assert(txs@.map_values(|t: Transaction| t@) + Seq::<TransactionV>::empty() =~= txs@
            .map_values(|t: Transaction| t@));
    }
    Ok(txs)
}

impl Stamp {
    /// Verify that the stamp covers the payload digest.
    pub fn verify_stamp(
        &self,
        payload_digest: &[u8; 32],
        destination_public_key: &PublicKey,
    ) -> (r: Result<Vec<Transaction>, StampError>)
        ensures
            match StampType::spec_from_i32(self.stamp_type) {
                None => r == Err::<Vec<Transaction>, StampError>(StampError::UnsupportedStampType),
                Some(ty) => {
                    let spec = spec_verify_stamp(
                        self.stamp_outpoints@.map_values(|o: StampOutpoints| o@),
                        payload_digest@,
                        destination_public_key@,
                        ty,
                    );
                    match r {
                        Ok(txs) => spec == Ok::<_, SpecStampError>(
                            txs@.map_values(|t: Transaction| t@),
                        ),
                        Err(e) => spec == Err::<Seq<TransactionV>, _>(e@),
                    }
                },
            },
    {
        let ty = match StampType::from_i32(self.stamp_type) {
            Some(ty) => ty,
            None => {
                return Err(StampError::UnsupportedStampType);
            },
        };
        verify_stamp(
            self.stamp_outpoints.as_slice(),
            payload_digest,
            destination_public_key,
            ty,
        )
    }
}

/// Error associated with creating stamp private keys.
#[derive(Clone, Copy, Debug, PartialEq, Eq, Structural)]
pub enum StampKeyError {
    /// Degenerate addition of private keys.
    Addition,
    /// Child numbers given caused an overflow.
    ChildNumberOverflow,
}

/// The private keys matching the claimed outputs of one transaction: one
/// child per index below `count`.
pub open spec fn spec_vout_keys(sk: Seq<u8>, cc: Seq<u8>, count: u32, j: int) -> Result<
    Seq<Seq<u8>>,
    StampKeyError,
>
    decreases count - j,
{
    if j >= count {
        Ok(Seq::empty())
    } else {
        match spec_derive_private_child(sk, cc, ChildNumber::Normal(j as u32)) {
            None => Err(StampKeyError::Addition),
            Some(p) => match spec_vout_keys(sk, cc, count, j + 1) {
                Err(e) => Err(e),
                Ok(rest) => Ok(seq![p.0] + rest),
            },
        }
    }
}

/// The per-transaction private keys of a whole output profile, one child
/// per transaction position, then one grandchild per output index.
pub open spec fn spec_tx_keys(sk: Seq<u8>, cc: Seq<u8>, profile: Seq<u32>, tx_num: int) -> Result<
    Seq<Seq<Seq<u8>>>,
    StampKeyError,
>
    decreases profile.len(),
{
    if profile.len() == 0 {
        Ok(Seq::empty())
    } else if tx_num >= 0x80000000 {
        Err(StampKeyError::ChildNumberOverflow)
    } else {
        match spec_derive_private_child(sk, cc, ChildNumber::Normal(tx_num as u32)) {
            None => Err(StampKeyError::Addition),
            Some(tx_key) => if profile[0] > 0x80000000 {
                Err(StampKeyError::ChildNumberOverflow)
            } else {
                match spec_vout_keys(tx_key.0, tx_key.1, profile[0], 0) {
                    Err(e) => Err(e),
                    Ok(inner) => match spec_tx_keys(sk, cc, profile.drop_first(), tx_num + 1) {
                        Err(e) => Err(e),
                        Ok(rest) => Ok(seq![inner] + rest),
                    },
                }
            },
        }
    }
}

/// The whole construction mirroring stamp verification on the sender's
/// side: tweak the private key by the digest, seed an extended key with
/// the digest as chain code, derive the fixed prefix, then one child per
/// transaction and one grandchild per output.
pub open spec fn spec_create_stamp_private_keys(
    sk: Seq<u8>,
    digest: Seq<u8>,
    profile: Seq<u32>,
) -> Result<Seq<Seq<Seq<u8>>>, StampKeyError> {
    match spec_seckey_tweak_add(sk, digest) {
        None => Err(StampKeyError::Addition),
        Some(master) => match spec_derive_private_path(master, digest, spec_stamp_path_prefix()) {
            None => Err(StampKeyError::Addition),
            Some(intermediate) => spec_tx_keys(intermediate.0, intermediate.1, profile, 0),
        },
    }
}

/// Construct stamp private keys.
///
/// The `output_profile` gives, per stamped transaction, how many claimed
/// outputs it has; the result holds the private key of each derived
/// stamp address, so a sender can pay the stamps before broadcasting.
#[verifier::loop_isolation(false)]
#[verifier::rlimit(100)]
pub fn create_stamp_private_keys(
    private_key: PrivateKey,
    payload_digest: &[u8; 32],
    output_profile: &[u32],
) -> (r: Result<Vec<Vec<PrivateKey>>, StampKeyError>)
    ensures
        ({
            let spec = spec_create_stamp_private_keys(
                private_key@,
                payload_digest@,
                output_profile@,
            );
            match r {
                Ok(keys) => spec == Ok::<_, StampKeyError>(
                    keys@.map_values(
                        |v: Vec<PrivateKey>| v@.map_values(|k: PrivateKey| k@),
                    ),
                ),
                Err(e) => spec == Err::<Seq<Seq<Seq<u8>>>, _>(e),
            }
        }),
{
    let ghost inner_view = |v: Vec<PrivateKey>| v@.map_values(|k: PrivateKey| k@);
    let master_key = match private_key.tweak_add(payload_digest) {
        Some(k) => k,
        None => {
            return Err(StampKeyError::Addition);
        },
    };
    let master_private_key = ExtendedPrivateKey::new_master(master_key, *payload_digest);
    let path_prefix: [ChildNumber; 2] = [ChildNumber::Normal(44), ChildNumber::Normal(145)];
    proof {
        assert(path_prefix@ =~= spec_stamp_path_prefix());
    }
    let intermediate_child = match master_private_key.derive_private_path(path_prefix.as_slice()) {
        Ok(k) => k,
        Err(_) => {
            return Err(StampKeyError::Addition);
        },
    };
    let ghost ikey = (intermediate_child@.private_key, intermediate_child@.chain_code);
    let ghost profile_v = output_profile@;
    proof {
        assert(spec_create_stamp_private_keys(private_key@, payload_digest@, output_profile@)
            == spec_tx_keys(ikey.0, ikey.1, profile_v, 0));
    }
    let n: usize = output_profile.len();
    let mut keys: Vec<Vec<PrivateKey>> = Vec::new();
    proof {
        assert(profile_v.skip(0) =~= profile_v);
        assert(keys@.map_values(inner_view) =~= Seq::<Seq<Seq<u8>>>::empty());
    }
    for tx_num in 0..n
        invariant
            n == profile_v.len() == output_profile@.len(),
            profile_v == output_profile@,
            ikey == (intermediate_child@.private_key, intermediate_child@.chain_code),
            inner_view == (|v: Vec<PrivateKey>| v@.map_values(|k: PrivateKey| k@)),
            match spec_tx_keys(ikey.0, ikey.1, profile_v.skip(tx_num as int), tx_num as int) {
                Ok(rest) => spec_tx_keys(ikey.0, ikey.1, profile_v, 0) == Ok::<_, StampKeyError>(
                    keys@.map_values(inner_view) + rest,
                ),
                Err(e) => spec_tx_keys(ikey.0, ikey.1, profile_v, 0) == Err::<
                    Seq<Seq<Seq<u8>>>,
                    _,
                >(e),
            },
    {
        let ghost acc = keys@.map_values(inner_view);
        proof {
            assert(profile_v.skip(tx_num as int)[0] == profile_v[tx_num as int]);
        }
        if tx_num >= 0x80000000usize {
            return Err(StampKeyError::ChildNumberOverflow);
        }
        let tx_child = match intermediate_child.derive_private_child(
            ChildNumber::Normal(tx_num as u32),
        ) {
            Ok(k) => k,
            Err(_) => {
                return Err(StampKeyError::Addition);
            },
        };
        let ghost tx_key = (tx_child@.private_key, tx_child@.chain_code);
        let n_index = output_profile[tx_num];
        if n_index > 0x80000000 {
            return Err(StampKeyError::ChildNumberOverflow);
        }
        let mut inner: Vec<PrivateKey> = Vec::new();
        proof {
            assert(inner@.map_values(|k: PrivateKey| k@) =~= Seq::<Seq<u8>>::empty());
        }
        let mut index: u32 = 0;
        while index < n_index
            invariant
                index <= n_index,
                n_index == profile_v[tx_num as int],
                tx_num < profile_v.len(),
                tx_key == (tx_child@.private_key, tx_child@.chain_code),
                match spec_vout_keys(tx_key.0, tx_key.1, n_index, index as int) {
                    Ok(rest) => spec_vout_keys(tx_key.0, tx_key.1, n_index, 0) == Ok::<
                        _,
                        StampKeyError,
                    >(inner@.map_values(|k: PrivateKey| k@) + rest),
                    Err(e) => spec_vout_keys(tx_key.0, tx_key.1, n_index, 0) == Err::<
                        Seq<Seq<u8>>,
                        _,
                    >(e),
                },
            decreases n_index - index,
        {
            let ghost inner_acc = inner@.map_values(|k: PrivateKey| k@);
            let vout_child = match tx_child.derive_private_child(ChildNumber::Normal(index)) {
                Ok(k) => k,
                Err(_) => {
                    return Err(StampKeyError::Addition);
                },
            };
            let ghost rem_before = spec_vout_keys(tx_key.0, tx_key.1, n_index, index as int);
            inner.push(vout_child.into_private_key());
            proof {
                assert(inner@.map_values(|k: PrivateKey| k@) =~= inner_acc.push(
                    vout_child@.private_key,
                ));
                match spec_vout_keys(tx_key.0, tx_key.1, n_index, index + 1) {
                    Ok(rest2) => {
                        assert(rem_before == Ok::<_, StampKeyError>(
                            seq![vout_child@.private_key] + rest2,
                        ));
                        assert(inner_acc + (seq![vout_child@.private_key] + rest2)
                            =~= inner_acc.push(vout_child@.private_key) + rest2);
                    },
                    Err(e) => {
                        assert(rem_before == Err::<Seq<Seq<u8>>, _>(e));
                    },
                }
            }
            index = index + 1;
        }
        proof {
            assert(spec_vout_keys(tx_key.0, tx_key.1, n_index, n_index as int) == Ok::<
                _,
                StampKeyError,
            >(Seq::<Seq<u8>>::empty()));
            assert(inner@.map_values(|k: PrivateKey| k@) + Seq::<Seq<u8>>::empty() =~= inner@
                .map_values(|k: PrivateKey| k@));
        }
        let ghost rem_before = spec_tx_keys(
            ikey.0,
            ikey.1,
            profile_v.skip(tx_num as int),
            tx_num as int,
        );
        let ghost inner_v = inner@.map_values(|k: PrivateKey| k@);
        keys.push(inner);
        proof {
            assert(keys@.map_values(inner_view) =~= acc.push(inner_v));
            assert(profile_v.skip(tx_num as int).drop_first() =~= profile_v.skip(tx_num + 1));
            match spec_tx_keys(ikey.0, ikey.1, profile_v.skip(tx_num + 1), tx_num + 1) {
                Ok(rest2) => {
                    assert(rem_before == Ok::<_, StampKeyError>(seq![inner_v] + rest2));
                    assert(acc + (seq![inner_v] + rest2) =~= acc.push(inner_v) + rest2);
                },
                Err(e) => {
                    assert(rem_before == Err::<Seq<Seq<Seq<u8>>>, _>(e));
                },
            }
        }
    }
    proof {
        assert(profile_v.skip(n as int) =~= Seq::<u32>::empty());
        assert(keys@.map_values(inner_view) + Seq::<Seq<Seq<u8>>>::empty() =~= keys@.map_values(
            inner_view,
        ));
    }
    Ok(keys)
}

} // verus!
