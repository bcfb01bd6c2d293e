//! The chain-commitment token scheme: a token names a transaction output
//! whose script commits to a public key hash and a metadata hash.

use vstd::prelude::*;

use crate::bitcoin::byteorder::{push_le_bytes, push_slice, spec_le_bytes, spec_le_int, u64_from_le};
use crate::bitcoin::script::spec_is_op_return;
use crate::bitcoin::transaction::{
    spec_decode_transaction, DecodeError as TransactionDecodeError, Transaction,
};
use crate::hashes::{bytes_eq, sha256, spec_sha256};
use crate::token::{base64_url_decode, base64_url_encode, spec_base64_url, spec_base64_url_decode};

verus! {

/// Error associated with chain-commitment token validation.
#[derive(Clone, Copy, Debug, PartialEq, Eq, Structural)]
pub enum ValidationError {
    /// Failed to decode the token.
    Base64,
    /// The committed script was an unexpected length.
    IncorrectLength,
    /// The token's commitment does not match.
    Invalid,
    /// The committed output was not an `OP_RETURN`.
    NotOpReturn,
    /// The committed output does not exist.
    OutputNotFound,
    /// Failed to decode the committed transaction.
    Transaction(TransactionDecodeError),
    /// The token was an unexpected length.
    TokenLength,
}

/// Construct the commitment: the digest of the public key hash followed by
/// the metadata hash.
pub fn construct_commitment(pub_key_hash: &[u8], address_metadata_hash: &[u8]) -> (r: Vec<u8>)
    ensures
        r@ == spec_sha256(pub_key_hash@ + address_metadata_hash@),
{
    let mut data: Vec<u8> = Vec::new();
    push_slice(&mut data, pub_key_hash);
    push_slice(&mut data, address_metadata_hash);
    let digest = sha256(data.as_slice());
    vstd::slice::slice_to_vec(digest.as_slice())
}

/// Construct the raw token: a transaction identifier followed by the
/// little-endian output index.
pub fn construct_token_raw(tx_id: &[u8], vout: u32) -> (r: Vec<u8>)
    ensures
        r@ == tx_id@ + spec_le_bytes(vout as u64, 4),
{
    let mut raw: Vec<u8> = Vec::new();
    push_slice(&mut raw, tx_id);
    push_le_bytes(&mut raw, vout as u64, 4);
    raw
}

/// Construct the token: the base64 encoding of the raw token.
pub fn construct_token(tx_id: &[u8], vout: u32) -> (r: String)
    ensures
        r@ == spec_base64_url(tx_id@ + spec_le_bytes(vout as u64, 4)),
        spec_base64_url_decode(r@) == Some(tx_id@ + spec_le_bytes(vout as u64, 4)),
{
    let raw_token = construct_token_raw(tx_id, vout);
    base64_url_encode(raw_token.as_slice())
}

/// Validating a token against a transaction: the token must decode to a
/// 36-byte outpoint, the transaction must decode and hold the claimed
/// output, and that output must be an `OP_RETURN` carrying exactly the
/// 32-byte commitment over the two hashes.
pub open spec fn spec_validate_token(
    pub_key_hash: Seq<u8>,
    address_metadata_hash: Seq<u8>,
    token: Seq<char>,
    raw_transaction: Seq<u8>,
) -> Result<Seq<u8>, ValidationError> {
    match spec_base64_url_decode(token) {
        None => Err(ValidationError::Base64),
        Some(outpoint_raw) => if outpoint_raw.len() != 36 {
            Err(ValidationError::TokenLength)
        } else {
            match spec_decode_transaction(raw_transaction) {
                Err(e) => Err(ValidationError::Transaction(e)),
                Ok((tx, _)) => {
                    let vout = spec_le_int(outpoint_raw.subrange(32, 36));
                    if vout >= tx.outputs.len() {
                        Err(ValidationError::OutputNotFound)
                    } else {
                        let script = tx.outputs[vout].script;
                        if !spec_is_op_return(script) {
                            Err(ValidationError::NotOpReturn)
                        } else if script.len() != 34 || script[1] != 32 {
                            Err(ValidationError::IncorrectLength)
                        } else if script.subrange(2, 34) != spec_sha256(
                            pub_key_hash + address_metadata_hash,
                        ) {
                            Err(ValidationError::Invalid)
                        } else {
                            Ok(outpoint_raw)
                        }
                    }
                },
            }
        },
    }
}

/// Validate a token against the raw bytes of the transaction it names,
/// returning the raw outpoint it decodes to.
///
/// The caller looks the transaction up by the token's leading 32 bytes;
/// this function checks everything else.
#[verifier::loop_isolation(false)]
pub fn validate_token(
    pub_key_hash: &[u8],
    address_metadata_hash: &[u8],
    token: &str,
    raw_transaction: &[u8],
) -> (r: Result<Vec<u8>, ValidationError>)
    ensures
        ({
            let spec = spec_validate_token(
                pub_key_hash@,
                address_metadata_hash@,
                token@,
                raw_transaction@,
            );
            match r {
                Ok(outpoint_raw) => spec == Ok::<_, ValidationError>(outpoint_raw@),
                Err(e) => spec == Err::<Seq<u8>, _>(e),
            }
        }),
{
    let outpoint_raw = match base64_url_decode(token) {
        Some(raw) => raw,
        None => {
            return Err(ValidationError::Base64);
        },
    };
    if outpoint_raw.len() != 36 {
        return Err(ValidationError::TokenLength);
    }
    let transaction = match Transaction::decode(raw_transaction) {
        Ok(tx) => tx,
        Err(e) => {
            return Err(ValidationError::Transaction(e));
        },
    };
    let vout_slice = &outpoint_raw.as_slice()[32..36];
    proof {
        assert(vout_slice@ =~= outpoint_raw@.subrange(32, 36));
        crate::bitcoin::byteorder::lemma_le_int_bound(outpoint_raw@.subrange(32, 36));
        reveal_with_fuel(crate::bitcoin::byteorder::pow256, 5);
    }
    let vout_raw = u64_from_le(vout_slice);
    let vout = vout_raw as usize;
    if vout >= transaction.outputs.len() {
        return Err(ValidationError::OutputNotFound);
    }
    let output = &transaction.outputs[vout];
    if !output.script.is_op_return() {
        return Err(ValidationError::NotOpReturn);
    }
    let script_bytes = output.script.as_bytes();
    if script_bytes.len() != 34 || script_bytes[1] != 32 {
        return Err(ValidationError::IncorrectLength);
    }
    let mut committed_to: Vec<u8> = Vec::new();
    push_slice(&mut committed_to, pub_key_hash);
    push_slice(&mut committed_to, address_metadata_hash);
    let expected_commitment = sha256(committed_to.as_slice());
    let commitment = &script_bytes[2..34];
    proof {
        assert(commitment@ =~= output.script@.subrange(2, 34));
    }
    if !bytes_eq(expected_commitment.as_slice(), commitment) {
        return Err(ValidationError::Invalid);
    }
    Ok(outpoint_raw)
}

} // verus!
