//! Relay messages: parsing, digest validation, stamp verification,
//! authentication, and payload encryption.
//!
//! A wire [`Message`] carries raw byte fields.  [`Message::parse`] checks
//! and types them into a [`ParsedMessage`]; opening a parsed message then
//! verifies its stamp, derives the shared key, authenticates the payload,
//! and decrypts it — in that order, with every step short-circuiting.

use vstd::prelude::*;

pub mod stamp;

use crate::bitcoin::byteorder::read_bytes_32;
use crate::bitcoin::transaction::{Transaction, TransactionV};
use crate::cipher::{aes_cbc_decrypt, aes_cbc_encrypt, spec_aes_cbc_decrypt, spec_aes_cbc_encrypt};
use crate::hashes::{bytes_eq, hmac_sha256, sha256, spec_hmac_sha256, spec_sha256};
use crate::keys::{spec_pubkey_mul_tweak, spec_pubkey_parse, PublicKey};
use crate::relay::stamp::{
    spec_verify_stamp, SpecStampError, Stamp, StampError, StampOutpoints, StampType,
};

verus! {

/// The encryption scheme applied to the serialized payload.
#[derive(Clone, Copy, Debug, PartialEq, Eq, Structural)]
pub enum EncryptionScheme {
    /// The payload is carried in the clear.
    Plaintext,
    /// The payload is encrypted with AES-128-CBC.
    Aes,
}

impl EncryptionScheme {
    /// The scheme a wire tag stands for, if any.
    pub open spec fn spec_from_i32(tag: i32) -> Option<EncryptionScheme> {
        if tag == 0 {
            Some(EncryptionScheme::Plaintext)
        } else if tag == 1 {
            Some(EncryptionScheme::Aes)
        } else {
            None
        }
    }

    /// Resolve a wire tag into an encryption scheme.
    pub fn from_i32(tag: i32) -> (r: Option<EncryptionScheme>)
        ensures
            r == Self::spec_from_i32(tag),
    {
        if tag == 0 {
            Some(EncryptionScheme::Plaintext)
        } else if tag == 1 {
            Some(EncryptionScheme::Aes)
        } else {
            None
        }
    }

    /// The wire tag of this scheme.
    pub fn to_i32(&self) -> (r: i32)
        ensures
            Self::spec_from_i32(r) == Some(*self),
    {
        match self {
            EncryptionScheme::Plaintext => 0,
            EncryptionScheme::Aes => 1,
        }
    }
}

/// A wire message, all fields raw bytes or plain numbers.
#[derive(Clone, Debug, PartialEq, Eq)]
pub struct Message {
    /// The serialized source public key.
    pub source_public_key: Vec<u8>,
    /// The serialized destination public key.
    pub destination_public_key: Vec<u8>,
    /// Malleable server time.
    pub received_time: i64,
    /// The SHA-256 digest of the payload: empty, or exactly 32 bytes.
    pub payload_digest: Vec<u8>,
    /// The stamp attached to the message.
    pub stamp: Option<Stamp>,
    /// The wire tag of the encryption scheme.
    pub scheme: i32,
    /// Salts both the payload HMAC and the encryption key.
    pub salt: Vec<u8>,
    /// The HMAC of the payload digest under the shared key.
    pub payload_hmac: Vec<u8>,
    /// The size, in bytes, of the payload.
    pub payload_size: u64,
    /// The encrypted payload.
    pub payload: Vec<u8>,
}

/// Error associated with getting the [`Message`] payload digest.
#[derive(Clone, Copy, Debug, PartialEq, Eq, Structural)]
pub enum DigestError {
    /// Both the digest and payload are missing.
    DigestAndPayloadMissing,
    /// Fraudulent digest.
    FraudulentDigest,
    /// Digest was an unexpected length.
    UnexpectedLengthDigest,
}

/// Resolving a message's payload digest from its `payload_digest` field
/// and its payload bytes: an absent digest is computed from a non-empty
/// payload; a present one must be 32 bytes and, when a payload is there,
/// must equal the payload's own digest.
pub open spec fn spec_message_digest(payload_digest: Seq<u8>, payload: Seq<u8>) -> Result<
    Seq<u8>,
    DigestError,
> {
    if payload_digest.len() == 0 {
        if payload.len() == 0 {
            Err(DigestError::DigestAndPayloadMissing)
        } else {
            Ok(spec_sha256(payload))
        }
    } else if payload_digest.len() == 32 {
        if payload.len() > 0 {
            if spec_sha256(payload) == payload_digest {
                Ok(payload_digest)
            } else {
                Err(DigestError::FraudulentDigest)
            }
        } else {
            Ok(payload_digest)
        }
    } else {
        Err(DigestError::UnexpectedLengthDigest)
    }
}

/// Error associated with [`Message`] parsing.
#[derive(Clone, Copy, Debug, PartialEq, Eq, Structural)]
pub enum ParseError {
    /// Unable to calculate the payload digest.
    Digest(DigestError),
    /// Unable to parse the source public key.
    SourcePublicKey,
    /// Unable to parse the destination public key.
    DestinationPublicKey,
    /// Stamp information missing.
    MissingStamp,
    /// Unsupported stamp type given.
    UnsupportedStampType,
    /// Payload HMAC was an unexpected length.
    UnexpectedLengthPayloadHmac,
}

/// A [`Message`] post-parsing: public keys are curve points, the digest
/// and HMAC are exactly 32 bytes, and the stamp is present.
#[derive(Clone, Debug, PartialEq, Eq)]
pub struct ParsedMessage {
    /// The source public key.
    pub source_public_key: PublicKey,
    /// The destination public key.
    pub destination_public_key: PublicKey,
    /// Malleable server time.
    pub received_time: i64,
    /// The SHA-256 digest of the payload.
    pub payload_digest: [u8; 32],
    /// The stamp attached to the message.
    pub stamp: Stamp,
    /// The encryption scheme used on the serialized payload.
    pub scheme: EncryptionScheme,
    /// Salts both the payload HMAC and the encryption key.
    pub salt: Vec<u8>,
    /// The HMAC of the payload digest under the shared key.
    pub payload_hmac: [u8; 32],
    /// The size, in bytes, of the payload.
    pub payload_size: u64,
    /// The encrypted payload.
    pub payload: Vec<u8>,
}

/// Resolve a payload digest from a raw digest field and the payload
/// bytes, following the rule of [`spec_message_digest`].
pub fn resolve_digest(payload_digest: &[u8], payload: &[u8]) -> (r: Result<[u8; 32], DigestError>)
    ensures
        match r {
            Ok(d) => spec_message_digest(payload_digest@, payload@) == Ok::<_, DigestError>(d@),
            Err(e) => spec_message_digest(payload_digest@, payload@) == Err::<Seq<u8>, _>(e),
        },
{
    if payload_digest.len() == 0 {
        if payload.len() == 0 {
            Err(DigestError::DigestAndPayloadMissing)
        } else {
            Ok(sha256(payload))
        }
    } else if payload_digest.len() == 32 {
        if payload.len() > 0 {
            let computed = sha256(payload);
            if bytes_eq(computed.as_slice(), payload_digest) {
                Ok(computed)
            } else {
                Err(DigestError::FraudulentDigest)
            }
        } else {
            let given = read_bytes_32(payload_digest, 0);
            proof {
                assert(given@ =~= payload_digest@);
            }
            Ok(given)
        }
    } else {
        Err(DigestError::UnexpectedLengthDigest)
    }
}

/// A non-empty payload carried with exactly its own digest resolves to
/// that digest, and with any other 32-byte digest field it is rejected as
/// fraudulent.
pub proof fn lemma_digest_round_trip(payload: Seq<u8>, digest: Seq<u8>)
    requires
        payload.len() > 0,
        digest.len() == 32,
    ensures
        spec_message_digest(spec_sha256(payload), payload) == Ok::<Seq<u8>, DigestError>(
            spec_sha256(payload),
        ),
        digest != spec_sha256(payload) ==> spec_message_digest(digest, payload) == Err::<
            Seq<u8>,
            DigestError,
        >(DigestError::FraudulentDigest),
{
}

impl Message {
    /// Get the SHA-256 digest of the payload; if `payload_digest` is
    /// missing then calculate it, and if both are present then require
    /// them to agree.
    pub fn digest(&self) -> (r: Result<[u8; 32], DigestError>)
        ensures
            match r {
                Ok(d) => spec_message_digest(self.payload_digest@, self.payload@) == Ok::<
                    _,
                    DigestError,
                >(d@),
                Err(e) => spec_message_digest(self.payload_digest@, self.payload@) == Err::<
                    Seq<u8>,
                    _,
                >(e),
            },
    {
        resolve_digest(self.payload_digest.as_slice(), self.payload.as_slice())
    }

    /// Parse the [`Message`] to construct a [`ParsedMessage`].
    ///
    /// This deserializes both public keys, resolves the payload digest,
    /// requires the stamp, resolves the scheme, and coerces the HMAC to
    /// exactly 32 bytes — each check in that order, the first failure
    /// deciding the error.
    pub fn parse(self) -> (r: Result<ParsedMessage, ParseError>)
        ensures
            match r {
                Ok(p) => {
                    &&& spec_pubkey_parse(self.source_public_key@) == Some(p.source_public_key@)
                    &&& spec_pubkey_parse(self.destination_public_key@) == Some(
                        p.destination_public_key@,
                    )
                    &&& spec_message_digest(self.payload_digest@, self.payload@) == Ok::<
                        _,
                        DigestError,
                    >(p.payload_digest@)
                    &&& self.stamp matches Some(st) && p.stamp == st
                    &&& EncryptionScheme::spec_from_i32(self.scheme) == Some(p.scheme)
                    &&& self.payload_hmac@.len() == 32
                    &&& p.payload_hmac@ == self.payload_hmac@
                    &&& p.received_time == self.received_time
                    &&& p.payload_size == self.payload_size
                    &&& p.salt@ == self.salt@
                    &&& p.payload@ == self.payload@
                },
                Err(ParseError::SourcePublicKey) => spec_pubkey_parse(self.source_public_key@)
                    is None,
                Err(ParseError::DestinationPublicKey) => {
                    &&& spec_pubkey_parse(self.source_public_key@) is Some
                    &&& spec_pubkey_parse(self.destination_public_key@) is None
                },
                Err(ParseError::Digest(e)) => {
                    &&& spec_pubkey_parse(self.source_public_key@) is Some
                    &&& spec_pubkey_parse(self.destination_public_key@) is Some
                    &&& spec_message_digest(self.payload_digest@, self.payload@) == Err::<
                        Seq<u8>,
                        _,
                    >(e)
                },
                Err(ParseError::MissingStamp) => {
                    &&& spec_pubkey_parse(self.source_public_key@) is Some
                    &&& spec_pubkey_parse(self.destination_public_key@) is Some
                    &&& spec_message_digest(self.payload_digest@, self.payload@) is Ok
                    &&& self.stamp is None
                },
                Err(ParseError::UnsupportedStampType) => {
                    &&& spec_pubkey_parse(self.source_public_key@) is Some
                    &&& spec_pubkey_parse(self.destination_public_key@) is Some
                    &&& spec_message_digest(self.payload_digest@, self.payload@) is Ok
                    &&& self.stamp is Some
                    &&& EncryptionScheme::spec_from_i32(self.scheme) is None
                },
                Err(ParseError::UnexpectedLengthPayloadHmac) => {
                    &&& spec_pubkey_parse(self.source_public_key@) is Some
                    &&& spec_pubkey_parse(self.destination_public_key@) is Some
                    &&& spec_message_digest(self.payload_digest@, self.payload@) is Ok
                    &&& self.stamp is Some
                    &&& EncryptionScheme::spec_from_i32(self.scheme) is Some
                    &&& self.payload_hmac@.len() != 32
                },
            },
    {
        let source_public_key = match PublicKey::from_slice(self.source_public_key.as_slice()) {
            Some(k) => k,
            None => {
                return Err(ParseError::SourcePublicKey);
            },
        };
        let destination_public_key = match PublicKey::from_slice(
            self.destination_public_key.as_slice(),
        ) {
            Some(k) => k,
            None => {
                return Err(ParseError::DestinationPublicKey);
            },
        };
        let payload_digest = match self.digest() {
            Ok(d) => d,
            Err(e) => {
                return Err(ParseError::Digest(e));
            },
        };
        let stamp = match self.stamp {
            Some(st) => st,
            None => {
                return Err(ParseError::MissingStamp);
            },
        };
        let scheme = match EncryptionScheme::from_i32(self.scheme) {
            Some(s) => s,
            None => {
                return Err(ParseError::UnsupportedStampType);
            },
        };
        if self.payload_hmac.len() != 32 {
            return Err(ParseError::UnexpectedLengthPayloadHmac);
        }
        let payload_hmac = read_bytes_32(self.payload_hmac.as_slice(), 0);
        proof {
            assert(payload_hmac@ =~= self.payload_hmac@);
        }
        Ok(
            ParsedMessage {
                source_public_key,
                destination_public_key,
                received_time: self.received_time,
                payload_digest,
                stamp,
                scheme,
                salt: self.salt,
                payload_hmac,
                payload_size: self.payload_size,
                payload: self.payload,
            },
        )
    }
}

/// The Diffie-Hellman merged key: the source public key multiplied by the
/// recipient's private scalar.
pub fn create_merged_key(source_public_key: PublicKey, private_key: &[u8]) -> (r: Option<
    PublicKey,
>)
    ensures
        match r {
            Some(k) => spec_pubkey_mul_tweak(source_public_key@, private_key@) == Some(k@),
            None => spec_pubkey_mul_tweak(source_public_key@, private_key@) is None,
        },
{
    source_public_key.tweak_mul(private_key)
}

/// The shared symmetric key: an HMAC-SHA256 of the salt under the
/// serialized merged key.
pub open spec fn spec_create_shared_key(
    source: Seq<u8>,
    private_key: Seq<u8>,
    salt: Seq<u8>,
) -> Option<Seq<u8>> {
    match spec_pubkey_mul_tweak(source, private_key) {
        None => None,
        Some(merged) => Some(spec_hmac_sha256(merged, salt)),
    }
}

/// Create the shared key from the source public key, the recipient's
/// private key, and a salt.
pub fn create_shared_key(source_public_key: PublicKey, private_key: &[u8], salt: &[u8]) -> (r:
    Option<[u8; 32]>)
    ensures
        match r {
            Some(k) => spec_create_shared_key(source_public_key@, private_key@, salt@) == Some(
                k@,
            ),
            None => spec_create_shared_key(source_public_key@, private_key@, salt@) is None,
        },
{
    match create_merged_key(source_public_key, private_key) {
        None => None,
        Some(merged) => {
            let raw_merged = merged.serialize();
            Some(hmac_sha256(raw_merged.as_slice(), salt))
        },
    }
}

/// Message authentication failed: the calculated HMAC did not match the
/// one given.
#[derive(Clone, Copy, Debug, PartialEq, Eq, Structural)]
pub struct InvalidHmac;

/// Authenticate a payload digest: recompute its HMAC under the shared key
/// and compare, in full, against the tag given.
pub fn authenticate(shared_key: &[u8], payload_digest: &[u8], payload_hmac: &[u8]) -> (r: Result<
    (),
    InvalidHmac,
>)
    ensures
        r is Ok <==> spec_hmac_sha256(shared_key@, payload_digest@) == payload_hmac@,
{
    let expected = hmac_sha256(shared_key, payload_digest);
    if bytes_eq(expected.as_slice(), payload_hmac) {
        Ok(())
    } else {
        Err(InvalidHmac)
    }
}

/// The decrypted application-level content, carried as its serialized
/// bytes; this layer does not interpret it further.
#[derive(Clone, Debug, PartialEq, Eq)]
pub struct Payload {
    /// The serialized content.
    pub raw: Vec<u8>,
}

/// The result of [`ParsedMessage::open`] or
/// [`ParsedMessage::open_in_place`].
#[derive(Clone, Debug, PartialEq, Eq)]
pub struct Opened {
    /// Decoded stamp transactions.
    pub txs: Vec<Transaction>,
    /// Decrypted payload.
    pub payload: Payload,
}

/// Error associated with [`ParsedMessage::open`] or
/// [`ParsedMessage::open_in_place`].
#[derive(Clone, Debug, PartialEq, Eq)]
pub enum OpenError {
    /// Invalid stamp.
    Stamp(StampError),
    /// Failed to construct the shared key.
    SharedKey,
    /// Failed authentication.
    Authentication,
    /// Failed to decrypt the ciphertext payload.
    Decrypt,
}

impl ParsedMessage {
    /// The stamp check outcome of this message.
    pub open spec fn spec_stamp_result(&self) -> Result<Seq<TransactionV>, SpecStampError> {
        match StampType::spec_from_i32(self.stamp.stamp_type) {
            None => Err(SpecStampError::UnsupportedStampType),
            Some(ty) => spec_verify_stamp(
                self.stamp.stamp_outpoints@.map_values(|o: StampOutpoints| o@),
                self.payload_digest@,
                self.destination_public_key@,
                ty,
            ),
        }
    }

    /// The shared key this message derives with the given private key.
    pub open spec fn spec_shared_key(&self, private_key: Seq<u8>) -> Option<Seq<u8>> {
        spec_create_shared_key(self.source_public_key@, private_key, self.salt@)
    }

    /// Whether the message's HMAC matches the given shared key.
    pub open spec fn spec_hmac_ok(&self, shared_key: Seq<u8>) -> bool {
        spec_hmac_sha256(shared_key, self.payload_digest@) == self.payload_hmac@
    }

    /// The decryption of the message's payload under the given shared key.
    pub open spec fn spec_plaintext(&self, shared_key: Seq<u8>) -> Option<Seq<u8>> {
        spec_aes_cbc_decrypt(
            shared_key.subrange(0, 16),
            shared_key.subrange(16, 32),
            self.payload@,
        )
    }

    /// Convert the [`ParsedMessage`] back into a [`Message`].
    pub fn into_message(self) -> (r: Message)
        ensures
            r.source_public_key@ == self.source_public_key@,
            r.destination_public_key@ == self.destination_public_key@,
            r.received_time == self.received_time,
            r.payload_digest@ == self.payload_digest@,
            r.stamp == Some(self.stamp),
            EncryptionScheme::spec_from_i32(r.scheme) == Some(self.scheme),
            r.salt@ == self.salt@,
            r.payload_hmac@ == self.payload_hmac@,
            r.payload_size == self.payload_size,
            r.payload@ == self.payload@,
    {
        let source_serialized = self.source_public_key.serialize();
        let destination_serialized = self.destination_public_key.serialize();
        Message {
            source_public_key: vstd::slice::slice_to_vec(source_serialized.as_slice()),
            destination_public_key: vstd::slice::slice_to_vec(destination_serialized.as_slice()),
            received_time: self.received_time,
            payload_digest: vstd::slice::slice_to_vec(self.payload_digest.as_slice()),
            stamp: Some(self.stamp),
            scheme: self.scheme.to_i32(),
            salt: self.salt,
            payload_hmac: vstd::slice::slice_to_vec(self.payload_hmac.as_slice()),
            payload_size: self.payload_size,
            payload: self.payload,
        }
    }

    /// Calculate the merged key from the destination private key.
    pub fn create_merged_key(&self, private_key: &[u8]) -> (r: Option<PublicKey>)
        ensures
            match r {
                Some(k) => spec_pubkey_mul_tweak(self.source_public_key@, private_key@) == Some(
                    k@,
                ),
                None => spec_pubkey_mul_tweak(self.source_public_key@, private_key@) is None,
            },
    {
        create_merged_key(self.source_public_key, private_key)
    }

    /// Create the shared key from the destination private key and a salt.
    pub fn create_shared_key(&self, private_key: &[u8], salt: &[u8]) -> (r: Option<[u8; 32]>)
        ensures
            match r {
                Some(k) => spec_create_shared_key(self.source_public_key@, private_key@, salt@)
                    == Some(k@),
                None => spec_create_shared_key(self.source_public_key@, private_key@, salt@)
                    is None,
            },
    {
        create_shared_key(self.source_public_key, private_key, salt)
    }

    /// Authenticate the payload HMAC against the shared key.
    pub fn authenticate(&self, shared_key: &[u8; 32]) -> (r: Result<(), InvalidHmac>)
        ensures
            r is Ok <==> self.spec_hmac_ok(shared_key@),
    {
        authenticate(
            shared_key.as_slice(),
            self.payload_digest.as_slice(),
            self.payload_hmac.as_slice(),
        )
    }

    /// Verify the stamp on the message and return the decoded
    /// transactions.
    pub fn verify_stamp(&self) -> (r: Result<Vec<Transaction>, StampError>)
        ensures
            match r {
                Ok(txs) => self.spec_stamp_result() == Ok::<_, SpecStampError>(
                    txs@.map_values(|t: Transaction| t@),
                ),
                Err(e) => self.spec_stamp_result() == Err::<Seq<TransactionV>, _>(e@),
            },
    {
        self.stamp.verify_stamp(&self.payload_digest, &self.destination_public_key)
    }

    /// Verify the stamp, derive the shared key, authenticate the payload
    /// HMAC, and only then decrypt and return the payload.
    pub fn open(&self, private_key: &[u8]) -> (r: Result<Opened, OpenError>)
        ensures
            match r {
                Ok(o) => {
                    &&& self.spec_stamp_result() == Ok::<_, SpecStampError>(
                        o.txs@.map_values(|t: Transaction| t@),
                    )
                    &&& self.spec_shared_key(private_key@) matches Some(k)
                        && self.spec_hmac_ok(k) && self.spec_plaintext(k) == Some(
                        o.payload.raw@,
                    )
                },
                Err(OpenError::Stamp(e)) => self.spec_stamp_result() == Err::<
                    Seq<TransactionV>,
                    _,
                >(e@),
                Err(OpenError::SharedKey) => {
                    &&& self.spec_stamp_result() is Ok
                    &&& self.spec_shared_key(private_key@) is None
                },
                Err(OpenError::Authentication) => {
                    &&& self.spec_stamp_result() is Ok
                    &&& self.spec_shared_key(private_key@) matches Some(k)
                        && !self.spec_hmac_ok(k)
                },
                Err(OpenError::Decrypt) => {
                    &&& self.spec_stamp_result() is Ok
                    &&& self.spec_shared_key(private_key@) matches Some(k)
                        && self.spec_hmac_ok(k) && self.spec_plaintext(k) is None
                },
            },
    {
        let txs = match self.verify_stamp() {
            Ok(txs) => txs,
            Err(e) => {
                return Err(OpenError::Stamp(e));
            },
        };
        let shared_key = match self.create_shared_key(private_key, self.salt.as_slice()) {
            Some(k) => k,
            None => {
                return Err(OpenError::SharedKey);
            },
        };
        if self.authenticate(&shared_key).is_err() {
            return Err(OpenError::Authentication);
        }
        let shared_slice = shared_key.as_slice();
        let key = &shared_slice[0..16];
        let iv = &shared_slice[16..32];
        proof {
            assert(key@ =~= shared_key@.subrange(0, 16));
            assert(iv@ =~= shared_key@.subrange(16, 32));
        }
        let plaintext = match aes_cbc_decrypt(key, iv, self.payload.as_slice()) {
            Some(p) => p,
            None => {
                return Err(OpenError::Decrypt);
            },
        };
        Ok(Opened { txs, payload: Payload { raw: plaintext } })
    }

    /// As [`ParsedMessage::open`], but also replace the message's payload
    /// with the decrypted bytes; on any failure the message is unchanged.
    pub fn open_in_place(&mut self, private_key: &[u8]) -> (r: Result<Opened, OpenError>)
        ensures
            match r {
                Ok(o) => {
                    &&& old(self).spec_stamp_result() == Ok::<_, SpecStampError>(
                        o.txs@.map_values(|t: Transaction| t@),
                    )
                    &&& old(self).spec_shared_key(private_key@) matches Some(k)
                        && old(self).spec_hmac_ok(k) && old(self).spec_plaintext(k) == Some(
                        o.payload.raw@,
                    )
                    &&& final(self).payload@ == o.payload.raw@
                    &&& final(self).source_public_key == old(self).source_public_key
                    &&& final(self).destination_public_key == old(self).destination_public_key
                    &&& final(self).received_time == old(self).received_time
                    &&& final(self).payload_digest == old(self).payload_digest
                    &&& final(self).stamp == old(self).stamp
                    &&& final(self).scheme == old(self).scheme
                    &&& final(self).salt == old(self).salt
                    &&& final(self).payload_hmac == old(self).payload_hmac
                    &&& final(self).payload_size == old(self).payload_size
                },
                Err(e) => {
                    &&& *final(self) == *old(self)
                    &&& match e {
                        OpenError::Stamp(se) => old(self).spec_stamp_result() == Err::<
                            Seq<TransactionV>,
                            _,
                        >(se@),
                        OpenError::SharedKey => old(self).spec_stamp_result() is Ok && old(
                            self,
                        ).spec_shared_key(private_key@) is None,
                        OpenError::Authentication => old(self).spec_stamp_result() is Ok && (old(
                            self,
                        ).spec_shared_key(private_key@) matches Some(k) && !old(
                            self,
                        ).spec_hmac_ok(k)),
                        OpenError::Decrypt => old(self).spec_stamp_result() is Ok && (old(
                            self,
                        ).spec_shared_key(private_key@) matches Some(k) && old(
                            self,
                        ).spec_hmac_ok(k) && old(self).spec_plaintext(k) is None),
                    }
                },
            },
    {
        let opened = match self.open(private_key) {
            Ok(o) => o,
            Err(e) => {
                return Err(e);
            },
        };
        self.payload = vstd::slice::slice_to_vec(opened.payload.raw.as_slice());
        Ok(opened)
    }
}

/// Encrypt a payload using a 32-byte shared key: the first half keys the
/// cipher, the second half is the initialization vector.
pub fn encrypt_payload(shared_key: &[u8], plaintext: &[u8]) -> (r: Vec<u8>)
    requires
        shared_key@.len() == 32,
    ensures
        r@ == spec_aes_cbc_encrypt(
            shared_key@.subrange(0, 16),
            shared_key@.subrange(16, 32),
            plaintext@,
        ),
        spec_aes_cbc_decrypt(shared_key@.subrange(0, 16), shared_key@.subrange(16, 32), r@)
            == Some(plaintext@),
{
    let key = &shared_key[0..16];
    let iv = &shared_key[16..32];
    proof {
        assert(key@ =~= shared_key@.subrange(0, 16));
        assert(iv@ =~= shared_key@.subrange(16, 32));
    }
    aes_cbc_encrypt(key, iv, plaintext)
}

/// Encrypt a payload in place using a 32-byte shared key, replacing its
/// bytes with the padded ciphertext.
pub fn encrypt_payload_in_place(shared_key: &[u8], payload: &mut Vec<u8>)
    requires
        shared_key@.len() == 32,
    ensures
        final(payload)@ == spec_aes_cbc_encrypt(
            shared_key@.subrange(0, 16),
            shared_key@.subrange(16, 32),
            old(payload)@,
        ),
{
    let ciphertext = encrypt_payload(shared_key, payload.as_slice());
    *payload = ciphertext;
}

/// A page of messages, as served by a relay.
#[derive(Clone, Debug, PartialEq, Eq)]
pub struct MessagePage {
    /// The messages of the page.
    pub messages: Vec<Message>,
    /// The start of the covered time range.
    pub start_time: i64,
    /// The end of the covered time range.
    pub end_time: i64,
    /// The digest of the first covered message.
    pub start_digest: Vec<u8>,
    /// The digest of the last covered message.
    pub end_digest: Vec<u8>,
}

/// A page of raw payloads, with the same coverage as a [`MessagePage`].
#[derive(Clone, Debug, PartialEq, Eq)]
pub struct PayloadPage {
    /// The start of the covered time range.
    pub start_time: i64,
    /// The end of the covered time range.
    pub end_time: i64,
    /// The digest of the first covered message.
    pub start_digest: Vec<u8>,
    /// The digest of the last covered message.
    pub end_digest: Vec<u8>,
    /// The payload of each covered message, in order.
    pub payloads: Vec<Vec<u8>>,
}

impl MessagePage {
    /// Convert the [`MessagePage`] into a [`PayloadPage`], keeping each
    /// message's payload in order.
    pub fn into_payload_page(self) -> (r: PayloadPage)
        ensures
            r.start_time == self.start_time,
            r.end_time == self.end_time,
            r.start_digest@ == self.start_digest@,
            r.end_digest@ == self.end_digest@,
            r.payloads@.map_values(|p: Vec<u8>| p@) == self.messages@.map_values(
                |m: Message| m.payload@,
            ),
    {
        let n: usize = self.messages.len();
        let mut payloads: Vec<Vec<u8>> = Vec::new();
        proof {
            assert(payloads@.map_values(|p: Vec<u8>| p@) =~= self.messages@.subrange(
                0,
                0,
            ).map_values(|m: Message| m.payload@));
        }
        for i in 0..n
            invariant
                n == self.messages@.len(),
                payloads@.map_values(|p: Vec<u8>| p@) == self.messages@.subrange(
                    0,
                    i as int,
                ).map_values(|m: Message| m.payload@),
        {
            let ghost acc = payloads@.map_values(|p: Vec<u8>| p@);
            payloads.push(vstd::slice::slice_to_vec(self.messages[i].payload.as_slice()));
            proof {
                assert(payloads@.map_values(|p: Vec<u8>| p@) =~= acc.push(
                    self.messages@[i as int].payload@,
                ));
                assert(self.messages@.subrange(0, i + 1).map_values(|m: Message| m.payload@)
                    =~= self.messages@.subrange(0, i as int).map_values(
                    |m: Message| m.payload@,
                ).push(self.messages@[i as int].payload@));
            }
        }
        proof {
            assert(self.messages@.subrange(0, n as int) =~= self.messages@);
        }
        PayloadPage {
            start_time: self.start_time,
            end_time: self.end_time,
            start_digest: self.start_digest,
            end_digest: self.end_digest,
            payloads,
        }
    }
}

} // verus!
