//! The authorization wrapper: a signed envelope around a payload, used by
//! the keyserver and relay-profile protocols.
//!
//! Parsing types the raw fields — public key, signature, scheme — and
//! resolves the payload digest by the same rule as relay messages;
//! verification then checks the ECDSA signature over that digest.

use vstd::prelude::*;

use crate::bitcoin::byteorder::read_bytes_64;
use crate::keys::{
    ecdsa_verify, signature_check, spec_ecdsa_verify, spec_pubkey_parse, spec_sig_valid, PublicKey,
};
use crate::relay::{resolve_digest, spec_message_digest, DigestError};

verus! {

/// The signature scheme of an authorization wrapper.
#[derive(Clone, Copy, Debug, PartialEq, Eq, Structural)]
pub enum SignatureScheme {
    /// Schnorr signatures: recognized but not yet supported.
    Schnorr,
    /// ECDSA signatures.
    Ecdsa,
}

impl SignatureScheme {
    /// The scheme a wire tag stands for, if any.
    pub open spec fn spec_from_i32(tag: i32) -> Option<SignatureScheme> {
        if tag == 0 {
            Some(SignatureScheme::Schnorr)
        } else if tag == 1 {
            Some(SignatureScheme::Ecdsa)
        } else {
            None
        }
    }

    /// Resolve a wire tag into a signature scheme.
    pub fn from_i32(tag: i32) -> (r: Option<SignatureScheme>)
        ensures
            r == Self::spec_from_i32(tag),
    {
        if tag == 0 {
            Some(SignatureScheme::Schnorr)
        } else if tag == 1 {
            Some(SignatureScheme::Ecdsa)
        } else {
            None
        }
    }
}

/// A wire authorization wrapper, all fields raw bytes or plain numbers.
#[derive(Clone, Debug, PartialEq, Eq)]
pub struct AuthWrapper {
    /// The serialized public key associated with the signature.
    pub public_key: Vec<u8>,
    /// The compact signature by the public key covering the payload.
    pub signature: Vec<u8>,
    /// The wire tag of the signature scheme.
    pub scheme: i32,
    /// The payload covered by the signature.
    pub payload: Vec<u8>,
    /// The SHA-256 digest of the payload: empty, or exactly 32 bytes.
    pub payload_digest: Vec<u8>,
}

/// An [`AuthWrapper`] post-parsing.
#[derive(Clone, Debug, PartialEq, Eq)]
pub struct ParsedAuthWrapper {
    /// The public key associated with the signature.
    pub public_key: PublicKey,
    /// The compact signature covering the payload.
    pub signature: [u8; 64],
    /// The signature scheme used for signing.
    pub scheme: SignatureScheme,
    /// The payload covered by the signature.
    pub payload: Vec<u8>,
    /// The SHA-256 digest of the payload.
    pub payload_digest: [u8; 32],
}

/// Error associated with parsing the [`AuthWrapper`].
#[derive(Clone, Copy, Debug, PartialEq, Eq, Structural)]
pub enum ParseError {
    /// The public key provided was invalid.
    PublicKey,
    /// The signature provided was an invalid format.
    Signature,
    /// The signature scheme provided is unsupported.
    UnsupportedScheme,
    /// The payload digest provided was fraudulent.
    FraudulentDigest,
    /// Both the digest and the payload were missing.
    DigestAndPayloadMissing,
    /// The payload digest was not 32 bytes long.
    UnexpectedLengthDigest,
}

/// The parse error standing for a digest error.
pub open spec fn spec_digest_parse_error(e: DigestError) -> ParseError {
    match e {
        DigestError::FraudulentDigest => ParseError::FraudulentDigest,
        DigestError::DigestAndPayloadMissing => ParseError::DigestAndPayloadMissing,
        DigestError::UnexpectedLengthDigest => ParseError::UnexpectedLengthDigest,
    }
}

impl AuthWrapper {
    /// Parse the [`AuthWrapper`] to construct a [`ParsedAuthWrapper`]: the
    /// public key, the scheme, the signature, then the payload digest,
    /// each check in that order, the first failure deciding the error.
    pub fn parse(self) -> (r: Result<ParsedAuthWrapper, ParseError>)
        ensures
            match r {
                Ok(p) => {
                    &&& spec_pubkey_parse(self.public_key@) == Some(p.public_key@)
                    &&& SignatureScheme::spec_from_i32(self.scheme) == Some(p.scheme)
                    &&& spec_sig_valid(self.signature@)
                    &&& p.signature@ == self.signature@
                    &&& spec_message_digest(self.payload_digest@, self.payload@) == Ok::<
                        _,
                        DigestError,
                    >(p.payload_digest@)
                    &&& p.payload@ == self.payload@
                },
                Err(ParseError::PublicKey) => spec_pubkey_parse(self.public_key@) is None,
                Err(ParseError::UnsupportedScheme) => {
                    &&& spec_pubkey_parse(self.public_key@) is Some
                    &&& SignatureScheme::spec_from_i32(self.scheme) is None
                },
                Err(ParseError::Signature) => {
                    &&& spec_pubkey_parse(self.public_key@) is Some
                    &&& SignatureScheme::spec_from_i32(self.scheme) is Some
                    &&& !spec_sig_valid(self.signature@)
                },
                Err(e) => {
                    &&& spec_pubkey_parse(self.public_key@) is Some
                    &&& SignatureScheme::spec_from_i32(self.scheme) is Some
                    &&& spec_sig_valid(self.signature@)
                    &&& spec_message_digest(self.payload_digest@, self.payload@) matches Err(de)
                        && e == spec_digest_parse_error(de)
                },
            },
    {
        let public_key = match PublicKey::from_slice(self.public_key.as_slice()) {
            Some(k) => k,
            None => {
                return Err(ParseError::PublicKey);
            },
        };
        let scheme = match SignatureScheme::from_i32(self.scheme) {
            Some(s) => s,
            None => {
                return Err(ParseError::UnsupportedScheme);
            },
        };
        if !signature_check(self.signature.as_slice()) {
            return Err(ParseError::Signature);
        }
        let signature = read_bytes_64(self.signature.as_slice(), 0);
        proof {
            assert(signature@ =~= self.signature@);
        }
        let payload_digest = match resolve_digest(
            self.payload_digest.as_slice(),
            self.payload.as_slice(),
        ) {
            Ok(d) => d,
            Err(e) => {
                return Err(
                    match e {
                        DigestError::FraudulentDigest => ParseError::FraudulentDigest,
                        DigestError::DigestAndPayloadMissing => ParseError::DigestAndPayloadMissing,
                        DigestError::UnexpectedLengthDigest => ParseError::UnexpectedLengthDigest,
                    },
                );
            },
        };
        Ok(
            ParsedAuthWrapper {
                public_key,
                signature,
                scheme,
                payload: self.payload,
                payload_digest,
            },
        )
    }
}

/// Error associated with verifying the signature of an [`AuthWrapper`].
#[derive(Clone, Copy, Debug, PartialEq, Eq, Structural)]
pub enum VerifyError {
    /// The signature failed verification.
    InvalidSignature,
    /// The signature scheme provided is unsupported.
    UnsupportedScheme,
}

impl ParsedAuthWrapper {
    /// Verify the signature on the [`ParsedAuthWrapper`]: an ECDSA check
    /// of the signature over the payload digest under the public key.
    /// Schnorr signatures are not yet supported.
    pub fn verify(&self) -> (r: Result<(), VerifyError>)
        ensures
            match r {
                Ok(()) => {
                    &&& self.scheme == SignatureScheme::Ecdsa
                    &&& spec_sig_valid(self.signature@)
                    &&& spec_ecdsa_verify(self.payload_digest@, self.signature@, self.public_key@)
                },
                Err(VerifyError::UnsupportedScheme) => self.scheme == SignatureScheme::Schnorr,
                Err(VerifyError::InvalidSignature) => {
                    &&& self.scheme == SignatureScheme::Ecdsa
                    &&& !(spec_sig_valid(self.signature@) && spec_ecdsa_verify(
                        self.payload_digest@,
                        self.signature@,
                        self.public_key@,
                    ))
                },
            },
    {
        if matches!(self.scheme, SignatureScheme::Schnorr) {
            return Err(VerifyError::UnsupportedScheme);
        }
        if !signature_check(self.signature.as_slice()) {
            return Err(VerifyError::InvalidSignature);
        }
        if ecdsa_verify(&self.payload_digest, &self.signature, &self.public_key) {
            Ok(())
        } else {
            Err(VerifyError::InvalidSignature)
        }
    }
}

} // verus!
