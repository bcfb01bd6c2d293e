//! A rudimentary HMAC bearer-token scheme.

use vstd::prelude::*;

use crate::hashes::{bytes_eq, hmac_sha256, spec_hmac_sha256};
use crate::token::{base64_url_decode, base64_url_encode, spec_base64_url, spec_base64_url_decode};

verus! {

/// Error associated with basic HMAC token validation.
#[derive(Clone, Copy, Debug, PartialEq, Eq, Structural)]
pub enum ValidationError {
    /// Failed to decode the token.
    Base64,
    /// The token was invalid.
    Invalid,
}

/// Basic HMAC token scheme: a token is the base64 encoding of the HMAC tag
/// of its subject under a secret key.
#[derive(Clone, Debug, PartialEq, Eq)]
pub struct HmacScheme {
    key: Vec<u8>,
}

impl View for HmacScheme {
    type V = Seq<u8>;

    closed spec fn view(&self) -> Seq<u8> {
        self.key@
    }
}

impl HmacScheme {
    /// Create a new HMAC scheme using a specified secret key.
    pub fn new(key: &[u8]) -> (r: Self)
        ensures
            r@ == key@,
    {
        HmacScheme { key: vstd::slice::slice_to_vec(key) }
    }

    /// Construct a token covering `data`.
    pub fn construct_token(&self, data: &[u8]) -> (r: String)
        ensures
            r@ == spec_base64_url(spec_hmac_sha256(self@, data@)),
            spec_base64_url_decode(r@) == Some(spec_hmac_sha256(self@, data@)),
    {
        let tag = hmac_sha256(self.key.as_slice(), data);
        base64_url_encode(tag.as_slice())
    }

    /// Validate a token against `data`: it must decode, and its tag must
    /// equal the one recomputed under the key.
    pub fn validate_token(&self, data: &[u8], token: &str) -> (r: Result<(), ValidationError>)
        ensures
            match r {
                Ok(()) => spec_base64_url_decode(token@) == Some(
                    spec_hmac_sha256(self@, data@),
                ),
                Err(ValidationError::Base64) => spec_base64_url_decode(token@) is None,
                Err(ValidationError::Invalid) => spec_base64_url_decode(token@) matches Some(t)
                    && t != spec_hmac_sha256(self@, data@),
            },
    {
        let tag = match base64_url_decode(token) {
            Some(t) => t,
            None => {
                return Err(ValidationError::Base64);
            },
        };
        let expected = hmac_sha256(self.key.as_slice(), data);
        if bytes_eq(expected.as_slice(), tag.as_slice()) {
            Ok(())
        } else {
            Err(ValidationError::Invalid)
        }
    }
}

} // verus!
