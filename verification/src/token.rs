//! Proof-of-payment tokens: extracting them from their carrier strings and
//! constructing them from transaction outpoints or HMAC tags.

use vstd::prelude::*;

pub mod chain_commitment;
pub mod hmac_bearer;

use vstd::string::StrSliceExecFns;

verus! {

/// The URL-safe, unpadded base64 encoding of `data`.
pub uninterp spec fn spec_base64_url(data: Seq<u8>) -> Seq<char>;

/// The URL-safe, unpadded base64 decoding of `s`, or `None` when `s` is
/// not a well-formed encoding.
pub uninterp spec fn spec_base64_url_decode(s: Seq<char>) -> Option<Seq<u8>>;

/// Relies on `base64::encode_config` with the URL-safe alphabet and no
/// padding: a function of the input bytes alone, inverted by
/// `base64::decode_config` with the same configuration.
#[verifier::external_body]
pub(crate) fn base64_url_encode(data: &[u8]) -> (r: String)
    ensures
        r@ == spec_base64_url(data@),
        spec_base64_url_decode(r@) == Some(data@),
{
    let url_safe_config = base64::Config::new(base64::CharacterSet::UrlSafe, false);
    base64::encode_config(data, url_safe_config)
}

/// Relies on `base64::decode_config` with the URL-safe alphabet and no
/// padding: a function of the input string alone, failing exactly on
/// malformed encodings.
#[verifier::external_body]
pub(crate) fn base64_url_decode(token: &str) -> (r: Option<Vec<u8>>)
    ensures
        match r {
            Some(d) => spec_base64_url_decode(token@) == Some(d@),
            None => spec_base64_url_decode(token@) is None,
        },
{
    let url_safe_config = base64::Config::new(base64::CharacterSet::UrlSafe, false);
    base64::decode_config(token, url_safe_config).ok()
}

/// Split the POP token, removing the prefix "POP ".
pub fn split_pop_token(full_token: &str) -> (r: Option<&str>)
    ensures
        match r {
            Some(t) => {
                &&& full_token@.len() > 4
                &&& full_token@.subrange(0, 4) == "POP "@
                &&& t@ == full_token@.skip(4)
            },
            None => !(full_token@.len() > 4 && full_token@.subrange(0, 4) == "POP "@),
        },
{
    proof {
        reveal_strlit("POP ");
    }
    let n = full_token.unicode_len();
    if n > 4 && full_token.get_char(0) == 'P' && full_token.get_char(1) == 'O'
        && full_token.get_char(2) == 'P' && full_token.get_char(3) == ' ' {
        let rest = full_token.substring_char(4, n);
        proof {
            assert(full_token@.subrange(0, 4) =~= "POP "@);
            assert(full_token@.subrange(4, full_token@.len() as int) =~= full_token@.skip(4));
        }
        Some(rest)
    } else {
        proof {
            if full_token@.len() > 4 && full_token@.subrange(0, 4) == "POP "@ {
                assert("POP "@ =~= seq!['P', 'O', 'P', ' ']);
                assert(full_token@.subrange(0, 4)[0] == full_token@[0]);
                assert(full_token@.subrange(0, 4)[1] == full_token@[1]);
                assert(full_token@.subrange(0, 4)[2] == full_token@[2]);
                assert(full_token@.subrange(0, 4)[3] == full_token@[3]);
            }
        }
        None
    }
}

/// Extract a POP token from one query-string pair, removing the prefix
/// "code=".
pub fn extract_pop_query(value: &str) -> (r: Option<&str>)
    ensures
        match r {
            Some(t) => {
                &&& value@.len() >= 5
                &&& value@.subrange(0, 5) == "code="@
                &&& t@ == value@.skip(5)
            },
            None => !(value@.len() >= 5 && value@.subrange(0, 5) == "code="@),
        },
{
    proof {
        reveal_strlit("code=");
    }
    let n = value.unicode_len();
    if n >= 5 && value.get_char(0) == 'c' && value.get_char(1) == 'o' && value.get_char(2) == 'd'
        && value.get_char(3) == 'e' && value.get_char(4) == '=' {
        let rest = value.substring_char(5, n);
        proof {
            assert(value@.subrange(0, 5) =~= "code="@);
            assert(value@.subrange(5, value@.len() as int) =~= value@.skip(5));
        }
        Some(rest)
    } else {
        proof {
            if value@.len() >= 5 && value@.subrange(0, 5) == "code="@ {
                assert("code="@ =~= seq!['c', 'o', 'd', 'e', '=']);
                assert(value@.subrange(0, 5)[0] == value@[0]);
                assert(value@.subrange(0, 5)[1] == value@[1]);
                assert(value@.subrange(0, 5)[2] == value@[2]);
                assert(value@.subrange(0, 5)[3] == value@[3]);
                assert(value@.subrange(0, 5)[4] == value@[4]);
            }
        }
        None
    }
}

/// Marks extraction of a token from a request's authorization header.
#[derive(Clone, Copy, Debug, PartialEq, Eq, Structural)]
pub struct AuthTokenExtractor;

/// Marks extraction of a token from a request's query string.
#[derive(Clone, Copy, Debug, PartialEq, Eq, Structural)]
pub struct QueryStringTokenExtractor;

/// Extraction of a token by either of two extractors, the first taking
/// precedence.
#[derive(Clone, Copy, Debug, PartialEq, Eq)]
pub struct EitherExtractor<A, B> {
    /// The extractor tried first.
    pub extractor_a: A,
    /// The extractor tried second.
    pub extractor_b: B,
}

impl<A, B> EitherExtractor<A, B> {
    /// Combine two extractors.
    pub fn either(extractor_a: A, extractor_b: B) -> (r: Self)
        ensures
            r == (EitherExtractor { extractor_a, extractor_b }),
    {
        EitherExtractor { extractor_a, extractor_b }
    }
}

} // verus!
