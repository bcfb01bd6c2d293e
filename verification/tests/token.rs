use cashweb::bitcoin::script::Script;
use cashweb::bitcoin::transaction::Transaction;
use cashweb::bitcoin::Encodable;
use cashweb::keyserver::{aggregate_peers, Peer, Peers};
use cashweb::token::chain_commitment::{
    construct_commitment, construct_token, construct_token_raw, validate_token,
    ValidationError as ChainValidationError,
};
use cashweb::token::hmac_bearer::{HmacScheme, ValidationError};
use cashweb::token::{
    extract_pop_query, split_pop_token, AuthTokenExtractor, EitherExtractor,
    QueryStringTokenExtractor,
};

#[test]
fn test_split_ok() {
    split_pop_token("POP abc").unwrap();
}

#[test]
fn test_split_short() {
    assert_eq!(split_pop_token("A"), None);
}

#[test]
fn test_split_err() {
    assert_eq!(split_pop_token("ABC d"), None);
}

#[test]
fn test_split_content() {
    assert_eq!(split_pop_token("POP abc"), Some("abc"));
    // The prefix alone carries no token.
    assert_eq!(split_pop_token("POP "), None);
}

#[test]
fn test_extract_query() {
    assert_eq!(extract_pop_query("code=xyz"), Some("xyz"));
    assert_eq!(extract_pop_query("code="), Some(""));
    assert_eq!(extract_pop_query("key=xyz"), None);
    assert_eq!(extract_pop_query("c"), None);
}

#[test]
fn commitment_is_sha256_of_concatenation() {
    // SHA-256("abc"), split over the two arguments.
    let commitment = construct_commitment(b"a", b"bc");
    assert_eq!(
        commitment,
        hex::decode("ba7816bf8f01cfea414140de5dae2223b00361a396177a9cb410ff61f20015ad")
            .unwrap()
    );
}

#[test]
fn token_raw_layout() {
    let raw = construct_token_raw(&[7u8; 32], 0x01020304);
    let mut expected = [7u8; 32].to_vec();
    expected.extend_from_slice(&0x01020304u32.to_le_bytes());
    assert_eq!(raw, expected);
}

#[test]
fn token_matches_base64_library() {
    let token = construct_token(&[7u8; 32], 5);
    let mut raw = [7u8; 32].to_vec();
    raw.extend_from_slice(&5u32.to_le_bytes());
    let config = base64::Config::new(base64::CharacterSet::UrlSafe, false);
    assert_eq!(token, base64::encode_config(&raw, config));
}

#[test]
fn hmac_scheme_round_trip() {
    let scheme = HmacScheme::new(b"secret key");
    let token = scheme.construct_token(b"some data");
    assert_eq!(scheme.validate_token(b"some data", &token), Ok(()));
    assert_eq!(
        scheme.validate_token(b"other data", &token),
        Err(ValidationError::Invalid)
    );
    assert_eq!(
        scheme.validate_token(b"some data", "!!!"),
        Err(ValidationError::Base64)
    );
}

#[test]
fn hmac_scheme_matches_hash_library() {
    let scheme = HmacScheme::new(b"secret key");
    let token = scheme.construct_token(b"some data");
    let key = ring::hmac::Key::new(ring::hmac::HMAC_SHA256, b"secret key");
    let tag = ring::hmac::sign(&key, b"some data");
    let config = base64::Config::new(base64::CharacterSet::UrlSafe, false);
    assert_eq!(token, base64::encode_config(tag.as_ref(), config));
}

#[test]
fn aggregate_peers_flattens_in_order() {
    let peer = |url: &str| Peer {
        url: url.to_owned(),
    };
    let merged = aggregate_peers(vec![
        Peers {
            peers: vec![peer("a"), peer("b")],
        },
        Peers { peers: vec![] },
        Peers {
            peers: vec![peer("c")],
        },
    ]);
    assert_eq!(merged.peers, vec![peer("a"), peer("b"), peer("c")]);
}

#[test]
fn either_extractor_holds_both() {
    let either = EitherExtractor::either(AuthTokenExtractor, QueryStringTokenExtractor);
    assert_eq!(either.extractor_a, AuthTokenExtractor);
    assert_eq!(either.extractor_b, QueryStringTokenExtractor);
}

#[test]
fn chain_commitment_validate_token() {
    let pub_key_hash = [1u8; 20];
    let metadata_hash = [2u8; 32];
    let commitment = construct_commitment(&pub_key_hash, &metadata_hash);
    let mut script = vec![0x6au8, 32];
    script.extend_from_slice(&commitment);

    let tx = Transaction {
        version: 1,
        inputs: vec![],
        outputs: vec![cashweb::bitcoin::output::Output {
            value: 0,
            script: Script::new(script),
        }],
        lock_time: 0,
    };
    let mut raw_tx = Vec::new();
    tx.encode_raw(&mut raw_tx);

    let token = construct_token(&[9u8; 32], 0);
    let outpoint_raw = validate_token(&pub_key_hash, &metadata_hash, &token, &raw_tx).unwrap();
    assert_eq!(outpoint_raw, construct_token_raw(&[9u8; 32], 0));

    // A different metadata hash no longer matches the commitment.
    assert_eq!(
        validate_token(&pub_key_hash, &[3u8; 32], &token, &raw_tx),
        Err(ChainValidationError::Invalid)
    );
    // A token that is not base64 cannot decode.
    assert_eq!(
        validate_token(&pub_key_hash, &metadata_hash, "!!!", &raw_tx),
        Err(ChainValidationError::Base64)
    );
    // A token of the wrong width is rejected.
    assert_eq!(
        validate_token(&pub_key_hash, &metadata_hash, "AAAA", &raw_tx),
        Err(ChainValidationError::TokenLength)
    );
    // An output index past the end is rejected.
    let bad_vout = construct_token(&[9u8; 32], 4);
    assert_eq!(
        validate_token(&pub_key_hash, &metadata_hash, &bad_vout, &raw_tx),
        Err(ChainValidationError::OutputNotFound)
    );
    // A non-OP_RETURN output is rejected.
    let p2pkh_tx = Transaction {
        version: 1,
        inputs: vec![],
        outputs: vec![cashweb::bitcoin::output::Output {
            value: 0,
            script: Script::new({
                let mut s = vec![0x76u8, 0xa9, 0x14];
                s.extend_from_slice(&[0u8; 20]);
                s.extend_from_slice(&[0x88, 0xac]);
                s
            }),
        }],
        lock_time: 0,
    };
    let mut raw_p2pkh = Vec::new();
    p2pkh_tx.encode_raw(&mut raw_p2pkh);
    assert_eq!(
        validate_token(&pub_key_hash, &metadata_hash, &token, &raw_p2pkh),
        Err(ChainValidationError::NotOpReturn)
    );
}
