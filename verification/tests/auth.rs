use cashweb::auth_wrapper::{AuthWrapper, ParseError, SignatureScheme, VerifyError};
use cashweb::bitcoin::Network;
use cashweb::bitcoin::UnexpectedNetwork;

fn signed_wrapper() -> AuthWrapper {
    let secp = secp256k1::Secp256k1::new();
    let secret = secp256k1::SecretKey::from_slice(&[5u8; 32]).unwrap();
    let public = secp256k1::PublicKey::from_secret_key(&secp, &secret);
    let payload = b"wrapped payload".to_vec();
    let digest = ring::digest::digest(&ring::digest::SHA256, &payload);
    let message = secp256k1::Message::from_slice(digest.as_ref()).unwrap();
    let signature = secp.sign(&message, &secret);
    AuthWrapper {
        public_key: public.serialize().to_vec(),
        signature: signature.serialize_compact().to_vec(),
        scheme: 1,
        payload,
        payload_digest: Vec::new(),
    }
}

#[test]
fn parse_and_verify_signed_wrapper() {
    let parsed = signed_wrapper().parse().unwrap();
    assert_eq!(parsed.scheme, SignatureScheme::Ecdsa);
    parsed.verify().unwrap();
}

#[test]
fn verify_rejects_wrong_digest() {
    let mut parsed = signed_wrapper().parse().unwrap();
    parsed.payload_digest[0] ^= 1;
    assert_eq!(parsed.verify(), Err(VerifyError::InvalidSignature));
}

#[test]
fn verify_rejects_schnorr() {
    let mut wrapper = signed_wrapper();
    wrapper.scheme = 0;
    let parsed = wrapper.parse().unwrap();
    assert_eq!(parsed.scheme, SignatureScheme::Schnorr);
    assert_eq!(parsed.verify(), Err(VerifyError::UnsupportedScheme));
}

#[test]
fn parse_rejects_bad_public_key() {
    let mut wrapper = signed_wrapper();
    wrapper.public_key = vec![9, 9];
    assert_eq!(wrapper.parse().unwrap_err(), ParseError::PublicKey);
}

#[test]
fn parse_rejects_unknown_scheme() {
    let mut wrapper = signed_wrapper();
    wrapper.scheme = 9;
    assert_eq!(wrapper.parse().unwrap_err(), ParseError::UnsupportedScheme);
}

#[test]
fn parse_rejects_malformed_signature() {
    let mut wrapper = signed_wrapper();
    wrapper.signature = vec![1, 2, 3];
    assert_eq!(wrapper.parse().unwrap_err(), ParseError::Signature);
}

#[test]
fn parse_rejects_fraudulent_digest() {
    let mut wrapper = signed_wrapper();
    let mut digest = ring::digest::digest(&ring::digest::SHA256, &wrapper.payload)
        .as_ref()
        .to_vec();
    digest[0] ^= 1;
    wrapper.payload_digest = digest;
    assert_eq!(wrapper.parse().unwrap_err(), ParseError::FraudulentDigest);
}

#[test]
fn parse_rejects_missing_digest_and_payload() {
    let mut wrapper = signed_wrapper();
    wrapper.payload = Vec::new();
    wrapper.payload_digest = Vec::new();
    assert_eq!(
        wrapper.parse().unwrap_err(),
        ParseError::DigestAndPayloadMissing
    );
}

#[test]
fn parse_rejects_wrong_length_digest() {
    let mut wrapper = signed_wrapper();
    wrapper.payload_digest = vec![1, 2, 3];
    assert_eq!(
        wrapper.parse().unwrap_err(),
        ParseError::UnexpectedLengthDigest
    );
}

#[test]
fn network_names_round_trip() {
    assert_eq!(
        Network::try_from("mainnet".to_owned()),
        Ok(Network::Mainnet)
    );
    assert_eq!(
        Network::try_from("testnet".to_owned()),
        Ok(Network::Testnet)
    );
    assert_eq!(
        Network::try_from("regtest".to_owned()),
        Ok(Network::Regtest)
    );
    assert_eq!(
        Network::try_from("other".to_owned()),
        Err(UnexpectedNetwork)
    );
    assert_eq!(Network::Mainnet.to_string(), "mainnet");
    assert_eq!(Network::Testnet.to_string(), "testnet");
    assert_eq!(Network::Regtest.to_string(), "regtest");
}
