use cashweb::bitcoin::bip32::{ChildNumber, ExtendedPublicKey};
use cashweb::bitcoin::outpoint::Outpoint;
use cashweb::bitcoin::script::Script;
use cashweb::bitcoin::input::Input;
use cashweb::bitcoin::output::Output;
use cashweb::bitcoin::transaction::Transaction;
use cashweb::keys::{PrivateKey, PublicKey};
use cashweb::relay::stamp::{Stamp, StampError, StampOutpoints};
use cashweb::bitcoin::outpoint::DecodeError as OutpointDecodeError;
use cashweb::bitcoin::Encodable;
use cashweb::relay::stamp::{create_stamp_private_keys, StampKeyError};
use cashweb::relay::{
    encrypt_payload, DigestError, Message, OpenError, ParseError, ParsedMessage,
};
use block_modes::BlockMode;
use ripemd160::Digest;

const SOURCE_SECRET: [u8; 32] = [0x11; 32];
const DEST_SECRET: [u8; 32] = [0x22; 32];
const PLAINTEXT: &[u8] = b"a known plaintext payload";
const SALT: &[u8] = b"salted";

fn sha256(data: &[u8]) -> [u8; 32] {
    let mut out = [0u8; 32];
    out.copy_from_slice(ring::digest::digest(&ring::digest::SHA256, data).as_ref());
    out
}

fn hash160(data: &[u8]) -> Vec<u8> {
    ripemd160::Ripemd160::digest(ring::digest::digest(&ring::digest::SHA256, data).as_ref())
        .to_vec()
}

fn p2pkh_script(hash: &[u8]) -> Vec<u8> {
    let mut script = vec![0x76u8, 0xa9, 0x14];
    script.extend_from_slice(hash);
    script.extend_from_slice(&[0x88, 0xac]);
    script
}

/// The address hash the stamp verifier expects for transaction `tx_num`,
/// output position `vout`, under the given digest and destination.
fn expected_stamp_hash(digest: &[u8; 32], dest: &PublicKey, tx_num: u32, vout: u32) -> Vec<u8> {
    let payload_secret = PrivateKey::from_slice(digest).unwrap();
    let payload_public = PublicKey::from_private_key(&payload_secret);
    let combined = dest.combine(&payload_public).unwrap();
    let master = ExtendedPublicKey::new_master(combined, *digest);
    let child = master
        .derive_public_path(&[ChildNumber::Normal(44), ChildNumber::Normal(145)])
        .unwrap()
        .derive_public_child(ChildNumber::Normal(tx_num))
        .unwrap()
        .derive_public_child(ChildNumber::Normal(vout))
        .unwrap();
    hash160(&child.into_public_key().serialize())
}

fn stamp_transaction(script_bytes: Vec<u8>) -> Vec<u8> {
    let tx = Transaction {
        version: 2,
        inputs: vec![Input {
            outpoint: Outpoint {
                tx_id: [0; 32],
                vout: 0,
            },
            script: Script::new(Vec::new()),
            sequence: 0xffffffff,
        }],
        outputs: vec![Output {
            value: 100_000,
            script: Script::new(script_bytes),
        }],
        lock_time: 0,
    };
    let mut raw = Vec::new();
    tx.encode_raw(&mut raw);
    raw
}

/// A full, openable message from the fixed sender to the fixed recipient.
fn valid_message() -> Message {
    let source_secret = PrivateKey::from_slice(&SOURCE_SECRET).unwrap();
    let source_public = PublicKey::from_private_key(&source_secret);
    let dest_secret = PrivateKey::from_slice(&DEST_SECRET).unwrap();
    let dest_public = PublicKey::from_private_key(&dest_secret);

    // The sender derives the shared key against the destination key.
    let shared_key =
        cashweb::relay::create_shared_key(dest_public, &SOURCE_SECRET, SALT).unwrap();
    let ciphertext = encrypt_payload(&shared_key, PLAINTEXT);
    let payload_digest = sha256(&ciphertext);
    let payload_hmac = {
        let key = ring::hmac::Key::new(ring::hmac::HMAC_SHA256, &shared_key);
        ring::hmac::sign(&key, &payload_digest).as_ref().to_vec()
    };

    let hash = expected_stamp_hash(&payload_digest, &dest_public, 0, 0);
    let stamp_tx = stamp_transaction(p2pkh_script(&hash));

    Message {
        source_public_key: source_public.serialize().to_vec(),
        destination_public_key: dest_public.serialize().to_vec(),
        received_time: 0,
        payload_digest: payload_digest.to_vec(),
        stamp: Some(Stamp {
            stamp_type: 1,
            stamp_outpoints: vec![StampOutpoints {
                stamp_tx,
                vouts: vec![0],
            }],
        }),
        scheme: 1,
        salt: SALT.to_vec(),
        payload_hmac,
        payload_size: PLAINTEXT.len() as u64,
        payload: ciphertext,
    }
}

#[test]
fn open_end_to_end() {
    let message = valid_message();
    let parsed = message.parse().unwrap();
    let opened = parsed.open(&DEST_SECRET).unwrap();
    assert_eq!(opened.payload.raw, PLAINTEXT.to_vec());
    assert_eq!(opened.txs.len(), 1);
}

#[test]
fn open_in_place_replaces_payload() {
    let message = valid_message();
    let mut parsed = message.parse().unwrap();
    let opened = parsed.open_in_place(&DEST_SECRET).unwrap();
    assert_eq!(opened.payload.raw, PLAINTEXT.to_vec());
    assert_eq!(parsed.payload, PLAINTEXT.to_vec());
}

#[test]
fn stamp_p2pkh_match() {
    let message = valid_message();
    let parsed = message.parse().unwrap();
    let txs = parsed.verify_stamp().unwrap();
    assert_eq!(txs.len(), 1);
    assert_eq!(txs[0].outputs.len(), 1);
}

#[test]
fn stamp_non_p2pkh_output() {
    let mut message = valid_message();
    let op_return = vec![0x6au8, 4, 1, 2, 3, 4];
    let stamp = message.stamp.as_mut().unwrap();
    stamp.stamp_outpoints[0].stamp_tx = stamp_transaction(op_return);
    let parsed = message.parse().unwrap();
    assert_eq!(parsed.verify_stamp(), Err(StampError::NotP2PKH));
}

#[test]
fn stamp_missing_vout() {
    let mut message = valid_message();
    let stamp = message.stamp.as_mut().unwrap();
    stamp.stamp_outpoints[0].vouts = vec![5];
    let parsed = message.parse().unwrap();
    assert_eq!(parsed.verify_stamp(), Err(StampError::MissingOutput));
}

#[test]
fn stamp_undecodable_transaction() {
    let mut message = valid_message();
    let stamp = message.stamp.as_mut().unwrap();
    stamp.stamp_outpoints[0].stamp_tx = vec![1, 2, 3];
    let parsed = message.parse().unwrap();
    assert!(matches!(
        parsed.verify_stamp(),
        Err(StampError::Decode(_))
    ));
}

#[test]
fn stamp_none_type_rejected() {
    let mut message = valid_message();
    message.stamp.as_mut().unwrap().stamp_type = 0;
    let parsed = message.parse().unwrap();
    assert_eq!(parsed.verify_stamp(), Err(StampError::NoneType));
}

#[test]
fn stamp_unknown_type_rejected() {
    let mut message = valid_message();
    message.stamp.as_mut().unwrap().stamp_type = 9;
    let parsed = message.parse().unwrap();
    assert_eq!(
        parsed.verify_stamp(),
        Err(StampError::UnsupportedStampType)
    );
}

#[test]
fn stamp_tamper_evidence() {
    // A valid stamp re-verified under a different digest or a different
    // destination no longer matches the committed addresses.
    let message = valid_message();
    let parsed = message.parse().unwrap();

    let mut other_digest = parsed.payload_digest;
    other_digest[0] ^= 1;
    let tampered_digest = ParsedMessage {
        payload_digest: other_digest,
        ..parsed.clone()
    };
    assert!(matches!(
        tampered_digest.verify_stamp(),
        Err(StampError::UnexpectedAddress(_, _))
    ));

    let other_secret = PrivateKey::from_slice(&[0x33; 32]).unwrap();
    let tampered_destination = ParsedMessage {
        destination_public_key: PublicKey::from_private_key(&other_secret),
        ..parsed
    };
    assert!(matches!(
        tampered_destination.verify_stamp(),
        Err(StampError::UnexpectedAddress(_, _))
    ));
}

#[test]
fn authenticate_before_decrypt() {
    // Corrupting the HMAC must surface as an authentication failure even
    // though the ciphertext is also replaced by bytes that could not
    // decrypt; authentication comes first.
    let message = valid_message();
    let mut parsed = message.parse().unwrap();
    parsed.payload_hmac[0] ^= 1;
    parsed.payload = vec![0xde, 0xad];
    assert!(matches!(
        parsed.open(&DEST_SECRET),
        Err(OpenError::Authentication)
    ));
}

#[test]
fn open_bad_ciphertext_fails_decrypt() {
    let message = valid_message();
    let mut parsed = message.parse().unwrap();
    // Keep the digest and HMAC consistent with the corrupt ciphertext so
    // that only decryption can fail.
    parsed.payload = vec![0xde, 0xad];
    parsed.payload_digest = sha256(&parsed.payload);
    let shared_key = parsed.create_shared_key(&DEST_SECRET, SALT).unwrap();
    let key = ring::hmac::Key::new(ring::hmac::HMAC_SHA256, &shared_key);
    let tag = ring::hmac::sign(&key, &parsed.payload_digest);
    parsed.payload_hmac.copy_from_slice(tag.as_ref());
    // The stamp no longer matches the new digest, so bypass it and check
    // the cipher stage directly.
    assert!(parsed.authenticate(&shared_key).is_ok());
    let hash = expected_stamp_hash(
        &parsed.payload_digest,
        &PublicKey::from_private_key(&PrivateKey::from_slice(&DEST_SECRET).unwrap()),
        0,
        0,
    );
    parsed.stamp.stamp_outpoints[0].stamp_tx = stamp_transaction(p2pkh_script(&hash));
    assert!(matches!(
        parsed.open(&DEST_SECRET),
        Err(OpenError::Decrypt)
    ));
}

#[test]
fn digest_round_trip() {
    let message = valid_message();
    // The digest field carries exactly the payload's digest: accepted.
    assert!(message.digest().is_ok());

    // One flipped bit in the digest: fraudulent.
    let mut tampered = message.clone();
    tampered.payload_digest[0] ^= 1;
    assert_eq!(tampered.digest(), Err(DigestError::FraudulentDigest));
    assert_eq!(
        tampered.parse().unwrap_err(),
        ParseError::Digest(DigestError::FraudulentDigest)
    );

    // An absent digest is recomputed from the payload.
    let mut absent = message.clone();
    absent.payload_digest = Vec::new();
    assert_eq!(absent.digest().unwrap().to_vec(), message.payload_digest);

    // A digest of the wrong width is rejected.
    let mut wrong_width = message;
    wrong_width.payload_digest = vec![1, 2, 3];
    assert_eq!(
        wrong_width.digest(),
        Err(DigestError::UnexpectedLengthDigest)
    );
}

#[test]
fn digest_and_payload_missing() {
    let mut message = valid_message();
    message.payload = Vec::new();
    message.payload_digest = Vec::new();
    assert_eq!(
        message.digest(),
        Err(DigestError::DigestAndPayloadMissing)
    );
}

#[test]
fn digest_only_message_accepted() {
    let mut message = valid_message();
    message.payload = Vec::new();
    let digest = message.payload_digest.clone();
    assert_eq!(message.digest().unwrap().to_vec(), digest);
}

#[test]
fn parse_error_variants() {
    let message = valid_message();

    let mut bad_source = message.clone();
    bad_source.source_public_key = vec![1, 2, 3];
    assert_eq!(bad_source.parse().unwrap_err(), ParseError::SourcePublicKey);

    let mut bad_dest = message.clone();
    bad_dest.destination_public_key = vec![];
    assert_eq!(
        bad_dest.parse().unwrap_err(),
        ParseError::DestinationPublicKey
    );

    let mut no_stamp = message.clone();
    no_stamp.stamp = None;
    assert_eq!(no_stamp.parse().unwrap_err(), ParseError::MissingStamp);

    let mut bad_scheme = message.clone();
    bad_scheme.scheme = 7;
    assert_eq!(
        bad_scheme.parse().unwrap_err(),
        ParseError::UnsupportedStampType
    );

    let mut bad_hmac = message;
    bad_hmac.payload_hmac = vec![1, 2];
    assert_eq!(
        bad_hmac.parse().unwrap_err(),
        ParseError::UnexpectedLengthPayloadHmac
    );
}

#[test]
fn parse_round_trip_into_message() {
    let message = valid_message();
    let parsed = message.clone().parse().unwrap();
    let rebuilt = parsed.into_message();
    assert_eq!(rebuilt, message);
}

#[test]
fn encrypt_payload_decrypts_with_cipher_library() {
    let shared_key = [0x42u8; 32];
    let ciphertext = encrypt_payload(&shared_key, PLAINTEXT);
    let cipher = block_modes::Cbc::<aes::Aes128, block_modes::block_padding::Pkcs7>::new_from_slices(
        &shared_key[..16],
        &shared_key[16..],
    )
    .unwrap();
    assert_eq!(cipher.decrypt_vec(&ciphertext).unwrap(), PLAINTEXT.to_vec());
}

#[test]
fn shared_key_is_symmetric() {
    let source_secret = PrivateKey::from_slice(&SOURCE_SECRET).unwrap();
    let source_public = PublicKey::from_private_key(&source_secret);
    let dest_secret = PrivateKey::from_slice(&DEST_SECRET).unwrap();
    let dest_public = PublicKey::from_private_key(&dest_secret);
    let sender_side =
        cashweb::relay::create_shared_key(dest_public, &SOURCE_SECRET, SALT).unwrap();
    let receiver_side =
        cashweb::relay::create_shared_key(source_public, &DEST_SECRET, SALT).unwrap();
    assert_eq!(sender_side, receiver_side);
}

#[test]
fn stamp_keys_match_derived_addresses() {
    // The sender-side private keys pay exactly the addresses the verifier
    // derives.
    let message = valid_message();
    let parsed = message.parse().unwrap();
    let dest_secret = PrivateKey::from_slice(&DEST_SECRET).unwrap();
    let keys = cashweb::relay::stamp::create_stamp_private_keys(
        dest_secret,
        &parsed.payload_digest,
        &[1],
    )
    .unwrap();
    assert_eq!(keys.len(), 1);
    assert_eq!(keys[0].len(), 1);
    let address = hash160(&PublicKey::from_private_key(&keys[0][0]).serialize());
    let expected = expected_stamp_hash(
        &parsed.payload_digest,
        &parsed.destination_public_key,
        0,
        0,
    );
    assert_eq!(address, expected);
}

#[test]
fn message_page_into_payload_page() {
    let message = valid_message();
    let payload = message.payload.clone();
    let page = cashweb::relay::MessagePage {
        messages: vec![message],
        start_time: 3,
        end_time: 9,
        start_digest: vec![1],
        end_digest: vec![2],
    };
    let payload_page = page.into_payload_page();
    assert_eq!(payload_page.start_time, 3);
    assert_eq!(payload_page.end_time, 9);
    assert_eq!(payload_page.payloads, vec![payload]);
}

#[test]
fn stamp_key_profile_overflow() {
    let secret = PrivateKey::from_slice(&DEST_SECRET).unwrap();
    assert_eq!(
        create_stamp_private_keys(secret, &[9u8; 32], &[0x80000001]),
        Err(StampKeyError::ChildNumberOverflow)
    );
}

#[test]
fn stamp_degenerate_combination() {
    // A destination key that is the exact negation of the payload digest's
    // public key makes the combined key the point at infinity.
    let mut message = valid_message();
    let digest: [u8; 32] = message.payload_digest.clone().try_into().unwrap();
    let payload_secret = secp256k1::SecretKey::from_slice(&digest).unwrap();
    let secp = secp256k1::Secp256k1::new();
    let mut negated = secp256k1::PublicKey::from_secret_key(&secp, &payload_secret);
    negated.negate_assign(&secp);
    message.destination_public_key = negated.serialize().to_vec();
    let parsed = message.parse().unwrap();
    assert_eq!(
        parsed.verify_stamp(),
        Err(StampError::DegenerateCombination)
    );
}

#[test]
fn outpoint_decode_too_short() {
    assert_eq!(Outpoint::decode(&[1, 2, 3]), Err(OutpointDecodeError));
}
