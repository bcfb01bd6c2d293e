use cashweb::bitcoin::bip32::{ChildNumber, DeriveError, ExtendedPrivateKey, ExtendedPublicKey};
use cashweb::keys::{PrivateKey, PublicKey};
use rand::RngCore;

fn random_private_key() -> PrivateKey {
    let mut rng = rand::thread_rng();
    loop {
        let mut bytes = [0u8; 32];
        rng.fill_bytes(&mut bytes);
        if let Some(key) = PrivateKey::from_slice(&bytes) {
            return key;
        }
    }
}

#[test]
fn child_derivation() {
    let private_key = random_private_key();
    let public_key = PublicKey::from_private_key(&private_key);
    let hd_private_key = ExtendedPrivateKey::new_master(private_key, [0; 32]);
    let hd_public_key = ExtendedPublicKey::new_master(public_key, [0; 32]);

    let new_hd_private_key = hd_private_key
        .derive_private_child(ChildNumber::Normal(32))
        .unwrap();
    let new_hd_public_key = hd_public_key
        .derive_public_child(ChildNumber::Normal(32))
        .unwrap();

    assert_eq!(
        PublicKey::from_private_key(&new_hd_private_key.into_private_key()),
        new_hd_public_key.into_public_key()
    );
}

#[test]
fn child_derivation_normal_path_a() {
    let path = [ChildNumber::Normal(32), ChildNumber::Normal(4)];

    let private_key = random_private_key();
    let public_key = PublicKey::from_private_key(&private_key);
    let hd_private_key = ExtendedPrivateKey::new_master(private_key, [0; 32]);
    let hd_public_key = ExtendedPublicKey::new_master(public_key, [0; 32]);

    let new_hd_private_key = hd_private_key.derive_private_path(&path).unwrap();
    let new_hd_public_key = hd_public_key.derive_public_path(&path).unwrap();

    assert_eq!(
        PublicKey::from_private_key(&new_hd_private_key.into_private_key()),
        new_hd_public_key.into_public_key()
    );
}

#[test]
fn child_derivation_normal_path_b() {
    let path = [
        ChildNumber::Normal(32),
        ChildNumber::Normal(4),
        ChildNumber::Normal(54),
    ];

    let private_key = random_private_key();
    let hd_private_key = ExtendedPrivateKey::new_master(private_key, [0; 32]);

    let hd_private_key_a = hd_private_key.derive_private_path(&path).unwrap();
    let hd_private_key_b = hd_private_key
        .derive_private_child(path[0])
        .unwrap()
        .derive_private_child(path[1])
        .unwrap()
        .derive_private_child(path[2])
        .unwrap();

    assert_eq!(hd_private_key_a, hd_private_key_b);
}

#[test]
fn hardened_derivation_rejected_for_public_keys() {
    let private_key = random_private_key();
    let public_key = PublicKey::from_private_key(&private_key);
    let hd_public_key = ExtendedPublicKey::new_master(public_key, [7; 32]);

    for index in [0u32, 1, 44, 0x7fffffff] {
        assert_eq!(
            hd_public_key.derive_public_child(ChildNumber::Hardened(index)),
            Err(DeriveError::HardenedDeriveError)
        );
    }
}

#[test]
fn hardened_child_matches_direct_hmac() {
    // Recompute one hardened derivation step with the hash and curve
    // libraries called directly, and compare against the library's result.
    let sk_bytes = [1u8; 32];
    let chain_code = [2u8; 32];
    let private_key = PrivateKey::from_slice(&sk_bytes).unwrap();
    let hd = ExtendedPrivateKey::new_master(private_key, chain_code);
    let child = hd.derive_private_child(ChildNumber::Hardened(5)).unwrap();

    let key = ring::hmac::Key::new(ring::hmac::HMAC_SHA512, &chain_code);
    let mut data = vec![0u8];
    data.extend_from_slice(&sk_bytes);
    data.extend_from_slice(&5u32.to_be_bytes());
    let tag = ring::hmac::sign(&key, &data);
    let mut expected_key = secp256k1::SecretKey::from_slice(&tag.as_ref()[..32]).unwrap();
    expected_key.add_assign(&sk_bytes).unwrap();

    let (child_key, child_chain_code) = child.into_parts();
    assert_eq!(child_key.as_bytes()[..], expected_key[..]);
    assert_eq!(child_chain_code[..], tag.as_ref()[32..]);
}

#[test]
fn normal_child_matches_direct_hmac() {
    let sk_bytes = [3u8; 32];
    let chain_code = [4u8; 32];
    let private_key = PrivateKey::from_slice(&sk_bytes).unwrap();
    let hd = ExtendedPrivateKey::new_master(private_key, chain_code);
    let child = hd.derive_private_child(ChildNumber::Normal(9)).unwrap();

    let secp = secp256k1::Secp256k1::new();
    let parent_secret = secp256k1::SecretKey::from_slice(&sk_bytes).unwrap();
    let parent_public = secp256k1::PublicKey::from_secret_key(&secp, &parent_secret);
    let key = ring::hmac::Key::new(ring::hmac::HMAC_SHA512, &chain_code);
    let mut data = parent_public.serialize().to_vec();
    data.extend_from_slice(&9u32.to_be_bytes());
    let tag = ring::hmac::sign(&key, &data);
    let mut expected_key = secp256k1::SecretKey::from_slice(&tag.as_ref()[..32]).unwrap();
    expected_key.add_assign(&sk_bytes).unwrap();

    let (child_key, child_chain_code) = child.into_parts();
    assert_eq!(child_key.as_bytes()[..], expected_key[..]);
    assert_eq!(child_chain_code[..], tag.as_ref()[32..]);
}

#[test]
fn empty_path_returns_master() {
    let private_key = random_private_key();
    let hd = ExtendedPrivateKey::new_master(private_key, [9; 32]);
    assert_eq!(hd.derive_private_path(&[]).unwrap(), hd);

    let public_key = PublicKey::from_private_key(&private_key);
    let hd_pub = ExtendedPublicKey::new_master(public_key, [9; 32]);
    assert_eq!(hd_pub.derive_public_path(&[]).unwrap(), hd_pub);
}

#[test]
fn child_number_construction() {
    assert_eq!(
        ChildNumber::from_normal_index(44),
        Ok(ChildNumber::Normal(44))
    );
    assert_eq!(
        ChildNumber::from_hardened_index(145),
        Ok(ChildNumber::Hardened(145))
    );
    assert!(ChildNumber::from_normal_index(0x80000000).is_err());
    assert!(ChildNumber::from_hardened_index(0xffffffff).is_err());
    assert_eq!(ChildNumber::from(7u32), ChildNumber::Normal(7));
    assert_eq!(
        ChildNumber::from(0x80000001u32),
        ChildNumber::Hardened(1)
    );
}
