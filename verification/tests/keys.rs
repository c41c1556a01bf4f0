use coset::iana::Algorithm;
use walletbase::{HMacTag, Key, KeyError};

fn hex(s: &str) -> [u8; 32] {
    let mut out = [0u8; 32];
    for i in 0..32 {
        out[i] = u8::from_str_radix(&s[2 * i..2 * i + 2], 16).unwrap();
    }
    out
}

#[test]
fn symmetric_key_round_trip() {
    let secret = [9u8; 32];
    let key = Key::sym_from(&secret, Algorithm::A256GCM, b"20230511");
    assert_eq!(Ok(secret), key.get_private());
    assert_eq!(Err(KeyError::UnsupportedKeyType), key.get_public());
    assert_eq!(Err(KeyError::UnsupportedKeyType), key.ed25519_public().map(|_| ()));
    assert_eq!(b"20230511".to_vec(), key.key_id());

    let bytes = key.duplicate().to_vec().unwrap();
    let back = Key::from_slice(&bytes).unwrap();
    assert_eq!(Ok(secret), back.get_private());
    assert_eq!(b"20230511".to_vec(), back.key_id());
    assert_eq!(Some(KeyError::Encoding), Key::from_slice(&[0xff, 0x00]).err());
    assert_eq!(Some(KeyError::Encoding), Key::from_slice(&[]).err());
    // The secret of a key can be the key of the wallet tags.
    let _ = HMacTag::new(back.get_private().unwrap());
}

#[test]
fn new_keys_are_random() {
    let a = Key::new_sym(Algorithm::Direct, b"").unwrap();
    let b = Key::new_sym(Algorithm::Direct, b"").unwrap();
    assert_ne!(a.get_private().unwrap(), b.get_private().unwrap());
    assert_ne!([0u8; 32], a.get_private().unwrap());
    assert!(a.key_id().is_empty());
    let c = Key::new_ed25519(b"me").unwrap();
    assert_eq!(32, c.get_private().unwrap().len());
    assert_eq!(Err(KeyError::MissingKey), c.get_public());
    assert_eq!(b"me".to_vec(), c.ed25519_public().unwrap().key_id());
}

#[test]
fn ed25519_public_key_of_a_known_secret() {
    let secret = hex("9d61b19deffd5a60ba844af492ec2cc44449c5697b326919703bac031cae7f60");
    let public = hex("d75a980182b10ab7d54bfed3c964073a0ee172f3daa62325af021a68f707511a");
    let pair = Key::ed25519_from(&secret, b"kid");
    assert_eq!(Ok(secret), pair.get_private());
    let key = pair.ed25519_public().unwrap();
    assert_eq!(Ok(public), key.get_public());
    assert_eq!(Err(KeyError::MissingKey), key.get_private());
    assert_eq!(b"kid".to_vec(), key.key_id());
}

#[test]
fn key_parts_must_be_32_byte_strings() {
    let short = coset::CoseKeyBuilder::new_symmetric_key(vec![1, 2, 3]).build();
    assert_eq!(Err(KeyError::InvalidKeyLength), Key(short).get_private());
    let odd = coset::CoseKeyBuilder::new_okp_key()
        .param(-4, ciborium::Value::Text("secret".to_string()))
        .build();
    assert_eq!(Err(KeyError::InvalidKeyType), Key(odd).get_private());
    let twice = coset::CoseKeyBuilder::new_okp_key()
        .param(-2, ciborium::Value::Bytes(vec![7u8; 32]))
        .param(-2, ciborium::Value::Bytes(vec![8u8; 31]))
        .build();
    assert_eq!(Ok([7u8; 32]), Key(twice.clone()).get_public());
    assert_eq!(Err(KeyError::Encoding), Key(twice).to_vec());
    let ec2 = coset::CoseKeyBuilder::new_ec2_pub_key(
        coset::iana::EllipticCurve::P_256,
        vec![1u8; 32],
        vec![2u8; 32],
    )
    .build();
    assert_eq!(Err(KeyError::UnsupportedKeyType), Key(ec2).get_private());
    assert_eq!(
        Err(KeyError::UnsupportedKeyType),
        Key(coset::CoseKey::default()).get_public()
    );
}
