use rusty_wallet::errors::WalletError;
use rusty_wallet::keypair::{generate, KeyPair};
use rusty_wallet::record::{decode, encode, WalletRecord};
use rusty_wallet::signer::{digest, sign, verify};
use rusty_wallet::store::{wallet_path, WalletStore};

/// The generator point G in uncompressed form, i.e. the public key whose
/// secret scalar is 1.
const G_HEX: &str = "0479be667ef9dcbbac55a06295ce870b07029bfcdb2dce28d959f2815b16f81798483ada7726a3c4655da4fbfc0e1108a8fd17b448a68554199c47d08ffb10d4b8";
const ONE_HEX: &str = "0000000000000000000000000000000000000000000000000000000000000001";

fn is_lower_hex(s: &str) -> bool {
    s.chars()
        .all(|c| c.is_ascii_digit() || ('a'..='f').contains(&c))
}

#[test]
fn generated_keypair_is_well_formed() {
    let kp = generate().unwrap();
    assert_eq!(kp.secret.len(), 32);
    assert_eq!(kp.public.len(), 65);
    assert_eq!(kp.public[0], 4);
    // the stored public half must decode back, which re-derives it from the
    // secret and cross-checks (public == secret * G)
    let rec = encode(&kp);
    let kp2 = decode(&rec).unwrap();
    assert_eq!(kp2.public, kp.public);
}

#[test]
fn encode_produces_lowercase_hex_of_expected_lengths() {
    let kp = generate().unwrap();
    let rec = encode(&kp);
    assert_eq!(rec.public_hex.len(), 130);
    assert_eq!(rec.secret_hex.len(), 64);
    assert!(rec.public_hex.starts_with("04"));
    assert!(is_lower_hex(&rec.public_hex));
    assert!(is_lower_hex(&rec.secret_hex));
    assert_eq!(rec.public_hex, hex::encode(&kp.public));
    assert_eq!(rec.secret_hex, hex::encode(&kp.secret));
}

#[test]
fn encode_decode_round_trip() {
    let kp = generate().unwrap();
    let kp2 = decode(&encode(&kp)).unwrap();
    assert_eq!(kp2.secret, kp.secret);
    assert_eq!(kp2.public, kp.public);
}

#[test]
fn decode_known_record_gives_generator_point() {
    let rec = WalletRecord {
        public_hex: String::from(G_HEX),
        secret_hex: String::from(ONE_HEX),
    };
    let kp = decode(&rec).unwrap();
    assert_eq!(kp.secret, hex::decode(ONE_HEX).unwrap());
    assert_eq!(kp.public, hex::decode(G_HEX).unwrap());
    // re-encoding reproduces the exact lowercase text
    let rec2 = encode(&kp);
    assert_eq!(rec2.public_hex, G_HEX);
    assert_eq!(rec2.secret_hex, ONE_HEX);
}

#[test]
fn decode_accepts_uppercase_hex() {
    let rec = WalletRecord {
        public_hex: G_HEX.to_uppercase(),
        secret_hex: ONE_HEX.to_uppercase(),
    };
    let kp = decode(&rec).unwrap();
    assert_eq!(kp.public, hex::decode(G_HEX).unwrap());
    // re-encoding normalises to lowercase
    assert_eq!(encode(&kp).public_hex, G_HEX);
}

#[test]
fn decode_rejects_odd_length_secret_hex() {
    let rec = WalletRecord {
        public_hex: String::from(G_HEX),
        secret_hex: String::from(&ONE_HEX[..63]),
    };
    // 63 characters cannot be hex-decoded at all (odd length)
    assert_eq!(decode(&rec).err(), Some(WalletError::InvalidEncoding));
}

#[test]
fn decode_rejects_31_byte_secret() {
    let rec = WalletRecord {
        public_hex: String::from(G_HEX),
        secret_hex: String::from(&ONE_HEX[..62]),
    };
    assert_eq!(decode(&rec).err(), Some(WalletError::InvalidSecretLength));
}

#[test]
fn decode_rejects_non_hex_characters() {
    let rec = WalletRecord {
        public_hex: String::from(G_HEX),
        secret_hex: format!("zz{}", &ONE_HEX[2..]),
    };
    assert_eq!(decode(&rec).err(), Some(WalletError::InvalidEncoding));
}

#[test]
fn decode_rejects_wrong_public_length() {
    let rec = WalletRecord {
        public_hex: String::from(&G_HEX[..128]),
        secret_hex: String::from(ONE_HEX),
    };
    assert_eq!(decode(&rec).err(), Some(WalletError::InvalidPublicLength));
}

#[test]
fn decode_rejects_wrong_public_tag() {
    let rec = WalletRecord {
        public_hex: format!("05{}", &G_HEX[2..]),
        secret_hex: String::from(ONE_HEX),
    };
    assert_eq!(decode(&rec).err(), Some(WalletError::InvalidPublicLength));
}

#[test]
fn decode_rejects_point_not_on_curve() {
    let rec = WalletRecord {
        public_hex: format!("04{}", "00".repeat(64)),
        secret_hex: String::from(ONE_HEX),
    };
    assert_eq!(decode(&rec).err(), Some(WalletError::PointNotOnCurve));
}

#[test]
fn decode_rejects_zero_secret() {
    let rec = WalletRecord {
        public_hex: String::from(G_HEX),
        secret_hex: "00".repeat(32),
    };
    assert_eq!(decode(&rec).err(), Some(WalletError::InvalidSecret));
}

#[test]
fn decode_rejects_tampered_public() {
    // a valid point that is not derived from the stored secret
    let other = generate().unwrap();
    let rec = WalletRecord {
        public_hex: hex::encode(&other.public),
        secret_hex: String::from(ONE_HEX),
    };
    assert_eq!(decode(&rec).err(), Some(WalletError::KeyMismatch));
}

#[test]
fn digest_matches_sha256_of_empty_input() {
    let d = digest(b"");
    assert_eq!(
        hex::encode(&d),
        "e3b0c44298fc1c149afbf4c8996fb92427ae41e4649b934ca495991b7852b855"
    );
}

#[test]
fn sign_is_deterministic() {
    let kp = generate().unwrap();
    let s1 = sign(&kp.secret, b"hello").unwrap();
    let s2 = sign(&kp.secret, b"hello").unwrap();
    assert_eq!(s1.len(), 64);
    assert_eq!(s1, s2);
}

#[test]
fn signature_verifies_under_derived_public() {
    let kp = generate().unwrap();
    let msg = b"a message to sign";
    let sig = sign(&kp.secret, msg).unwrap();
    let d = digest(msg);
    assert!(verify(&kp.public, &d, &sig));
}

#[test]
fn tampered_signature_does_not_verify() {
    let kp = generate().unwrap();
    let msg = b"a message to sign";
    let mut sig = sign(&kp.secret, msg).unwrap();
    sig[10] ^= 0xff;
    let d = digest(msg);
    assert!(!verify(&kp.public, &d, &sig));
}

#[test]
fn different_messages_give_different_signatures() {
    let kp = generate().unwrap();
    let s1 = sign(&kp.secret, b"first message").unwrap();
    let s2 = sign(&kp.secret, b"second message").unwrap();
    assert_ne!(s1, s2);
}

#[test]
fn sign_rejects_invalid_secret() {
    let zero = vec![0u8; 32];
    assert_eq!(sign(&zero, b"hello"), Err(WalletError::InvalidSecret));
    let short = vec![1u8; 31];
    assert_eq!(sign(&short, b"hello"), Err(WalletError::InvalidSecret));
}

#[test]
fn store_put_then_get_returns_the_record() {
    let kp = generate().unwrap();
    let rec = encode(&kp);
    let mut store = WalletStore::new();
    store.put(
        "alice",
        WalletRecord {
            public_hex: rec.public_hex.clone(),
            secret_hex: rec.secret_hex.clone(),
        },
    );
    let got = store.get("alice").unwrap();
    assert_eq!(got.public_hex, rec.public_hex);
    assert_eq!(got.secret_hex, rec.secret_hex);
    let kp2 = decode(&got).unwrap();
    assert_eq!(kp2.secret, kp.secret);
    assert_eq!(kp2.public, kp.public);
}

#[test]
fn store_get_missing_name_is_not_found() {
    let store = WalletStore::new();
    assert!(matches!(store.get("nobody"), Err(WalletError::NotFound)));
}

#[test]
fn store_list_on_empty_store_is_empty() {
    let store = WalletStore::new();
    assert!(store.list().is_empty());
}

#[test]
fn store_overwrite_is_last_write_wins() {
    let kp1 = generate().unwrap();
    let kp2 = generate().unwrap();
    let mut store = WalletStore::new();
    store.put("alice", encode(&kp1));
    store.put("alice", encode(&kp2));
    let got = store.get("alice").unwrap();
    assert_eq!(got.secret_hex, encode(&kp2).secret_hex);
    assert_eq!(store.list().len(), 1);
}

#[test]
fn store_lists_each_stored_name() {
    let mut store = WalletStore::new();
    store.put("alice", encode(&generate().unwrap()));
    store.put("bob", encode(&generate().unwrap()));
    let names = store.list();
    assert_eq!(names, vec!["alice".to_string(), "bob".to_string()]);
}

#[test]
fn rendered_document_matches_standard_pretty_json() {
    let rec = WalletRecord {
        public_hex: String::from(G_HEX),
        secret_hex: String::from(ONE_HEX),
    };
    let mut fields = serde_json::Map::new();
    fields.insert(
        "public".to_string(),
        serde_json::Value::String(G_HEX.to_string()),
    );
    fields.insert(
        "secret".to_string(),
        serde_json::Value::String(ONE_HEX.to_string()),
    );
    let expected = serde_json::to_string_pretty(&serde_json::Value::Object(fields)).unwrap();
    assert_eq!(rusty_wallet::record::render_document(&rec), expected);
}

#[test]
fn wallet_path_appends_name_and_suffix() {
    assert_eq!(wallet_path("alice"), "wallets/alice.json");
}

#[test]
fn end_to_end_create_show_sign() {
    // create wallet "alice"
    let kp = generate().unwrap();
    let mut store = WalletStore::new();
    store.put("alice", encode(&kp));

    // show "alice": a 130-character lowercase hex address starting with 04
    let rec = store.get("alice").unwrap();
    assert_eq!(rec.public_hex.len(), 130);
    assert!(rec.public_hex.starts_with("04"));
    assert!(is_lower_hex(&rec.public_hex));

    // sign "alice" "hello": a 128-character lowercase hex signature
    let loaded = decode(&rec).unwrap();
    let sig = sign(&loaded.secret, b"hello").unwrap();
    let sig_hex = hex::encode(&sig);
    assert_eq!(sig_hex.len(), 128);
    assert!(is_lower_hex(&sig_hex));

    // signing again yields the identical string
    let sig2 = sign(&loaded.secret, b"hello").unwrap();
    assert_eq!(hex::encode(&sig2), sig_hex);
}

#[test]
fn keypair_secret_is_a_valid_scalar() {
    // the curve order; every generated secret must be below it and nonzero
    let order =
        hex::decode("fffffffffffffffffffffffffffffffebaaedce6af48a03bbfd25e8cd0364141").unwrap();
    let kp: KeyPair = generate().unwrap();
    assert!(kp.secret.iter().any(|&b| b != 0));
    assert!(kp.secret < order);
}
