use secp256r1_curve::ecdsa::{derive_public_key, sign_message, SigningKey};
use secp256r1_curve::error::CryptoError;
use secp256r1_curve::identifier::{generate_base58_id, identifier_from_entropy};
use secp256r1_curve::report::{greeting, key_info, report_lines, KeyInfo};

fn key() -> SigningKey {
    let mut bytes = [0u8; 32];
    bytes[0] = 0;
    bytes[31] = 9;
    SigningKey::from_bytes(bytes).expect("a private scalar")
}

#[test]
fn identifier_of_known_bytes() {
    assert_eq!(
        identifier_from_entropy(Ok([0u8; 32])).unwrap(),
        "11111111111111111111111111111111"
    );
    let mut raw = [0u8; 32];
    raw[24..].copy_from_slice(&[0x04, 0x30, 0x5e, 0x2b, 0x24, 0x73, 0xf0, 0x58]);
    assert_eq!(
        identifier_from_entropy(Ok(raw)).unwrap(),
        "111111111111111111111111he11owor1d"
    );
    assert_eq!(
        identifier_from_entropy(Ok([0xff; 32])).unwrap(),
        "JEKNVnkbo3jma5nREBBJCDoXFVeKkD56V3xKrvRmWxFG"
    );
}

#[test]
fn identifier_without_entropy() {
    let r = identifier_from_entropy(Err(rand::Error::new("no entropy")));
    assert_eq!(r.err(), Some(CryptoError::RandomnessUnavailable));
}

#[test]
fn generated_identifier_is_32_bytes_in_base58() {
    let id = generate_base58_id().unwrap();
    let raw = bs58::decode(&id).into_vec().expect("Base58 text");
    assert_eq!(raw.len(), 32);
    assert_eq!(identifier_from_entropy(Ok(raw.try_into().unwrap())).unwrap(), id);
    assert_ne!(generate_base58_id().unwrap(), id);
}

#[test]
fn greeting_names_the_owner() {
    assert_eq!(greeting("Alice"), "Hello, Alice!");
    assert_eq!(greeting(""), "Hello, !");
}

#[test]
fn report_of_a_valid_signature() {
    let info = KeyInfo {
        signing_key: "sk".to_string(),
        verifying_key: "vk".to_string(),
        signature: Some("sig".to_string()),
        signature_valid: true,
    };
    assert_eq!(
        report_lines("Alice", &info),
        vec![
            "Alice's Signing Key: sk",
            "Alice's Verifying Key: vk",
            "Alice's Signature: sig",
            "Alice's Signature is valid!",
        ]
    );
}

#[test]
fn report_of_an_invalid_signature() {
    let info = KeyInfo {
        signing_key: "sk".to_string(),
        verifying_key: "vk".to_string(),
        signature: Some("sig".to_string()),
        signature_valid: false,
    };
    assert_eq!(
        report_lines("Bob", &info),
        vec![
            "Bob's Signing Key: sk",
            "Bob's Verifying Key: vk",
            "Bob's Signature: sig",
            "Bob's Signature is invalid!",
        ]
    );
}

#[test]
fn report_of_a_failed_signature() {
    let info = KeyInfo {
        signing_key: "sk".to_string(),
        verifying_key: "vk".to_string(),
        signature: None,
        signature_valid: false,
    };
    assert_eq!(
        report_lines("Bob", &info),
        vec![
            "Bob's Signing Key: sk",
            "Bob's Verifying Key: vk",
            "Bob's Signature generation failed!",
        ]
    );
}

#[test]
fn key_info_of_a_key() {
    let key = key();
    let info = key_info("Alice", &key);
    assert_eq!(info.signing_key, bs58::encode(key.to_bytes()).into_string());
    assert_eq!(
        info.verifying_key,
        bs58::encode(derive_public_key(&key).to_bytes()).into_string()
    );
    let signature = sign_message(&key, b"Hello, Alice!").unwrap();
    assert_eq!(info.signature, Some(bs58::encode(signature.to_bytes()).into_string()));
    assert!(info.signature_valid);
    assert_eq!(info.signing_key, "1111111111111111111111111111111A");
    let lines = report_lines("Alice", &info);
    assert_eq!(lines.len(), 4);
    assert_eq!(lines[3], "Alice's Signature is valid!");
}
