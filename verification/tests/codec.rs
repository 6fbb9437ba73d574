use secp256r1_curve::codec::{decode_transaction, encode_transaction, Transaction};
use secp256r1_curve::error::CryptoError;
use secp256r1_curve::identifier::generate_base58_id;

fn record(id: &str, sender: &str, receiver: &str, amount: u64) -> Transaction {
    Transaction {
        id: id.to_string(),
        sender: sender.to_string(),
        receiver: receiver.to_string(),
        amount,
    }
}

fn sample_bytes() -> Vec<u8> {
    let mut expected: Vec<u8> = Vec::new();
    expected.extend_from_slice(&[3, 0, 0, 0, 0, 0, 0, 0]);
    expected.extend_from_slice(b"abc");
    expected.extend_from_slice(&[5, 0, 0, 0, 0, 0, 0, 0]);
    expected.extend_from_slice(b"Alice");
    expected.extend_from_slice(&[3, 0, 0, 0, 0, 0, 0, 0]);
    expected.extend_from_slice(b"Bob");
    expected.extend_from_slice(&[100, 0, 0, 0, 0, 0, 0, 0]);
    expected
}

#[test]
fn test_encode_transaction() {
    let transaction = Transaction {
        id: generate_base58_id().expect("the operating system has entropy"),
        sender: "Alice".to_string(),
        receiver: "Bob".to_string(),
        amount: 100,
    };
    let encoded_transaction = encode_transaction(&transaction);
    let decoded_fields: (String, String, String, u64) =
        bincode::deserialize(&encoded_transaction).unwrap();
    assert_eq!(transaction.sender, decoded_fields.1);
    assert_eq!(transaction.receiver, decoded_fields.2);
    assert_eq!(transaction.amount, decoded_fields.3);
    let decoded_transaction = decode_transaction(&encoded_transaction).unwrap();
    assert_eq!(transaction.id, decoded_transaction.id);
    assert_eq!(transaction.sender, decoded_transaction.sender);
    assert_eq!(transaction.receiver, decoded_transaction.receiver);
    assert_eq!(transaction.amount, decoded_transaction.amount);
}

#[test]
fn encoding_is_length_prefixed_little_endian() {
    let encoded = encode_transaction(&record("abc", "Alice", "Bob", 100));
    assert_eq!(encoded, sample_bytes());
    assert_eq!(encoded.len(), 43);
}

#[test]
fn encoding_of_the_largest_amount() {
    let encoded = encode_transaction(&record("", "", "", u64::MAX));
    let mut expected = vec![0u8; 24];
    expected.extend_from_slice(&[0xff; 8]);
    assert_eq!(encoded, expected);
    let amount = encode_transaction(&record("", "", "", 0x0102_0304_0506_0708));
    assert_eq!(&amount[24..], &[8, 7, 6, 5, 4, 3, 2, 1]);
}

#[test]
fn encoding_counts_bytes_not_characters() {
    let encoded = encode_transaction(&record("é", "", "", 0));
    assert_eq!(&encoded[..10], &[2, 0, 0, 0, 0, 0, 0, 0, 0xc3, 0xa9]);
}

#[test]
fn encoding_agrees_with_bincode() {
    let cases = [
        record("abc", "Alice", "Bob", 100),
        record("", "", "", 0),
        record("id-żółw", "发件人", "🙂", u64::MAX),
    ];
    for t in cases.iter() {
        let fields = (t.id.clone(), t.sender.clone(), t.receiver.clone(), t.amount);
        assert_eq!(encode_transaction(t), bincode::serialize(&fields).unwrap());
    }
}

#[test]
fn encoding_is_deterministic() {
    let a = record("abc", "Alice", "Bob", 100);
    let b = record("abc", "Alice", "Bob", 100);
    assert_eq!(encode_transaction(&a), encode_transaction(&a));
    assert_eq!(encode_transaction(&a), encode_transaction(&b));
}

#[test]
fn a_change_in_any_field_changes_the_encoding() {
    let base = encode_transaction(&record("abc", "Alice", "Bob", 100));
    assert_ne!(base, encode_transaction(&record("abd", "Alice", "Bob", 100)));
    assert_ne!(base, encode_transaction(&record("abc", "Alicf", "Bob", 100)));
    assert_ne!(base, encode_transaction(&record("abc", "Alice", "Bop", 100)));
    assert_ne!(base, encode_transaction(&record("abc", "Alice", "Bob", 200)));
}

#[test]
fn text_moved_across_a_field_boundary_changes_the_encoding() {
    let a = encode_transaction(&record("x", "ab", "c", 1));
    let b = encode_transaction(&record("x", "a", "bc", 1));
    let c = encode_transaction(&record("xa", "b", "c", 1));
    assert_ne!(a, b);
    assert_ne!(a, c);
    assert_ne!(b, c);
    assert_eq!(a.len(), b.len());
}

#[test]
fn decoding_inverts_encoding() {
    let cases = [
        record("abc", "Alice", "Bob", 100),
        record("", "", "", 0),
        record("", "only sender", "", 1),
        record("id-żółw", "发件人", "🙂", u64::MAX),
        record("a\u{0}b", "line\nbreak", "tab\t", 1 << 63),
    ];
    for t in cases.iter() {
        let decoded = decode_transaction(&encode_transaction(t)).expect("an encoding decodes");
        assert_eq!(&decoded, t);
        assert_eq!(encode_transaction(&decoded), encode_transaction(t));
    }
}

#[test]
fn decoding_the_sample_bytes() {
    let decoded = decode_transaction(&sample_bytes()).unwrap();
    assert_eq!(decoded, record("abc", "Alice", "Bob", 100));
}

#[test]
fn decoding_refuses_every_truncation() {
    let encoded = sample_bytes();
    for cut in 0..encoded.len() {
        let r = decode_transaction(&encoded[..cut]);
        assert_eq!(r.err(), Some(CryptoError::DecodeFailure));
    }
}

#[test]
fn decoding_refuses_bytes_after_the_amount() {
    let mut encoded = sample_bytes();
    encoded.push(0);
    assert_eq!(decode_transaction(&encoded).err(), Some(CryptoError::DecodeFailure));
}

#[test]
fn decoding_refuses_text_that_is_not_utf8() {
    let mut encoded = sample_bytes();
    encoded[8] = 0xff;
    assert_eq!(decode_transaction(&encoded).err(), Some(CryptoError::DecodeFailure));
    let mut split = encode_transaction(&record("é", "", "", 0));
    split[0] = 1;
    split.remove(9);
    assert_eq!(decode_transaction(&split).err(), Some(CryptoError::DecodeFailure));
}

#[test]
fn decoding_refuses_a_length_beyond_the_input() {
    let mut encoded = sample_bytes();
    for byte in encoded.iter_mut().take(8) {
        *byte = 0xff;
    }
    assert_eq!(decode_transaction(&encoded).err(), Some(CryptoError::DecodeFailure));
    let mut long = sample_bytes();
    long[0] = 36;
    assert_eq!(decode_transaction(&long).err(), Some(CryptoError::DecodeFailure));
}

#[test]
fn decoding_refuses_the_empty_input() {
    assert_eq!(decode_transaction(&[]).err(), Some(CryptoError::DecodeFailure));
}

#[test]
fn transactions_are_equal_where_every_field_is() {
    let base = record("abc", "Alice", "Bob", 100);
    assert!(base == record("abc", "Alice", "Bob", 100));
    assert!(base == base.clone());
    assert!(base != record("abd", "Alice", "Bob", 100));
    assert!(base != record("abc", "Alicf", "Bob", 100));
    assert!(base != record("abc", "Alice", "Bop", 100));
    assert!(base != record("abc", "Alice", "Bob", 101));
}

#[test]
fn error_messages() {
    assert_eq!(CryptoError::RandomnessUnavailable.message(), "randomness unavailable");
    assert_eq!(CryptoError::SigningFailure.message(), "signature failed");
    assert_eq!(CryptoError::VerificationFailure.message(), "Invalid signature");
    assert_eq!(CryptoError::DecodeFailure.message(), "malformed transaction bytes");
}
