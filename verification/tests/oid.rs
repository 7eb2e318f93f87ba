use thesis_portal::models::oid::ObjectId;

const SAMPLE: &str = "507f1f77bcf86cd799439011";
const SAMPLE_BYTES: [u8; 12] = [0x50, 0x7f, 0x1f, 0x77, 0xbc, 0xf8, 0x6c, 0xd7, 0x99, 0x43, 0x90, 0x11];

#[test]
fn oid_parse_reads_two_digits_per_byte() {
    let id = ObjectId::parse_str(SAMPLE).expect("24 hexadecimal digits name an identifier");
    assert_eq!(id.bytes(), SAMPLE_BYTES);
}

#[test]
fn oid_parse_takes_both_cases() {
    let lower = ObjectId::parse_str("abcdefabcdefabcdefabcdef").unwrap();
    let upper = ObjectId::parse_str("ABCDEFABCDEFABCDEFABCDEF").unwrap();
    let mixed = ObjectId::parse_str("aBcDeFaBcDeFaBcDeFaBcDeF").unwrap();
    assert_eq!(lower, upper);
    assert_eq!(lower, mixed);
    assert_eq!(lower.bytes(), [0xab, 0xcd, 0xef, 0xab, 0xcd, 0xef, 0xab, 0xcd, 0xef, 0xab, 0xcd, 0xef]);
}

#[test]
fn oid_parse_refuses_other_lengths() {
    assert_eq!(ObjectId::parse_str(""), None);
    assert_eq!(ObjectId::parse_str("507f1f77bcf86cd79943901"), None);
    assert_eq!(ObjectId::parse_str("507f1f77bcf86cd7994390111"), None);
    assert_eq!(ObjectId::parse_str("507f1f77bcf86cd79943901100"), None);
}

#[test]
fn oid_parse_refuses_other_characters() {
    assert_eq!(ObjectId::parse_str("507f1f77bcf86cd79943901g"), None);
    assert_eq!(ObjectId::parse_str("507f1f77bcf86cd7 9439011"), None);
    assert_eq!(ObjectId::parse_str("0x7f1f77bcf86cd799439011"), None);
    // twelve two-byte characters are 24 bytes, yet no digits
    assert_eq!(ObjectId::parse_str("éééééééééééé"), None);
    // 24 characters, one of them not a digit
    assert_eq!(ObjectId::parse_str("507f1f77bcf86cd79943901é"), None);
}

#[test]
fn oid_to_hex_writes_lower_case() {
    let id = ObjectId::from_bytes([0xAB, 0xCD, 0xEF, 0x01, 0x23, 0x45, 0x67, 0x89, 0x00, 0xFF, 0x10, 0x0A]);
    assert_eq!(id.to_hex(), "abcdef012345678900ff100a");
}

#[test]
fn oid_hex_round_trip() {
    let id = ObjectId::from_bytes(SAMPLE_BYTES);
    assert_eq!(id.to_hex(), SAMPLE);
    assert_eq!(ObjectId::parse_str(&id.to_hex()), Some(id));
    let all = ObjectId::from_bytes([0xff; 12]);
    assert_eq!(ObjectId::parse_str(&all.to_hex()), Some(all));
    let none = ObjectId::from_bytes([0; 12]);
    assert_eq!(none.to_hex(), "000000000000000000000000");
    assert_eq!(ObjectId::parse_str(&none.to_hex()), Some(none));
}

#[test]
fn oid_equality_is_by_bytes() {
    let a = ObjectId::from_bytes(SAMPLE_BYTES);
    let b = ObjectId::parse_str(SAMPLE).unwrap();
    let mut other = SAMPLE_BYTES;
    other[11] = 0x12;
    let c = ObjectId::from_bytes(other);
    assert!(a == b);
    assert!(a != c);
}

#[test]
fn oid_agrees_with_bson() {
    let theirs = bson::oid::ObjectId::parse_str(SAMPLE).unwrap();
    let ours = ObjectId::parse_str(SAMPLE).unwrap();
    assert_eq!(ours.bytes(), theirs.bytes());
    assert_eq!(ours.to_hex(), theirs.to_hex());
}
