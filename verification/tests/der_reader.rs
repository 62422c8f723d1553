use ed25519_pkcs8::der::expect_tag_and_get_value;
use ed25519_pkcs8::der::read_all_tag_and_get_value;
use ed25519_pkcs8::der::Tag;

#[test]
fn short_form_value_and_rest() {
    let input = [0x04, 0x03, 0x0a, 0x0b, 0x0c, 0x63, 0x64];
    let (value, rest) = expect_tag_and_get_value(&input, Tag::OctetString).unwrap();
    assert_eq!(value, &[0x0a, 0x0b, 0x0c]);
    assert_eq!(rest, &[0x63, 0x64]);
}

#[test]
fn empty_value() {
    let input = [0x04, 0x00];
    let (value, rest) = expect_tag_and_get_value(&input, Tag::OctetString).unwrap();
    assert_eq!(value, &[] as &[u8]);
    assert_eq!(rest, &[] as &[u8]);
}

#[test]
fn wrong_tag_rejected() {
    let input = [0x05, 0x01, 0xaa];
    assert!(expect_tag_and_get_value(&input, Tag::OctetString).is_err());
}

#[test]
fn truncated_input_rejected() {
    assert!(expect_tag_and_get_value(&[], Tag::OctetString).is_err());
    assert!(expect_tag_and_get_value(&[0x04], Tag::OctetString).is_err());
    assert!(expect_tag_and_get_value(&[0x04, 0x05, 0x01, 0x02], Tag::OctetString).is_err());
}

#[test]
fn long_form_one_byte_length() {
    let mut input = vec![0x04, 0x81, 0x80];
    input.extend_from_slice(&[0x07u8; 128]);
    let (value, rest) = expect_tag_and_get_value(&input, Tag::OctetString).unwrap();
    assert_eq!(value.len(), 128);
    assert!(value.iter().all(|&b| b == 0x07));
    assert!(rest.is_empty());
}

#[test]
fn non_minimal_one_byte_length_rejected() {
    // 5 fits in the short form, so 0x81 0x05 is not DER.
    let input = [0x04, 0x81, 0x05, 0x01, 0x02, 0x03, 0x04, 0x05];
    assert!(expect_tag_and_get_value(&input, Tag::OctetString).is_err());
}

#[test]
fn long_form_two_byte_length() {
    let mut input = vec![0x04, 0x82, 0x01, 0x00];
    input.extend_from_slice(&[0x09u8; 256]);
    input.push(0xee);
    let (value, rest) = expect_tag_and_get_value(&input, Tag::OctetString).unwrap();
    assert_eq!(value.len(), 256);
    assert_eq!(rest, &[0xee]);
}

#[test]
fn non_minimal_two_byte_length_rejected() {
    // 200 fits in the one-byte long form, so 0x82 0x00 0xc8 is not DER.
    let mut input = vec![0x04, 0x82, 0x00, 0xc8];
    input.extend_from_slice(&[0x00u8; 200]);
    assert!(expect_tag_and_get_value(&input, Tag::OctetString).is_err());
}

#[test]
fn unsupported_length_forms_rejected() {
    // Indefinite length.
    assert!(expect_tag_and_get_value(&[0x04, 0x80, 0x00, 0x00], Tag::OctetString).is_err());
    // Three length bytes.
    let mut input = vec![0x04, 0x83, 0x01, 0x00, 0x00];
    input.extend_from_slice(&[0x00u8; 65536]);
    assert!(expect_tag_and_get_value(&input, Tag::OctetString).is_err());
}

#[test]
fn read_all_accepts_exactly_one_element() {
    let input = [0x04, 0x02, 0xaa, 0xbb];
    let value = read_all_tag_and_get_value(&input, Tag::OctetString).unwrap();
    assert_eq!(value, &[0xaa, 0xbb]);
}

#[test]
fn read_all_rejects_trailing_bytes() {
    let input = [0x04, 0x01, 0xaa, 0xbb];
    assert!(read_all_tag_and_get_value(&input, Tag::OctetString).is_err());
}
