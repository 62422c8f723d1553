use ed25519_pkcs8::create_pkcs8;
use ed25519_pkcs8::from_pkcs8;

const PREFIX: [u8; 16] = [
    0x30, 0x53, 0x02, 0x01, 0x01, 0x30, 0x05, 0x06, 0x03, 0x2b, 0x65, 0x70, 0x04, 0x22, 0x04,
    0x20,
];

const MIDDLE: [u8; 5] = [0xa1, 0x23, 0x03, 0x21, 0x00];

fn example_container() -> (Vec<u8>, Vec<u8>, Vec<u8>) {
    let seed = vec![0x01u8; 32];
    let public_key = vec![0x02u8; 32];
    let container = create_pkcs8(&seed, &public_key);
    (seed, public_key, container)
}

#[test]
fn round_trip_example() {
    let (seed, public_key, container) = example_container();
    let (got_seed, got_public_key) = from_pkcs8(&container).unwrap();
    assert_eq!(got_seed, &seed[..]);
    assert_eq!(got_public_key, &public_key[..]);
}

#[test]
fn create_is_deterministic_and_byte_exact() {
    let (seed, public_key, container) = example_container();
    let again = create_pkcs8(&seed, &public_key);
    assert_eq!(container, again);
    let mut expected = Vec::new();
    expected.extend_from_slice(&PREFIX);
    expected.extend_from_slice(&seed);
    expected.extend_from_slice(&MIDDLE);
    expected.extend_from_slice(&public_key);
    assert_eq!(container, expected);
    assert_eq!(container.len(), ed25519_pkcs8::CONTAINER_LEN);
    assert_eq!(
        &container[ed25519_pkcs8::SEED_INDEX..ed25519_pkcs8::SEED_INDEX + ed25519_pkcs8::SEED_LEN],
        &seed[..]
    );
    assert_eq!(
        &container[ed25519_pkcs8::PUBLIC_KEY_INDEX
            ..ed25519_pkcs8::PUBLIC_KEY_INDEX + ed25519_pkcs8::PUBLIC_KEY_LEN],
        &public_key[..]
    );
}

#[test]
fn round_trip_varied_keys() {
    let seed: Vec<u8> = (0..32u8).collect();
    let public_key: Vec<u8> = (100..132u8).collect();
    let container = create_pkcs8(&seed, &public_key);
    let (got_seed, got_public_key) = from_pkcs8(&container).unwrap();
    assert_eq!(got_seed, &seed[..]);
    assert_eq!(got_public_key, &public_key[..]);
}

#[test]
fn wrong_lengths_rejected() {
    for len in [0usize, 1, 47, 48, 84, 86, 170] {
        let zeroes = vec![0u8; len];
        assert!(from_pkcs8(&zeroes).is_err(), "length {} accepted", len);
    }
    let (_, _, container) = example_container();
    let mut truncated = container.clone();
    truncated.pop();
    assert!(from_pkcs8(&truncated).is_err());
    let mut extended = container.clone();
    extended.push(0x00);
    assert!(from_pkcs8(&extended).is_err());
}

#[test]
fn empty_input_rejected() {
    assert!(from_pkcs8(&[]).is_err());
}

#[test]
fn alg_id_flips_rejected() {
    let (_, _, container) = example_container();
    for i in 7..12 {
        let mut bad = container.clone();
        bad[i] ^= 0x01;
        assert!(from_pkcs8(&bad).is_err(), "alg id byte {} accepted", i);
    }
}

#[test]
fn skeleton_flips_rejected() {
    let (_, _, container) = example_container();
    for i in 0..container.len() {
        if (16..48).contains(&i) || (53..85).contains(&i) {
            continue;
        }
        let mut bad = container.clone();
        bad[i] ^= 0x01;
        assert!(from_pkcs8(&bad).is_err(), "skeleton byte {} accepted", i);
    }
}

#[test]
fn splice_flips_tolerated() {
    let (seed, public_key, container) = example_container();
    for i in (16..48).chain(53..85) {
        let mut changed = container.clone();
        changed[i] ^= 0xff;
        let (got_seed, got_public_key) = from_pkcs8(&changed).unwrap();
        let mut expected_seed = seed.clone();
        let mut expected_public_key = public_key.clone();
        if i < 48 {
            expected_seed[i - 16] ^= 0xff;
        } else {
            expected_public_key[i - 53] ^= 0xff;
        }
        assert_eq!(got_seed, &expected_seed[..], "seed at byte {}", i);
        assert_eq!(got_public_key, &expected_public_key[..], "public key at byte {}", i);
    }
}

#[test]
fn v1_shaped_container_rejected() {
    // A well-formed version 0 container: no public-key suffix, version
    // INTEGER 0, outer lengths shortened accordingly.
    let mut v1 = vec![
        0x30, 0x2e, 0x02, 0x01, 0x00, 0x30, 0x05, 0x06, 0x03, 0x2b, 0x65, 0x70, 0x04, 0x22, 0x04,
        0x20,
    ];
    v1.extend_from_slice(&[0x01u8; 32]);
    assert_eq!(v1.len(), 48);
    assert!(from_pkcs8(&v1).is_err());
}

#[test]
fn rejection_value_is_the_invalid_encoding_error() {
    let err = from_pkcs8(&[0u8; 3]).unwrap_err();
    assert_eq!(err, ed25519_pkcs8::error::KeyRejected::invalid_encoding());
}
