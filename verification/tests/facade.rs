//! Behavioral tests of the hashing facade, cross-checked against the
//! BLAKE3 primitive where a reference value is available.

use blake3_xof::hasher::{create_derive, create_hasher, create_keyed, Blake3Hash, HashError, Mode};
use blake3_xof::oneshot::{hash, hash_xof};
use blake3_xof::DIGEST_LEN;

/// The published BLAKE3 digest of the empty input.
const EMPTY_DIGEST: [u8; 32] = [
    0xaf, 0x13, 0x49, 0xb9, 0xf5, 0xf9, 0xa1, 0xa6, 0xa0, 0x40, 0x4d, 0xea, 0x36, 0xdc, 0xc9,
    0x49, 0x9b, 0xcb, 0x25, 0xc9, 0xad, 0xc1, 0x12, 0xb7, 0xcc, 0x9a, 0x93, 0xca, 0xe4, 0x1f,
    0x32, 0x62,
];

#[test]
fn empty_plain_digest_matches_reference() {
    let hasher = Blake3Hash::new();
    let digest = hasher.digest_fixed();
    assert_eq!(digest.as_slice(), &EMPTY_DIGEST[..]);
    assert_eq!(digest.as_slice(), blake3::hash(b"").as_bytes());
}

#[test]
fn one_shot_hash_matches_primitive() {
    let data = b"some bytes to hash";
    let ours = hash(data);
    assert_eq!(ours.len(), DIGEST_LEN);
    assert_eq!(ours.as_slice(), blake3::hash(data).as_bytes());
}

#[test]
fn determinism_plain() {
    let data = b"determinism";
    assert_eq!(hash(data), hash(data));
    assert_eq!(hash_xof(data, 123), hash_xof(data, 123));
}

#[test]
fn determinism_keyed_and_derived() {
    let key = [7u8; 32];
    let h1 = create_keyed(&key).unwrap();
    let h2 = create_keyed(&key).unwrap();
    assert_eq!(h1.digest(64), h2.digest(64));

    let d1 = create_derive(String::from("ctx"));
    let d2 = create_derive(String::from("ctx"));
    assert_eq!(d1.digest_fixed(), d2.digest_fixed());
}

#[test]
fn extendable_output_prefix() {
    let data = b"prefix consistency";
    let long = hash_xof(data, 64);
    let short = hash_xof(data, 32);
    assert_eq!(&long[..32], short.as_slice());

    let mut hasher = Blake3Hash::new();
    hasher.update(data);
    assert_eq!(hasher.digest_fixed(), hasher.digest(32));
    assert_eq!(hasher.digest(0), Vec::<u8>::new());
}

#[test]
fn seek_and_split_fills_match_sequential() {
    // The 500-byte extendable output of "abc" in plain mode, read three ways.
    let mut hasher = Blake3Hash::new();
    hasher.update(b"abc");
    let base = hasher.digest(500);
    assert_eq!(base.len(), 500);

    let mut reader = hasher.reader();
    let first = reader.fill(32);
    let rest = reader.fill(468);
    assert_eq!(&base[..32], first.as_slice());
    assert_eq!(&base[32..], rest.as_slice());

    let mut seeker = hasher.reader();
    seeker.set_position(100);
    let window = seeker.fill(50);
    assert_eq!(&base[100..150], window.as_slice());
}

#[test]
fn fill_matches_primitive_reader() {
    let mut hasher = Blake3Hash::new();
    hasher.update(b"cross-check");
    let mut reader = hasher.reader();
    reader.set_position(1000);
    let ours = reader.fill(77);

    let mut primitive = blake3::Hasher::new();
    primitive.update(b"cross-check");
    let mut primitive_reader = primitive.finalize_xof();
    primitive_reader.set_position(1000);
    let mut expected = vec![0u8; 77];
    primitive_reader.fill(&mut expected);
    assert_eq!(ours, expected);
}

#[test]
fn update_associativity() {
    let mut split = Blake3Hash::new();
    split.update(b"hello ");
    split.update(b"world");
    let mut joined = Blake3Hash::new();
    joined.update(b"hello world");
    assert_eq!(split.digest_fixed(), joined.digest_fixed());
    assert_eq!(split.digest(100), joined.digest(100));
    assert_eq!(split.digest_fixed(), hash(b"hello world"));

    let mut with_empty = Blake3Hash::new();
    with_empty.update(b"");
    with_empty.update(b"hello world");
    with_empty.update(b"");
    assert_eq!(with_empty.digest_fixed(), joined.digest_fixed());
}

#[test]
fn key_sensitivity() {
    let k1 = [1u8; 32];
    let mut k2 = [1u8; 32];
    k2[31] = 2;
    let mut h1 = create_keyed(&k1).unwrap();
    let mut h2 = create_keyed(&k2).unwrap();
    h1.update(b"same message");
    h2.update(b"same message");
    assert_ne!(h1.digest_fixed(), h2.digest_fixed());

    // And the keyed digest is the primitive's keyed hash, not the plain one.
    assert_eq!(
        h1.digest_fixed().as_slice(),
        blake3::keyed_hash(&k1, b"same message").as_bytes()
    );
    assert_ne!(h1.digest_fixed(), hash(b"same message"));
}

#[test]
fn context_domain_separation() {
    let mut d1 = create_derive(String::from("app a 2024 session key"));
    let mut d2 = create_derive(String::from("app b 2024 session key"));
    d1.update(b"key material");
    d2.update(b"key material");
    assert_ne!(d1.digest_fixed(), d2.digest_fixed());

    // The empty context is a valid, distinct domain-separation label.
    let mut empty_ctx = create_derive(String::new());
    empty_ctx.update(b"key material");
    assert_ne!(empty_ctx.digest_fixed(), d1.digest_fixed());
    assert_ne!(empty_ctx.digest_fixed(), hash(b"key material"));

    // Cross-check against the primitive's own derivation hasher.
    let mut primitive = blake3::Hasher::new_derive_key("app a 2024 session key");
    primitive.update(b"key material");
    assert_eq!(d1.digest_fixed().as_slice(), primitive.finalize().as_bytes());
}

#[test]
fn invalid_key_length_rejected() {
    let short = [0u8; 31];
    let long = [0u8; 33];
    assert!(matches!(create_keyed(&short), Err(HashError::InvalidKeyLength)));
    assert!(matches!(create_keyed(&long), Err(HashError::InvalidKeyLength)));
    assert!(matches!(
        Blake3Hash::construct(Mode::Keyed(vec![0u8; 31])),
        Err(HashError::InvalidKeyLength)
    ));
    assert!(matches!(
        Blake3Hash::construct(Mode::Keyed(vec![0u8; 33])),
        Err(HashError::InvalidKeyLength)
    ));
    assert!(create_keyed(&[0u8; 32]).is_ok());
}

#[test]
fn construct_from_args_dispatch() {
    let plain = Blake3Hash::construct_from_args(None, None).unwrap();
    assert_eq!(plain.digest_fixed().as_slice(), &EMPTY_DIGEST[..]);

    let key = vec![9u8; 32];
    let keyed = Blake3Hash::construct_from_args(Some(key.clone()), None).unwrap();
    let mut key_array = [0u8; 32];
    key_array.copy_from_slice(&key);
    assert_eq!(
        keyed.digest_fixed().as_slice(),
        blake3::keyed_hash(&key_array, b"").as_bytes()
    );

    let derived = Blake3Hash::construct_from_args(None, Some(String::from("ctx"))).unwrap();
    let reference = blake3::Hasher::new_derive_key("ctx");
    assert_eq!(derived.digest_fixed().as_slice(), reference.finalize().as_bytes());

    assert!(matches!(
        Blake3Hash::construct_from_args(Some(vec![0u8; 31]), None),
        Err(HashError::InvalidKeyLength)
    ));
    assert!(matches!(
        Blake3Hash::construct_from_args(Some(vec![0u8; 32]), Some(String::from("ctx"))),
        Err(HashError::InvalidArgumentCount)
    ));
}

#[test]
fn digest_into_buffer() {
    let mut hasher = Blake3Hash::new();
    hasher.update(b"buffered");
    let mut out = vec![0u8; 48];
    assert_eq!(hasher.digest_into(&mut out, 48), Ok(()));
    assert_eq!(out, hasher.digest(48));

    let mut wrong = vec![0xEEu8; 4];
    assert_eq!(hasher.digest_into(&mut wrong, 48), Err(HashError::BufferLengthMismatch));
    assert_eq!(wrong, vec![0xEEu8; 4]);
}

#[test]
fn readers_are_independent() {
    let mut hasher = create_hasher();
    hasher.update(b"independent readers");
    let mut first = hasher.reader();
    let mut second = hasher.reader();
    second.set_position(4096);
    let from_start = first.fill(16);
    assert_eq!(from_start, hasher.digest(16));
    let far = second.fill(16);
    assert_eq!(far, {
        let mut r = hasher.reader();
        r.set_position(4096);
        r.fill(16)
    });
    assert_ne!(from_start, far);
}

#[test]
fn finalization_is_a_snapshot() {
    let mut hasher = Blake3Hash::new();
    hasher.update(b"first");
    let before = hasher.digest_fixed();
    let mut old_reader = hasher.reader();

    hasher.update(b" second");
    let after = hasher.digest_fixed();
    assert_ne!(before, after);
    assert_eq!(after.as_slice(), blake3::hash(b"first second").as_bytes());

    // The reader spawned before the update still reads the old stream.
    assert_eq!(old_reader.fill(32), before);
}

#[test]
fn cursor_position_tracking() {
    let mut hasher = Blake3Hash::new();
    hasher.update(b"cursor");
    let mut reader = hasher.reader();
    assert_eq!(reader.position(), 0);
    let head = reader.fill(10);
    assert_eq!(reader.position(), 10);
    reader.set_position(5);
    assert_eq!(reader.position(), 5);

    let checked = reader.fill_checked(5).unwrap();
    assert_eq!(reader.position(), 10);
    assert_eq!(checked.as_slice(), &head[5..10]);

    reader.set_position(u64::MAX);
    assert!(reader.fill_checked(1).is_none());
    assert_eq!(reader.position(), u64::MAX);
    assert_eq!(reader.fill_checked(0).unwrap(), Vec::<u8>::new());
}

#[test]
fn hash_xof_lengths() {
    let data = b"lengths";
    assert_eq!(hash_xof(data, 0), Vec::<u8>::new());
    let one = hash_xof(data, 1);
    let many = hash_xof(data, 100);
    assert_eq!(one.len(), 1);
    assert_eq!(many.len(), 100);
    assert_eq!(one[0], many[0]);
    assert_eq!(&many[..32], hash(data).as_slice());
}
