use hashers::hasher::{Digest, Error, Hasher};
use hashers::identity::{Identity256, IdentityDigest, IdentityHasher};

#[test]
fn identity_digest_of_nothing_is_all_zero() {
    let hasher = Identity256::new();
    assert_eq!(hasher.finalize().as_bytes(), &[0u8; 32][..]);
    assert_eq!(hasher.finalize(), IdentityDigest::<32>::default());
}

#[test]
fn identity_gives_back_what_fills_it() {
    let mut hasher = IdentityHasher::<8>::new();
    assert_eq!(hasher.update(&[1, 2, 3]), Ok(()));
    assert_eq!(hasher.update(&[]), Ok(()));
    assert_eq!(hasher.update(&[4, 5, 6, 7, 8]), Ok(()));
    assert_eq!(hasher.finalize().as_bytes(), &[1, 2, 3, 4, 5, 6, 7, 8][..]);
}

#[test]
fn identity_gives_back_32_bytes_in_one_chunk() {
    let input: Vec<u8> = (100u8..132).collect();
    let mut hasher = Identity256::default();
    assert_eq!(hasher.update(&input), Ok(()));
    assert_eq!(hasher.finalize().as_bytes(), &input[..]);
}

#[test]
fn identity_pads_short_input_with_zeros() {
    let mut hasher = IdentityHasher::<6>::new();
    assert_eq!(hasher.update(&[9, 8]), Ok(()));
    assert_eq!(hasher.finalize().as_bytes(), &[9, 8, 0, 0, 0, 0][..]);
    assert_eq!(hasher.update(&[7]), Ok(()));
    assert_eq!(hasher.finalize().as_bytes(), &[9, 8, 7, 0, 0, 0][..]);
}

#[test]
fn identity_refuses_what_does_not_fit() {
    let mut hasher = IdentityHasher::<4>::new();
    assert_eq!(hasher.update(&[1, 2, 3]), Ok(()));
    assert_eq!(hasher.update(&[4, 5]), Err(Error::CapacityExceeded));
    assert_eq!(hasher.finalize().as_bytes(), &[1, 2, 3, 0][..]);
    assert_eq!(hasher.update(&[4]), Ok(()));
    assert_eq!(hasher.finalize().as_bytes(), &[1, 2, 3, 4][..]);
    assert_eq!(hasher.update(&[5]), Err(Error::CapacityExceeded));
    assert_eq!(hasher.update(&[]), Ok(()));
    assert_eq!(hasher.finalize().as_bytes(), &[1, 2, 3, 4][..]);
}

#[test]
fn identity_refuses_a_chunk_longer_than_itself() {
    let mut hasher = IdentityHasher::<4>::new();
    assert_eq!(hasher.update(&[1, 2, 3, 4, 5]), Err(Error::CapacityExceeded));
    assert_eq!(hasher.finalize().as_bytes(), &[0, 0, 0, 0][..]);
    let mut hasher = Identity256::new();
    assert_eq!(hasher.update(&[1u8; 33]), Err(Error::CapacityExceeded));
    assert_eq!(hasher.update(&[1u8; 32]), Ok(()));
}

#[test]
fn identity_of_no_bytes_takes_only_empty_chunks() {
    let mut hasher = IdentityHasher::<0>::new();
    assert_eq!(hasher.update(&[]), Ok(()));
    assert_eq!(hasher.update(&[1]), Err(Error::CapacityExceeded));
    assert_eq!(hasher.finalize().as_bytes().len(), 0);
}

#[test]
fn identity_digest_does_not_depend_on_the_chunks() {
    let mut whole = IdentityHasher::<10>::new();
    assert_eq!(whole.update(b"0123456789"), Ok(()));
    let mut halves = IdentityHasher::<10>::new();
    assert_eq!(halves.update(b"01234"), Ok(()));
    assert_eq!(halves.update(b"56789"), Ok(()));
    assert_eq!(whole.finalize(), halves.finalize());
    let mut none = IdentityHasher::<10>::new();
    assert_eq!(none.update(b""), Ok(()));
    assert_eq!(none.finalize(), IdentityHasher::<10>::new().finalize());
}

#[test]
fn identity_reset_clears_bytes_and_cursor() {
    let mut hasher = IdentityHasher::<4>::new();
    assert_eq!(hasher.update(&[1, 2, 3, 4]), Ok(()));
    hasher.reset();
    assert_eq!(hasher.finalize().as_bytes(), &[0, 0, 0, 0][..]);
    assert_eq!(hasher.update(&[5, 6]), Ok(()));
    assert_eq!(hasher.finalize().as_bytes(), &[5, 6, 0, 0][..]);
    assert_eq!(hasher.update(&[7, 8]), Ok(()));
    assert_eq!(hasher.update(&[9]), Err(Error::CapacityExceeded));
    assert_eq!(hasher.finalize().as_bytes(), &[5, 6, 7, 8][..]);
}

#[test]
fn identity_finalize_leaves_the_hasher_as_it_was() {
    let mut hasher = IdentityHasher::<3>::new();
    assert_eq!(hasher.update(&[1]), Ok(()));
    let first = hasher.finalize();
    let second = hasher.finalize();
    assert_eq!(first, second);
    assert_eq!(hasher.update(&[2]), Ok(()));
    assert_ne!(hasher.finalize(), first);
    assert_eq!(hasher.finalize().as_bytes().len(), 3);
}
