use hashers::blake2b::Blake2bDigest;
use hashers::blake2s::Blake2sDigest;
use hashers::bytewise::{compare, equal, first_mismatch};
use hashers::hasher::Digest;
use hashers::identity::IdentityDigest;
use hashers::sha1::Sha1Digest;
use hashers::sha2::Sha2Digest;
use hashers::sha3::{KeccakDigest, Sha3Digest};
use hashers::strobe::StrobeDigest;
use hashers::unknown::UnknownDigest;
use std::cmp::Ordering;

#[test]
fn digest_keeps_the_bytes_it_was_made_from() {
    let bytes = [1u8, 2, 3, 4];
    assert_eq!(Sha1Digest::from(bytes).as_bytes(), &bytes[..]);
    assert_eq!(Sha2Digest::from(bytes).as_bytes(), &bytes[..]);
    assert_eq!(Sha3Digest::from(bytes).as_bytes(), &bytes[..]);
    assert_eq!(KeccakDigest::from(bytes).as_bytes(), &bytes[..]);
    assert_eq!(Blake2bDigest::from(bytes).as_bytes(), &bytes[..]);
    assert_eq!(Blake2sDigest::from(bytes).as_bytes(), &bytes[..]);
    assert_eq!(IdentityDigest::from(bytes).as_bytes(), &bytes[..]);
    assert_eq!(StrobeDigest::from(bytes).as_bytes(), &bytes[..]);
    assert_eq!(UnknownDigest::from(bytes).as_bytes(), &bytes[..]);
}

#[test]
fn digest_turns_back_into_its_bytes() {
    let bytes = [9u8, 0, 7];
    let back: [u8; 3] = Sha2Digest::from(bytes).into();
    assert_eq!(back, bytes);
    let back: [u8; 3] = UnknownDigest::from(bytes).into();
    assert_eq!(back, bytes);
    let back: [u8; 3] = <[u8; 3]>::from(StrobeDigest::from(bytes));
    assert_eq!(back, bytes);
    let empty: [u8; 0] = Sha3Digest::from([]).into();
    assert_eq!(empty.len(), 0);
}

#[test]
fn digest_as_ref_is_its_bytes() {
    let bytes = [5u8, 6];
    let digest = UnknownDigest::from(bytes);
    let seen: &[u8] = digest.as_ref();
    assert_eq!(seen, &bytes[..]);
    let digest = Blake2bDigest::from(bytes);
    let seen: &[u8] = digest.as_ref();
    assert_eq!(seen, digest.as_bytes());
}

#[test]
fn digest_default_is_all_zero() {
    assert_eq!(UnknownDigest::<5>::default().as_bytes(), &[0u8; 5][..]);
    assert_eq!(Sha2Digest::<32>::default().as_bytes(), &[0u8; 32][..]);
    assert_eq!(KeccakDigest::<0>::default().as_bytes().len(), 0);
    assert_eq!(Sha1Digest::<20>::default(), Sha1Digest::from([0u8; 20]));
}

#[test]
fn digests_are_equal_where_all_bytes_are() {
    assert!(UnknownDigest::from([1u8, 2, 3]) == UnknownDigest::from([1u8, 2, 3]));
    assert!(UnknownDigest::from([1u8, 2, 3]) != UnknownDigest::from([1u8, 2, 4]));
    assert!(UnknownDigest::from([1u8, 2, 3]) != UnknownDigest::from([0u8, 2, 3]));
    assert!(Sha3Digest::<0>::from([]) == Sha3Digest::<0>::default());
    let digest = Blake2sDigest::from([8u8; 16]);
    let copy = digest;
    assert_eq!(digest, copy);
    assert_eq!(digest.clone(), copy);
}

#[test]
fn digests_are_ordered_by_their_first_difference() {
    let low = Sha2Digest::from([1u8, 2, 3]);
    let high = Sha2Digest::from([1u8, 3, 0]);
    assert!(low < high);
    assert!(high > low);
    assert!(low <= low);
    assert!(low >= low);
    assert_eq!(low.partial_cmp(&high), Some(Ordering::Less));
    assert_eq!(high.partial_cmp(&low), Some(Ordering::Greater));
    assert_eq!(low.partial_cmp(&low), Some(Ordering::Equal));
    assert!(IdentityDigest::from([0u8, 255]) < IdentityDigest::from([1u8, 0]));
    assert!(UnknownDigest::from([200u8]) > UnknownDigest::from([100u8]));
    assert_eq!(
        Sha1Digest::<0>::from([]).partial_cmp(&Sha1Digest::<0>::from([])),
        Some(Ordering::Equal)
    );
}

#[test]
fn bytewise_first_mismatch_finds_the_first_difference() {
    assert_eq!(first_mismatch(&[1u8, 2, 3, 4], &[1u8, 2, 3, 4]), 4);
    assert_eq!(first_mismatch(&[1u8, 2, 3, 4], &[1u8, 2, 9, 9]), 2);
    assert_eq!(first_mismatch(&[1u8, 2, 3, 4], &[0u8, 2, 3, 4]), 0);
    assert_eq!(first_mismatch(&[1u8, 2, 3, 4], &[1u8, 2, 3, 5]), 3);
    assert_eq!(first_mismatch::<0>(&[], &[]), 0);
}

#[test]
fn bytewise_equal_and_compare_agree() {
    assert!(equal(&[7u8, 7], &[7u8, 7]));
    assert!(!equal(&[7u8, 7], &[7u8, 8]));
    assert!(equal::<0>(&[], &[]));
    assert_eq!(compare(&[7u8, 7], &[7u8, 7]), Ordering::Equal);
    assert_eq!(compare(&[7u8, 7], &[7u8, 8]), Ordering::Less);
    assert_eq!(compare(&[8u8, 0], &[7u8, 255]), Ordering::Greater);
    assert_eq!(compare(&[0u8, 0, 1], &[0u8, 0, 0]), Ordering::Greater);
    assert_eq!(compare::<0>(&[], &[]), Ordering::Equal);
}
