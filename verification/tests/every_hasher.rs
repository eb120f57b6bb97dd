use hashers::blake2b::{Blake2b256, Blake2b512};
use hashers::blake2s::{Blake2s128, Blake2s256};
use hashers::hasher::{Digest, Hasher};
use hashers::identity::Identity256;
use hashers::sha1::Sha1Hasher;
use hashers::sha2::{Sha2_256, Sha2_512};
use hashers::sha3::{
    Keccak224Hasher, Keccak256Hasher, Keccak384Hasher, Keccak512Hasher, Sha3_224Hasher,
    Sha3_256Hasher, Sha3_384Hasher, Sha3_512Hasher,
};
use hashers::strobe::{Strobe256, Strobe512};

fn bytes_after<H: Hasher>(hasher: &mut H, chunks: &[&[u8]]) -> Vec<u8> {
    for chunk in chunks {
        assert!(hasher.update(chunk).is_ok());
    }
    hasher.finalize().as_bytes().to_vec()
}

/// Runs one hasher type through its whole life: fresh, fed, read twice, fed again, reset.
fn life_of<H: Hasher>(make: fn() -> H, size: usize) {
    let empty = bytes_after(&mut make(), &[]);
    assert_eq!(empty.len(), size);

    let mut hasher = make();
    let one = bytes_after(&mut hasher, &[b"first "]);
    assert_eq!(one.len(), size);
    assert_ne!(one, empty);
    assert_eq!(hasher.finalize().as_bytes(), &one[..]);
    assert_eq!(hasher.finalize().as_bytes(), &one[..]);

    let two = bytes_after(&mut hasher, &[b"second"]);
    assert_ne!(two, one);
    assert_eq!(two, bytes_after(&mut make(), &[b"first second"]));
    assert_eq!(two, bytes_after(&mut make(), &[b"fir", b"st sec", b"ond"]));

    hasher.reset();
    assert_eq!(hasher.finalize().as_bytes(), &empty[..]);
    assert_eq!(bytes_after(&mut hasher, &[b"first "]), one);
    hasher.reset();
    hasher.reset();
    assert_eq!(bytes_after(&mut hasher, &[b"first ", b"second"]), two);
}

#[test]
fn life_of_sha1() {
    life_of(Sha1Hasher::new, 20);
}

#[test]
fn life_of_sha2_256() {
    life_of(Sha2_256::new, 32);
}

#[test]
fn life_of_sha2_512() {
    life_of(Sha2_512::new, 64);
}

#[test]
fn life_of_sha3_224() {
    life_of(Sha3_224Hasher::new, 28);
}

#[test]
fn life_of_sha3_256() {
    life_of(Sha3_256Hasher::new, 32);
}

#[test]
fn life_of_sha3_384() {
    life_of(Sha3_384Hasher::new, 48);
}

#[test]
fn life_of_sha3_512() {
    life_of(Sha3_512Hasher::new, 64);
}

#[test]
fn life_of_keccak224() {
    life_of(Keccak224Hasher::new, 28);
}

#[test]
fn life_of_keccak256() {
    life_of(Keccak256Hasher::new, 32);
}

#[test]
fn life_of_keccak384() {
    life_of(Keccak384Hasher::new, 48);
}

#[test]
fn life_of_keccak512() {
    life_of(Keccak512Hasher::new, 64);
}

#[test]
fn life_of_blake2b() {
    life_of(|| Blake2b256::new().unwrap(), 32);
    life_of(|| Blake2b512::new().unwrap(), 64);
}

#[test]
fn life_of_blake2s() {
    life_of(|| Blake2s128::new().unwrap(), 16);
    life_of(|| Blake2s256::new().unwrap(), 32);
}

#[test]
fn life_of_strobe() {
    life_of(Strobe256::new, 32);
    life_of(Strobe512::new, 64);
}

#[test]
fn life_of_identity() {
    life_of(Identity256::new, 32);
}

#[test]
fn default_hashers_are_fresh() {
    assert_eq!(Sha1Hasher::default().finalize(), Sha1Hasher::new().finalize());
    assert_eq!(Sha2_256::default().finalize(), Sha2_256::new().finalize());
    assert_eq!(Sha2_512::default().finalize(), Sha2_512::new().finalize());
    assert_eq!(Sha3_224Hasher::default().finalize(), Sha3_224Hasher::new().finalize());
    assert_eq!(Sha3_256Hasher::default().finalize(), Sha3_256Hasher::new().finalize());
    assert_eq!(Sha3_384Hasher::default().finalize(), Sha3_384Hasher::new().finalize());
    assert_eq!(Sha3_512Hasher::default().finalize(), Sha3_512Hasher::new().finalize());
    assert_eq!(Keccak224Hasher::default().finalize(), Keccak224Hasher::new().finalize());
    assert_eq!(Keccak256Hasher::default().finalize(), Keccak256Hasher::new().finalize());
    assert_eq!(Keccak384Hasher::default().finalize(), Keccak384Hasher::new().finalize());
    assert_eq!(Keccak512Hasher::default().finalize(), Keccak512Hasher::new().finalize());
    assert_eq!(Strobe256::default().finalize(), Strobe256::new().finalize());
    assert_eq!(Identity256::default().finalize(), Identity256::new().finalize());
}

#[test]
fn different_algorithms_give_different_digests() {
    let sha2 = bytes_after(&mut Sha2_256::new(), &[b"abc"]);
    let sha3 = bytes_after(&mut Sha3_256Hasher::new(), &[b"abc"]);
    let keccak = bytes_after(&mut Keccak256Hasher::new(), &[b"abc"]);
    let blake2b = bytes_after(&mut Blake2b256::new().unwrap(), &[b"abc"]);
    let blake2s = bytes_after(&mut Blake2s256::new().unwrap(), &[b"abc"]);
    let strobe = bytes_after(&mut Strobe256::new(), &[b"abc"]);
    let all = [sha2, sha3, keccak, blake2b, blake2s, strobe];
    for i in 0..all.len() {
        for j in 0..i {
            assert_ne!(all[i], all[j]);
        }
    }
}
