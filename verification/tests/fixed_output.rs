use hashers::hasher::{Digest, Hasher};
use hashers::sha1::Sha1Hasher;
use hashers::sha2::{Sha2_256, Sha2_512};
use hashers::sha3::{
    Keccak224Hasher, Keccak256Hasher, Keccak384Hasher, Keccak512Hasher, Sha3_224Hasher,
    Sha3_256Hasher, Sha3_384Hasher, Sha3_512Hasher,
};

fn hex(text: &str) -> Vec<u8> {
    let digits: Vec<u8> = text
        .bytes()
        .map(|c| match c {
            b'0'..=b'9' => c - b'0',
            b'a'..=b'f' => c - b'a' + 10,
            _ => panic!("not a hex digit"),
        })
        .collect();
    digits.chunks(2).map(|pair| pair[0] * 16 + pair[1]).collect()
}

fn digest_of<H: Hasher>(mut hasher: H, chunks: &[&[u8]]) -> Vec<u8> {
    for chunk in chunks {
        assert!(hasher.update(chunk).is_ok());
    }
    hasher.finalize().as_bytes().to_vec()
}

#[test]
fn sha1_known_digests() {
    assert_eq!(
        digest_of(Sha1Hasher::new(), &[]),
        hex("da39a3ee5e6b4b0d3255bfef95601890afd80709")
    );
    assert_eq!(
        digest_of(Sha1Hasher::new(), &[b"abc"]),
        hex("a9993e364706816aba3e25717850c26c9cd0d89d")
    );
}

#[test]
fn sha2_256_known_digests() {
    assert_eq!(
        digest_of(Sha2_256::new(), &[]),
        hex("e3b0c44298fc1c149afbf4c8996fb92427ae41e4649b934ca495991b7852b855")
    );
    assert_eq!(
        digest_of(Sha2_256::new(), &[b"abc"]),
        hex("ba7816bf8f01cfea414140de5dae2223b00361a396177a9cb410ff61f20015ad")
    );
}

#[test]
fn sha2_512_known_digests() {
    assert_eq!(
        digest_of(Sha2_512::new(), &[]),
        hex("cf83e1357eefb8bdf1542850d66d8007d620e4050b5715dc83f4a921d36ce9ce47d0d13c5d85f2b0ff8318d2877eec2f63b931bd47417a81a538327af927da3e")
    );
    assert_eq!(
        digest_of(Sha2_512::new(), &[b"abc"]),
        hex("ddaf35a193617abacc417349ae20413112e6fa4e89a97ea20a9eeee64b55d39a2192992a274fc1a836ba3c23a3feebbd454d4423643ce80e2a9ac94fa54ca49f")
    );
}

#[test]
fn sha3_224_known_digests() {
    assert_eq!(
        digest_of(Sha3_224Hasher::new(), &[]),
        hex("6b4e03423667dbb73b6e15454f0eb1abd4597f9a1b078e3f5b5a6bc7")
    );
    assert_eq!(
        digest_of(Sha3_224Hasher::new(), &[b"abc"]),
        hex("e642824c3f8cf24ad09234ee7d3c766fc9a3a5168d0c94ad73b46fdf")
    );
}

#[test]
fn sha3_256_known_digests() {
    assert_eq!(
        digest_of(Sha3_256Hasher::new(), &[]),
        hex("a7ffc6f8bf1ed76651c14756a061d662f580ff4de43b49fa82d80a4b80f8434a")
    );
    assert_eq!(
        digest_of(Sha3_256Hasher::new(), &[b"abc"]),
        hex("3a985da74fe225b2045c172d6bd390bd855f086e3e9d525b46bfe24511431532")
    );
}

#[test]
fn sha3_384_known_digests() {
    assert_eq!(
        digest_of(Sha3_384Hasher::new(), &[]),
        hex("0c63a75b845e4f7d01107d852e4c2485c51a50aaaa94fc61995e71bbee983a2ac3713831264adb47fb6bd1e058d5f004")
    );
    assert_eq!(
        digest_of(Sha3_384Hasher::new(), &[b"abc"]),
        hex("ec01498288516fc926459f58e2c6ad8df9b473cb0fc08c2596da7cf0e49be4b298d88cea927ac7f539f1edf228376d25")
    );
}

#[test]
fn sha3_512_known_digests() {
    assert_eq!(
        digest_of(Sha3_512Hasher::new(), &[]),
        hex("a69f73cca23a9ac5c8b567dc185a756e97c982164fe25859e0d1dcc1475c80a615b2123af1f5f94c11e3e9402c3ac558f500199d95b6d3e301758586281dcd26")
    );
    assert_eq!(
        digest_of(Sha3_512Hasher::new(), &[b"abc"]),
        hex("b751850b1a57168a5693cd924b6b096e08f621827444f70d884f5d0240d2712e10e116e9192af3c91a7ec57647e3934057340b4cf408d5a56592f8274eec53f0")
    );
}

#[test]
fn keccak224_known_digest() {
    assert_eq!(
        digest_of(Keccak224Hasher::new(), &[]),
        hex("f71837502ba8e10837bdd8d365adb85591895602fc552b48b7390abd")
    );
}

#[test]
fn keccak256_known_digests() {
    assert_eq!(
        digest_of(Keccak256Hasher::new(), &[]),
        hex("c5d2460186f7233c927e7db2dcc703c0e500b653ca82273b7bfad8045d85a470")
    );
    assert_eq!(
        digest_of(Keccak256Hasher::new(), &[b"abc"]),
        hex("4e03657aea45a94fc7d47ba826c8d667c0d1e6e33a64a036ec44f58fa12d6c45")
    );
}

#[test]
fn keccak384_known_digest() {
    assert_eq!(
        digest_of(Keccak384Hasher::new(), &[]),
        hex("2c23146a63a29acf99e73b88f8c24eaa7dc60aa771780ccc006afbfa8fe2479b2dd2b21362337441ac12b515911957ff")
    );
}

#[test]
fn keccak512_known_digest() {
    assert_eq!(
        digest_of(Keccak512Hasher::new(), &[]),
        hex("0eab42de4c3ceb9235fc91acffe746b29c29a8c366b7c60e4e67c466f36a4304c00fa9caf9d87976ba469bcbe06713b435f091ef2769fb160cdab33d3670680e")
    );
}

#[test]
fn fixed_output_digests_have_the_length_of_their_algorithm() {
    assert_eq!(digest_of(Sha1Hasher::new(), &[b"x"]).len(), 20);
    assert_eq!(digest_of(Sha2_256::new(), &[b"x"]).len(), 32);
    assert_eq!(digest_of(Sha2_512::new(), &[b"x"]).len(), 64);
    assert_eq!(digest_of(Sha3_224Hasher::new(), &[b"x"]).len(), 28);
    assert_eq!(digest_of(Sha3_256Hasher::new(), &[b"x"]).len(), 32);
    assert_eq!(digest_of(Sha3_384Hasher::new(), &[b"x"]).len(), 48);
    assert_eq!(digest_of(Sha3_512Hasher::new(), &[b"x"]).len(), 64);
    assert_eq!(digest_of(Keccak224Hasher::new(), &[]).len(), 28);
    assert_eq!(digest_of(Keccak256Hasher::new(), &[]).len(), 32);
    assert_eq!(digest_of(Keccak384Hasher::new(), &[]).len(), 48);
    assert_eq!(digest_of(Keccak512Hasher::new(), &[]).len(), 64);
}

#[test]
fn fixed_output_digest_does_not_depend_on_the_chunks() {
    let whole: &[u8] = b"0123456789";
    let halves: [&[u8]; 2] = [b"01234", b"56789"];
    let ragged: [&[u8]; 4] = [b"", b"0", b"12345678", b"9"];
    assert_eq!(digest_of(Sha1Hasher::new(), &[whole]), digest_of(Sha1Hasher::new(), &halves));
    assert_eq!(digest_of(Sha2_256::new(), &[whole]), digest_of(Sha2_256::new(), &halves));
    assert_eq!(digest_of(Sha2_256::new(), &[whole]), digest_of(Sha2_256::new(), &ragged));
    assert_eq!(digest_of(Sha2_512::new(), &[whole]), digest_of(Sha2_512::new(), &ragged));
    assert_eq!(
        digest_of(Sha3_256Hasher::new(), &[whole]),
        digest_of(Sha3_256Hasher::new(), &ragged)
    );
    assert_eq!(
        digest_of(Keccak512Hasher::new(), &[whole]),
        digest_of(Keccak512Hasher::new(), &halves)
    );
}

#[test]
fn fixed_output_digest_of_no_call_is_that_of_an_empty_call() {
    assert_eq!(digest_of(Sha2_256::new(), &[]), digest_of(Sha2_256::new(), &[b""]));
    assert_eq!(digest_of(Sha3_384Hasher::new(), &[]), digest_of(Sha3_384Hasher::new(), &[b"", b""]));
}

#[test]
fn fixed_output_digest_spans_block_boundaries() {
    let long = vec![0x61u8; 200];
    let mut hasher = Sha2_256::new();
    assert!(hasher.update(&long[..63]).is_ok());
    assert!(hasher.update(&long[63..130]).is_ok());
    assert!(hasher.update(&long[130..]).is_ok());
    assert_eq!(hasher.finalize().as_bytes(), &digest_of(Sha2_256::new(), &[&long])[..]);
    let mut hasher = Sha3_256Hasher::new();
    assert!(hasher.update(&long[..135]).is_ok());
    assert!(hasher.update(&long[135..]).is_ok());
    assert_eq!(hasher.finalize().as_bytes(), &digest_of(Sha3_256Hasher::new(), &[&long])[..]);
}

#[test]
fn fixed_output_reset_gives_a_hasher_as_new() {
    let mut hasher = Sha2_256::new();
    assert!(hasher.update(b"forget me").is_ok());
    hasher.reset();
    assert_eq!(hasher.finalize().as_bytes(), &digest_of(Sha2_256::new(), &[])[..]);
    assert!(hasher.update(b"abc").is_ok());
    assert_eq!(hasher.finalize().as_bytes(), &digest_of(Sha2_256::new(), &[b"abc"])[..]);

    let mut hasher = Sha1Hasher::default();
    assert!(hasher.update(b"forget me").is_ok());
    hasher.reset();
    assert!(hasher.update(b"abc").is_ok());
    assert_eq!(hasher.finalize().as_bytes(), &hex("a9993e364706816aba3e25717850c26c9cd0d89d")[..]);

    let mut hasher = Keccak256Hasher::default();
    assert!(hasher.update(b"forget me").is_ok());
    hasher.reset();
    assert_eq!(hasher.finalize().as_bytes(), &digest_of(Keccak256Hasher::new(), &[])[..]);
}

#[test]
fn fixed_output_finalize_leaves_the_hasher_as_it_was() {
    let mut hasher = Sha2_512::new();
    assert!(hasher.update(b"ab").is_ok());
    let first = hasher.finalize();
    let second = hasher.finalize();
    assert_eq!(first, second);
    assert!(hasher.update(b"c").is_ok());
    let third = hasher.finalize();
    assert_ne!(first, third);
    assert_eq!(third.as_bytes(), &digest_of(Sha2_512::new(), &[b"abc"])[..]);
}
