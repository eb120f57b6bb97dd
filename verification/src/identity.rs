//! The identity hasher, which hashes nothing: its digest is its input.
use crate::bytewise::{byte_order, compare, equal};
use crate::hasher::{joined, Digest, Error, Hasher, Transcript};
use crate::laws::{digest_after, lemma_feed_joined};
use core::cmp::Ordering;
use vstd::prelude::*;
use vstd::std_specs::cmp::{PartialEqSpecImpl, PartialOrdSpecImpl};
use vstd::std_specs::convert::FromSpecImpl;

verus! {

/// An identity digest of `N` bytes.
#[derive(Clone, Copy, Debug)]
pub struct IdentityDigest<const N: usize> {
    bytes: [u8; N],
}

impl<const N: usize> View for IdentityDigest<N> {
    type V = Seq<u8>;

    closed spec fn view(&self) -> Seq<u8> {
        self.bytes@
    }
}

impl<const N: usize> Digest for IdentityDigest<N> {
    open spec fn size() -> nat {
        N as nat
    }

    open spec fn bytes(&self) -> Seq<u8> {
        self@
    }

    proof fn lemma_size(&self) {
    }

    fn as_bytes(&self) -> (out: &[u8]) {
        self.bytes.as_slice()
    }
}

impl<const N: usize> AsRef<[u8]> for IdentityDigest<N> {
    fn as_ref(&self) -> (out: &[u8])
        ensures
            out@ == self@,
    {
        self.bytes.as_slice()
    }
}

impl<const N: usize> From<[u8; N]> for IdentityDigest<N> {
    fn from(bytes: [u8; N]) -> (digest: Self)
        ensures
            digest@ == bytes@,
    {
        IdentityDigest { bytes }
    }
}

impl<const N: usize> FromSpecImpl<[u8; N]> for IdentityDigest<N> {
    open spec fn obeys_from_spec() -> bool {
        true
    }

    closed spec fn from_spec(bytes: [u8; N]) -> Self {
        IdentityDigest { bytes }
    }
}

impl<const N: usize> From<IdentityDigest<N>> for [u8; N] {
    fn from(digest: IdentityDigest<N>) -> (bytes: Self)
        ensures
            bytes@ == digest@,
    {
        digest.bytes
    }
}

impl<const N: usize> FromSpecImpl<IdentityDigest<N>> for [u8; N] {
    open spec fn obeys_from_spec() -> bool {
        true
    }

    closed spec fn from_spec(digest: IdentityDigest<N>) -> Self {
        digest.bytes
    }
}

impl<const N: usize> Default for IdentityDigest<N> {
    /// The digest whose `N` bytes are all zero.
    fn default() -> (digest: Self)
        ensures
            digest@ == Seq::new(N as nat, |i: int| 0u8),
    {
        let digest = IdentityDigest { bytes: [0u8; N] };
        assert(digest@ =~= Seq::new(N as nat, |i: int| 0u8));
        digest
    }
}

impl<const N: usize> PartialEq for IdentityDigest<N> {
    fn eq(&self, other: &Self) -> (r: bool) {
        equal(&self.bytes, &other.bytes)
    }
}

impl<const N: usize> PartialEqSpecImpl for IdentityDigest<N> {
    open spec fn obeys_eq_spec() -> bool {
        true
    }

    open spec fn eq_spec(&self, other: &Self) -> bool {
        self@ == other@
    }
}

impl<const N: usize> Eq for IdentityDigest<N> {}

impl<const N: usize> PartialOrd for IdentityDigest<N> {
    fn partial_cmp(&self, other: &Self) -> (r: Option<Ordering>) {
        Some(compare(&self.bytes, &other.bytes))
    }
}

impl<const N: usize> PartialOrdSpecImpl for IdentityDigest<N> {
    open spec fn obeys_partial_cmp_spec() -> bool {
        true
    }

    open spec fn partial_cmp_spec(&self, other: &Self) -> Option<Ordering> {
        Some(byte_order(self@, other@))
    }
}

/// The bytes `data`, then zero bytes up to the length `n`.
pub open spec fn zero_padded(data: Seq<u8>, n: nat) -> Seq<u8> {
    Seq::new(
        n,
        |i: int|
            if i < data.len() {
                data[i]
            } else {
                0u8
            },
    )
}

/// The identity hasher: its digest is what it has taken in, followed by zero bytes up to `N` bytes.
/// It takes in `N` bytes at most.
pub struct IdentityHasher<const N: usize> {
    bytes: [u8; N],
    i: usize,
    started: Ghost<bool>,
}

/// The identity hasher of 256 bits.
pub type Identity256 = IdentityHasher<32>;

impl<const N: usize> IdentityHasher<N> {
    /// A hasher that has taken nothing in.
    pub fn new() -> (hasher: Self)
        ensures
            hasher.wf(),
            hasher.transcript() == Transcript::Fresh,
    {
        IdentityHasher { bytes: [0u8; N], i: 0, started: Ghost(false) }
    }
}

impl<const N: usize> Default for IdentityHasher<N> {
    fn default() -> (hasher: Self)
        ensures
            hasher.wf(),
            hasher.transcript() == Transcript::Fresh,
    {
        IdentityHasher::new()
    }
}

impl<const N: usize> Hasher for IdentityHasher<N> {
    type Digest = IdentityDigest<N>;

    closed spec fn wf(&self) -> bool {
        &&& self.i <= N
        &&& forall|j: int| self.i <= j < N ==> self.bytes@[j] == 0
        &&& !self.started@ ==> self.i == 0
    }

    closed spec fn transcript(&self) -> Transcript {
        if self.started@ {
            Transcript::Accumulating(self.bytes@.take(self.i as int))
        } else {
            Transcript::Fresh
        }
    }

    open spec fn capacity() -> Option<nat> {
        Some(N as nat)
    }

    open spec fn framed() -> bool {
        false
    }

    open spec fn digest_of(transcript: Transcript) -> Seq<u8> {
        zero_padded(transcript.bytes(), N as nat)
    }

    proof fn lemma_within_capacity(&self) {
    }

    proof fn lemma_bytes_decide(a: Transcript, b: Transcript) {
    }

    fn update(&mut self, input: &[u8]) -> (r: Result<(), Error>) {
        if input.len() > N - self.i {
            return Err(Error::CapacityExceeded);
        }
        let start = self.i;
        let mut k: usize = 0;
        while k < input.len()
            invariant
                k <= input.len(),
                start + input.len() <= N,
                self.i == start,
                self.started == old(self).started,
                self.bytes@.take(start as int) == old(self).bytes@.take(start as int),
                self.bytes@.subrange(start as int, start + k) == input@.take(k as int),
                forall|j: int| start + k <= j < N ==> self.bytes@[j] == 0,
            decreases input.len() - k,
        {
            let ghost before = self.bytes@;
            self.bytes[start + k] = input[k];
            assert(self.bytes@.take(start as int) =~= before.take(start as int));
            assert(self.bytes@.subrange(start as int, start + k + 1) =~= before.subrange(
                start as int,
                start + k,
            ).push(input@[k as int]));
            assert(input@.take(k + 1) =~= input@.take(k as int).push(input@[k as int]));
            k += 1;
        }
        self.i = start + input.len();
        self.started = Ghost(true);
        assert(input@.take(input@.len() as int) =~= input@);
        assert(self.bytes@.take(self.i as int) =~= old(self).bytes@.take(start as int) + input@);
        Ok(())
    }

    fn finalize(&self) -> (digest: IdentityDigest<N>) {
        assert(self.bytes@ =~= zero_padded(self.transcript().bytes(), N as nat));
        IdentityDigest::from(self.bytes)
    }

    fn reset(&mut self) {
        self.bytes = [0u8; N];
        self.i = 0;
        self.started = Ghost(false);
    }
}

/// Identity round trip: a fresh identity hasher of `N` bytes takes chunks in as long as they hold
/// `N` bytes or fewer in all, and its digest is then those bytes in their order, followed by zero
/// bytes where they are fewer than `N`. Chunks that hold more than `N` bytes in all are not all
/// taken in.
pub proof fn lemma_identity_round_trip<const N: usize>(chunks: Seq<Seq<u8>>)
    ensures
        joined(chunks).len() <= N ==> digest_after::<IdentityHasher<N>>(Transcript::Fresh, chunks)
            == Some(zero_padded(joined(chunks), N as nat)),
        joined(chunks).len() == N ==> digest_after::<IdentityHasher<N>>(Transcript::Fresh, chunks)
            == Some(joined(chunks)),
        joined(chunks).len() > N ==> digest_after::<IdentityHasher<N>>(Transcript::Fresh, chunks)
            is None,
{
    let all = joined(chunks);
    if chunks.len() > 0 {
        lemma_feed_joined(Transcript::Fresh, Some(N as nat), chunks);
        assert(Transcript::Fresh.absorb(all).bytes() =~= all);
    }
    if all.len() == N {
        assert(zero_padded(all, N as nat) =~= all);
    }
}

} // verus!
