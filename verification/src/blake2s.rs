//! The BLAKE2s hashers, over the `blake2s_simd` crate.
use crate::bytewise::{byte_order, compare, equal};
use crate::hasher::{Digest, Error, Hasher, Transcript};
use core::cmp::Ordering;
use vstd::prelude::*;
use vstd::std_specs::cmp::{PartialEqSpecImpl, PartialOrdSpecImpl};
use vstd::std_specs::convert::FromSpecImpl;

verus! {

/// A BLAKE2s digest of `N` bytes.
#[derive(Clone, Copy, Debug)]
pub struct Blake2sDigest<const N: usize> {
    bytes: [u8; N],
}

impl<const N: usize> View for Blake2sDigest<N> {
    type V = Seq<u8>;

    closed spec fn view(&self) -> Seq<u8> {
        self.bytes@
    }
}

impl<const N: usize> Digest for Blake2sDigest<N> {
    open spec fn size() -> nat {
        N as nat
    }

    open spec fn bytes(&self) -> Seq<u8> {
        self@
    }

    proof fn lemma_size(&self) {
    }

    fn as_bytes(&self) -> (out: &[u8]) {
        self.bytes.as_slice()
    }
}

impl<const N: usize> AsRef<[u8]> for Blake2sDigest<N> {
    fn as_ref(&self) -> (out: &[u8])
        ensures
            out@ == self@,
    {
        self.bytes.as_slice()
    }
}

impl<const N: usize> From<[u8; N]> for Blake2sDigest<N> {
    fn from(bytes: [u8; N]) -> (digest: Self)
        ensures
            digest@ == bytes@,
    {
        Blake2sDigest { bytes }
    }
}

impl<const N: usize> FromSpecImpl<[u8; N]> for Blake2sDigest<N> {
    open spec fn obeys_from_spec() -> bool {
        true
    }

    closed spec fn from_spec(bytes: [u8; N]) -> Self {
        Blake2sDigest { bytes }
    }
}

impl<const N: usize> From<Blake2sDigest<N>> for [u8; N] {
    fn from(digest: Blake2sDigest<N>) -> (bytes: Self)
        ensures
            bytes@ == digest@,
    {
        digest.bytes
    }
}

impl<const N: usize> FromSpecImpl<Blake2sDigest<N>> for [u8; N] {
    open spec fn obeys_from_spec() -> bool {
        true
    }

    closed spec fn from_spec(digest: Blake2sDigest<N>) -> Self {
        digest.bytes
    }
}

impl<const N: usize> Default for Blake2sDigest<N> {
    /// The digest whose `N` bytes are all zero.
    fn default() -> (digest: Self)
        ensures
            digest@ == Seq::new(N as nat, |i: int| 0u8),
    {
        let digest = Blake2sDigest { bytes: [0u8; N] };
        assert(digest@ =~= Seq::new(N as nat, |i: int| 0u8));
        digest
    }
}

impl<const N: usize> PartialEq for Blake2sDigest<N> {
    fn eq(&self, other: &Self) -> (r: bool) {
        equal(&self.bytes, &other.bytes)
    }
}

impl<const N: usize> PartialEqSpecImpl for Blake2sDigest<N> {
    open spec fn obeys_eq_spec() -> bool {
        true
    }

    open spec fn eq_spec(&self, other: &Self) -> bool {
        self@ == other@
    }
}

impl<const N: usize> Eq for Blake2sDigest<N> {}

impl<const N: usize> PartialOrd for Blake2sDigest<N> {
    fn partial_cmp(&self, other: &Self) -> (r: Option<Ordering>) {
        Some(compare(&self.bytes, &other.bytes))
    }
}

impl<const N: usize> PartialOrdSpecImpl for Blake2sDigest<N> {
    open spec fn obeys_partial_cmp_spec() -> bool {
        true
    }

    open spec fn partial_cmp_spec(&self, other: &Self) -> Option<Ordering> {
        Some(byte_order(self@, other@))
    }
}

/// The running state of BLAKE2s in the `blake2s_simd` crate. Nothing here looks inside it.
#[verifier::external_type_specification]
#[verifier::external_body]
pub struct ExBlake2sState(::blake2s_simd::State);

/// The bytes that a `blake2s_simd::State` has taken in since it was made.
pub uninterp spec fn blake2s_absorbed(state: ::blake2s_simd::State) -> Seq<u8>;

/// The digest length, in bytes, that a `blake2s_simd::State` was made with.
pub uninterp spec fn blake2s_length(state: ::blake2s_simd::State) -> nat;

/// The bytes that `blake2s_simd::State::finalize` gives for a state that was made with the digest
/// length `length` and has taken in `data`.
pub uninterp spec fn blake2s_digest(length: nat, data: Seq<u8>) -> Seq<u8>;

/// The longest digest that BLAKE2s gives, in bytes.
pub const BLAKE2S_MAX_LENGTH: usize = 32;

/// `blake2s_simd::Params::to_state`, on the parameters that `Params::new` gives once `hash_length`
/// has set their digest length to `length`: a state of that digest length that has taken nothing
/// in. `hash_length` panics on a length that is not from 1 to 32: `requires` leaves those out.
#[verifier::external_body]
fn blake2s_with_length(length: usize) -> (state: ::blake2s_simd::State)
    requires
        1 <= length <= BLAKE2S_MAX_LENGTH,
    ensures
        blake2s_absorbed(state) == Seq::<u8>::empty(),
        blake2s_length(state) == length,
{
    ::blake2s_simd::Params::new().hash_length(length).to_state()
}

/// `blake2s_simd::State::update`: the state has then taken in `input` after what it had taken in
/// before, and keeps its digest length.
#[verifier::external_body]
fn blake2s_update(state: &mut ::blake2s_simd::State, input: &[u8])
    ensures
        blake2s_absorbed(*final(state)) == blake2s_absorbed(*old(state)) + input@,
        blake2s_length(*final(state)) == blake2s_length(*old(state)),
{
    state.update(input);
}

/// `blake2s_simd::State::finalize`, read by `Hash::as_bytes`: the digest of what the state has
/// taken in, of the length that the state was made with. The state itself is not touched.
#[verifier::external_body]
fn blake2s_finalize<const N: usize>(state: &::blake2s_simd::State) -> (out: [u8; N])
    requires
        blake2s_length(*state) == N,
    ensures
        out@ == blake2s_digest(N as nat, blake2s_absorbed(*state)),
{
    let mut out = [0u8; N];
    out.copy_from_slice(state.finalize().as_bytes());
    out
}

/// The BLAKE2s hasher that gives digests of `N` bytes.
pub struct Blake2sHasher<const N: usize> {
    state: ::blake2s_simd::State,
    transcript: Ghost<Transcript>,
}

/// The BLAKE2s hasher of 128 bits.
pub type Blake2s128 = Blake2sHasher<16>;

/// The BLAKE2s hasher of 256 bits.
pub type Blake2s256 = Blake2sHasher<32>;

impl<const N: usize> Blake2sHasher<N> {
    /// A hasher that has taken nothing in, where BLAKE2s has digests of `N` bytes: where `N` is
    /// from 1 to 32.
    pub fn new() -> (r: Result<Self, Error>)
        ensures
            r is Ok <==> 1 <= N <= BLAKE2S_MAX_LENGTH,
            r matches Ok(hasher) ==> hasher.wf() && hasher.transcript() == Transcript::Fresh,
            r matches Err(e) ==> e == Error::UnsupportedLength,
    {
        if N < 1 || N > BLAKE2S_MAX_LENGTH {
            return Err(Error::UnsupportedLength);
        }
        Ok(Blake2sHasher { state: blake2s_with_length(N), transcript: Ghost(Transcript::Fresh) })
    }
}

impl<const N: usize> Hasher for Blake2sHasher<N> {
    type Digest = Blake2sDigest<N>;

    closed spec fn wf(&self) -> bool {
        &&& 1 <= N <= BLAKE2S_MAX_LENGTH
        &&& blake2s_length(self.state) == N
        &&& self.transcript@.bytes() == blake2s_absorbed(self.state)
    }

    closed spec fn transcript(&self) -> Transcript {
        self.transcript@
    }

    open spec fn capacity() -> Option<nat> {
        None
    }

    open spec fn framed() -> bool {
        false
    }

    open spec fn digest_of(transcript: Transcript) -> Seq<u8> {
        blake2s_digest(N as nat, transcript.bytes())
    }

    proof fn lemma_within_capacity(&self) {
    }

    proof fn lemma_bytes_decide(a: Transcript, b: Transcript) {
    }

    fn update(&mut self, input: &[u8]) -> (r: Result<(), Error>) {
        blake2s_update(&mut self.state, input);
        self.transcript = Ghost(self.transcript@.absorb(input@));
        Ok(())
    }

    fn finalize(&self) -> (digest: Blake2sDigest<N>) {
        Blake2sDigest::from(blake2s_finalize(&self.state))
    }

    fn reset(&mut self) {
        self.state = blake2s_with_length(N);
        self.transcript = Ghost(Transcript::Fresh);
    }
}

} // verus!
