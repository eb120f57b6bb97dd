//! The SHA-1 hasher, over the `sha-1` crate.
use crate::bytewise::{byte_order, compare, equal};
use crate::hasher::{Digest, Error, Hasher, Transcript};
use core::cmp::Ordering;
use vstd::prelude::*;
use vstd::std_specs::cmp::{PartialEqSpecImpl, PartialOrdSpecImpl};
use vstd::std_specs::convert::FromSpecImpl;

verus! {

/// A SHA-1 digest of `N` bytes.
#[derive(Clone, Copy, Debug)]
pub struct Sha1Digest<const N: usize> {
    bytes: [u8; N],
}

impl<const N: usize> View for Sha1Digest<N> {
    type V = Seq<u8>;

    closed spec fn view(&self) -> Seq<u8> {
        self.bytes@
    }
}

impl<const N: usize> Digest for Sha1Digest<N> {
    open spec fn size() -> nat {
        N as nat
    }

    open spec fn bytes(&self) -> Seq<u8> {
        self@
    }

    proof fn lemma_size(&self) {
    }

    fn as_bytes(&self) -> (out: &[u8]) {
        self.bytes.as_slice()
    }
}

impl<const N: usize> AsRef<[u8]> for Sha1Digest<N> {
    fn as_ref(&self) -> (out: &[u8])
        ensures
            out@ == self@,
    {
        self.bytes.as_slice()
    }
}

impl<const N: usize> From<[u8; N]> for Sha1Digest<N> {
    fn from(bytes: [u8; N]) -> (digest: Self)
        ensures
            digest@ == bytes@,
    {
        Sha1Digest { bytes }
    }
}

impl<const N: usize> FromSpecImpl<[u8; N]> for Sha1Digest<N> {
    open spec fn obeys_from_spec() -> bool {
        true
    }

    closed spec fn from_spec(bytes: [u8; N]) -> Self {
        Sha1Digest { bytes }
    }
}

impl<const N: usize> From<Sha1Digest<N>> for [u8; N] {
    fn from(digest: Sha1Digest<N>) -> (bytes: Self)
        ensures
            bytes@ == digest@,
    {
        digest.bytes
    }
}

impl<const N: usize> FromSpecImpl<Sha1Digest<N>> for [u8; N] {
    open spec fn obeys_from_spec() -> bool {
        true
    }

    closed spec fn from_spec(digest: Sha1Digest<N>) -> Self {
        digest.bytes
    }
}

impl<const N: usize> Default for Sha1Digest<N> {
    /// The digest whose `N` bytes are all zero.
    fn default() -> (digest: Self)
        ensures
            digest@ == Seq::new(N as nat, |i: int| 0u8),
    {
        let digest = Sha1Digest { bytes: [0u8; N] };
        assert(digest@ =~= Seq::new(N as nat, |i: int| 0u8));
        digest
    }
}

impl<const N: usize> PartialEq for Sha1Digest<N> {
    fn eq(&self, other: &Self) -> (r: bool) {
        equal(&self.bytes, &other.bytes)
    }
}

impl<const N: usize> PartialEqSpecImpl for Sha1Digest<N> {
    open spec fn obeys_eq_spec() -> bool {
        true
    }

    open spec fn eq_spec(&self, other: &Self) -> bool {
        self@ == other@
    }
}

impl<const N: usize> Eq for Sha1Digest<N> {}

impl<const N: usize> PartialOrd for Sha1Digest<N> {
    fn partial_cmp(&self, other: &Self) -> (r: Option<Ordering>) {
        Some(compare(&self.bytes, &other.bytes))
    }
}

impl<const N: usize> PartialOrdSpecImpl for Sha1Digest<N> {
    open spec fn obeys_partial_cmp_spec() -> bool {
        true
    }

    open spec fn partial_cmp_spec(&self, other: &Self) -> Option<Ordering> {
        Some(byte_order(self@, other@))
    }
}

/// The running state of SHA-1 in the `sha-1` crate. Nothing here looks inside it.
#[verifier::external_type_specification]
#[verifier::external_body]
pub struct ExSha1(::sha1::Sha1);

/// The bytes that a `sha1::Sha1` has taken in since it was made or last reset.
pub uninterp spec fn sha1_absorbed(state: ::sha1::Sha1) -> Seq<u8>;

/// The 20 bytes that `digest::Digest::finalize` gives for a `sha1::Sha1` that has taken in `data`.
pub uninterp spec fn sha1_digest(data: Seq<u8>) -> Seq<u8>;

/// The most bytes that SHA-1 takes in: the digest holds their number in bits, in 64 bits.
pub const SHA1_MAX_INPUT: u64 = 0x1fff_ffff_ffff_ffff;

/// `digest::Digest::new` for `sha1::Sha1`: the state that it gives has taken nothing in.
#[verifier::external_body]
fn sha1_new() -> (state: ::sha1::Sha1)
    ensures
        sha1_absorbed(state) == Seq::<u8>::empty(),
{
    ::digest::Digest::new()
}

/// `digest::Digest::update` for `sha1::Sha1`: the state has then taken in `input` after what it had
/// taken in before. The state counts what it takes in, and the call panics where the count
/// overflows: `requires` keeps the count within bounds.
#[verifier::external_body]
fn sha1_update(state: &mut ::sha1::Sha1, input: &[u8])
    requires
        sha1_absorbed(*old(state)).len() + input@.len() <= SHA1_MAX_INPUT,
    ensures
        sha1_absorbed(*final(state)) == sha1_absorbed(*old(state)) + input@,
{
    ::digest::Digest::update(state, input)
}

/// `digest::Digest::finalize` on a clone of a `sha1::Sha1`: the digest of what the state has taken
/// in. The state itself is not touched.
#[verifier::external_body]
fn sha1_finalize(state: &::sha1::Sha1) -> (out: [u8; 20])
    ensures
        out@ == sha1_digest(sha1_absorbed(*state)),
{
    let mut out = [0u8; 20];
    out.copy_from_slice(&::digest::Digest::finalize(state.clone()));
    out
}

/// `digest::Digest::reset` for `sha1::Sha1`: the state is then as one just made.
#[verifier::external_body]
fn sha1_reset(state: &mut ::sha1::Sha1)
    ensures
        sha1_absorbed(*final(state)) == Seq::<u8>::empty(),
{
    ::digest::Digest::reset(state)
}

/// The SHA-1 hasher.
#[allow(non_camel_case_types)]
pub struct Sha1Hasher {
    state: ::sha1::Sha1,
    len: u64,
    transcript: Ghost<Transcript>,
}

impl Sha1Hasher {
    /// A hasher that has taken nothing in.
    pub fn new() -> (hasher: Self)
        ensures
            hasher.wf(),
            hasher.transcript() == Transcript::Fresh,
    {
        Sha1Hasher { state: sha1_new(), len: 0, transcript: Ghost(Transcript::Fresh) }
    }
}

impl Default for Sha1Hasher {
    fn default() -> (hasher: Self)
        ensures
            hasher.wf(),
            hasher.transcript() == Transcript::Fresh,
    {
        Sha1Hasher::new()
    }
}

impl Hasher for Sha1Hasher {
    type Digest = Sha1Digest<20>;

    closed spec fn wf(&self) -> bool {
        &&& self.transcript@.bytes() == sha1_absorbed(self.state)
        &&& self.len == self.transcript@.bytes().len()
        &&& self.len <= SHA1_MAX_INPUT
    }

    closed spec fn transcript(&self) -> Transcript {
        self.transcript@
    }

    open spec fn capacity() -> Option<nat> {
        Some(SHA1_MAX_INPUT as nat)
    }

    open spec fn framed() -> bool {
        false
    }

    open spec fn digest_of(transcript: Transcript) -> Seq<u8> {
        sha1_digest(transcript.bytes())
    }

    proof fn lemma_within_capacity(&self) {
    }

    proof fn lemma_bytes_decide(a: Transcript, b: Transcript) {
    }

    fn update(&mut self, input: &[u8]) -> (r: Result<(), Error>) {
        if input.len() as u64 > SHA1_MAX_INPUT - self.len {
            return Err(Error::CapacityExceeded);
        }
        sha1_update(&mut self.state, input);
        self.len = self.len + input.len() as u64;
        self.transcript = Ghost(self.transcript@.absorb(input@));
        Ok(())
    }

    fn finalize(&self) -> (digest: Sha1Digest<20>) {
        Sha1Digest::from(sha1_finalize(&self.state))
    }

    fn reset(&mut self) {
        sha1_reset(&mut self.state);
        self.len = 0;
        self.transcript = Ghost(Transcript::Fresh);
    }
}

} // verus!
