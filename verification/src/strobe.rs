//! The Strobe hasher, over the duplex state of the `strobe-rs` crate.
use crate::bytewise::{byte_order, compare, equal};
use crate::hasher::{Digest, Error, Hasher, Transcript};
use core::cmp::Ordering;
use vstd::prelude::*;
use vstd::std_specs::cmp::{PartialEqSpecImpl, PartialOrdSpecImpl};
use vstd::std_specs::convert::FromSpecImpl;

verus! {

/// A Strobe digest of `N` bytes.
#[derive(Clone, Copy, Debug)]
pub struct StrobeDigest<const N: usize> {
    bytes: [u8; N],
}

impl<const N: usize> View for StrobeDigest<N> {
    type V = Seq<u8>;

    closed spec fn view(&self) -> Seq<u8> {
        self.bytes@
    }
}

impl<const N: usize> Digest for StrobeDigest<N> {
    open spec fn size() -> nat {
        N as nat
    }

    open spec fn bytes(&self) -> Seq<u8> {
        self@
    }

    proof fn lemma_size(&self) {
    }

    fn as_bytes(&self) -> (out: &[u8]) {
        self.bytes.as_slice()
    }
}

impl<const N: usize> AsRef<[u8]> for StrobeDigest<N> {
    fn as_ref(&self) -> (out: &[u8])
        ensures
            out@ == self@,
    {
        self.bytes.as_slice()
    }
}

impl<const N: usize> From<[u8; N]> for StrobeDigest<N> {
    fn from(bytes: [u8; N]) -> (digest: Self)
        ensures
            digest@ == bytes@,
    {
        StrobeDigest { bytes }
    }
}

impl<const N: usize> FromSpecImpl<[u8; N]> for StrobeDigest<N> {
    open spec fn obeys_from_spec() -> bool {
        true
    }

    closed spec fn from_spec(bytes: [u8; N]) -> Self {
        StrobeDigest { bytes }
    }
}

impl<const N: usize> From<StrobeDigest<N>> for [u8; N] {
    fn from(digest: StrobeDigest<N>) -> (bytes: Self)
        ensures
            bytes@ == digest@,
    {
        digest.bytes
    }
}

impl<const N: usize> FromSpecImpl<StrobeDigest<N>> for [u8; N] {
    open spec fn obeys_from_spec() -> bool {
        true
    }

    closed spec fn from_spec(digest: StrobeDigest<N>) -> Self {
        digest.bytes
    }
}

impl<const N: usize> Default for StrobeDigest<N> {
    /// The digest whose `N` bytes are all zero.
    fn default() -> (digest: Self)
        ensures
            digest@ == Seq::new(N as nat, |i: int| 0u8),
    {
        let digest = StrobeDigest { bytes: [0u8; N] };
        assert(digest@ =~= Seq::new(N as nat, |i: int| 0u8));
        digest
    }
}

impl<const N: usize> PartialEq for StrobeDigest<N> {
    fn eq(&self, other: &Self) -> (r: bool) {
        equal(&self.bytes, &other.bytes)
    }
}

impl<const N: usize> PartialEqSpecImpl for StrobeDigest<N> {
    open spec fn obeys_eq_spec() -> bool {
        true
    }

    open spec fn eq_spec(&self, other: &Self) -> bool {
        self@ == other@
    }
}

impl<const N: usize> Eq for StrobeDigest<N> {}

impl<const N: usize> PartialOrd for StrobeDigest<N> {
    fn partial_cmp(&self, other: &Self) -> (r: Option<Ordering>) {
        Some(compare(&self.bytes, &other.bytes))
    }
}

impl<const N: usize> PartialOrdSpecImpl for StrobeDigest<N> {
    open spec fn obeys_partial_cmp_spec() -> bool {
        true
    }

    open spec fn partial_cmp_spec(&self, other: &Self) -> Option<Ordering> {
        Some(byte_order(self@, other@))
    }
}

/// The duplex state of the `strobe-rs` crate. Nothing here looks inside it.
#[verifier::external_type_specification]
#[verifier::external_body]
pub struct ExStrobe(::strobe_rs::Strobe);

/// Whether an `ad` operation has begun on a `strobe_rs::Strobe` since it was made.
pub uninterp spec fn strobe_begun(state: ::strobe_rs::Strobe) -> bool;

/// The bytes that a `strobe_rs::Strobe` has taken in by `ad` since it was made.
pub uninterp spec fn strobe_absorbed(state: ::strobe_rs::Strobe) -> Seq<u8>;

/// The `len` bytes that `strobe_rs::Strobe::prf` gives on a state that `strobe_new` made, on which
/// an `ad` operation has begun or not, as `begun` says, and which has taken in `data`.
pub uninterp spec fn strobe_prf_output(begun: bool, data: Seq<u8>, len: nat) -> Seq<u8>;

/// `strobe_rs::Strobe::new`, for the protocol `StrobeHash` at 128 bits of security: on the state
/// that it gives no `ad` operation has begun, and nothing was taken in.
#[verifier::external_body]
fn strobe_new() -> (state: ::strobe_rs::Strobe)
    ensures
        !strobe_begun(state),
        strobe_absorbed(state) == Seq::<u8>::empty(),
{
    ::strobe_rs::Strobe::new(b"StrobeHash", ::strobe_rs::SecParam::B128)
}

/// `strobe_rs::Strobe::ad`: with `more` unset it begins an operation and takes `data` in, with
/// `more` set it takes `data` in as more input of the operation that went before. The contract
/// speaks of states with one `ad` operation at most: `more` is set where one has begun, and there
/// only. The state has then taken in `data` after what it had taken in before.
#[verifier::external_body]
fn strobe_ad(state: &mut ::strobe_rs::Strobe, data: &[u8], more: bool)
    requires
        more == strobe_begun(*old(state)),
    ensures
        strobe_begun(*final(state)),
        strobe_absorbed(*final(state)) == strobe_absorbed(*old(state)) + data@,
{
    state.ad(data, more);
}

/// `strobe_rs::Strobe::prf` on a clone of the state, with `more` unset: `N` bytes that the state's
/// operations so far decide. The state itself is not touched.
#[verifier::external_body]
fn strobe_prf<const N: usize>(state: &::strobe_rs::Strobe) -> (out: [u8; N])
    ensures
        out@ == strobe_prf_output(strobe_begun(*state), strobe_absorbed(*state), N as nat),
{
    let mut out = [0u8; N];
    state.clone().prf(&mut out, false);
    out
}

/// The Strobe hasher that gives digests of `N` bytes. Its first `update` begins an operation of the
/// duplex state, and every later one goes on with it.
pub struct StrobeHasher<const N: usize> {
    strobe: ::strobe_rs::Strobe,
    initialized: bool,
}

/// The Strobe hasher of 256 bits.
pub type Strobe256 = StrobeHasher<32>;

/// The Strobe hasher of 512 bits.
pub type Strobe512 = StrobeHasher<64>;

impl<const N: usize> StrobeHasher<N> {
    /// A hasher that has taken nothing in.
    pub fn new() -> (hasher: Self)
        ensures
            hasher.wf(),
            hasher.transcript() == Transcript::Fresh,
    {
        StrobeHasher { strobe: strobe_new(), initialized: false }
    }
}

impl<const N: usize> Default for StrobeHasher<N> {
    fn default() -> (hasher: Self)
        ensures
            hasher.wf(),
            hasher.transcript() == Transcript::Fresh,
    {
        StrobeHasher::new()
    }
}

impl<const N: usize> Hasher for StrobeHasher<N> {
    type Digest = StrobeDigest<N>;

    closed spec fn wf(&self) -> bool {
        &&& self.initialized == strobe_begun(self.strobe)
        &&& !self.initialized ==> strobe_absorbed(self.strobe) == Seq::<u8>::empty()
    }

    closed spec fn transcript(&self) -> Transcript {
        if self.initialized {
            Transcript::Accumulating(strobe_absorbed(self.strobe))
        } else {
            Transcript::Fresh
        }
    }

    open spec fn capacity() -> Option<nat> {
        None
    }

    open spec fn framed() -> bool {
        true
    }

    open spec fn digest_of(transcript: Transcript) -> Seq<u8> {
        strobe_prf_output(transcript is Accumulating, transcript.bytes(), N as nat)
    }

    proof fn lemma_within_capacity(&self) {
    }

    proof fn lemma_bytes_decide(a: Transcript, b: Transcript) {
    }

    fn update(&mut self, input: &[u8]) -> (r: Result<(), Error>) {
        strobe_ad(&mut self.strobe, input, self.initialized);
        self.initialized = true;
        Ok(())
    }

    fn finalize(&self) -> (digest: StrobeDigest<N>) {
        StrobeDigest::from(strobe_prf(&self.strobe))
    }

    fn reset(&mut self) {
        self.strobe = strobe_new();
        self.initialized = false;
    }
}

} // verus!
