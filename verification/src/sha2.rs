//! The SHA-2 hashers, over the `sha2` crate.
use crate::bytewise::{byte_order, compare, equal};
use crate::hasher::{Digest, Error, Hasher, Transcript};
use core::cmp::Ordering;
use vstd::prelude::*;
use vstd::std_specs::cmp::{PartialEqSpecImpl, PartialOrdSpecImpl};
use vstd::std_specs::convert::FromSpecImpl;

verus! {

/// A SHA-2 digest of `N` bytes.
#[derive(Clone, Copy, Debug)]
pub struct Sha2Digest<const N: usize> {
    bytes: [u8; N],
}

impl<const N: usize> View for Sha2Digest<N> {
    type V = Seq<u8>;

    closed spec fn view(&self) -> Seq<u8> {
        self.bytes@
    }
}

impl<const N: usize> Digest for Sha2Digest<N> {
    open spec fn size() -> nat {
        N as nat
    }

    open spec fn bytes(&self) -> Seq<u8> {
        self@
    }

    proof fn lemma_size(&self) {
    }

    fn as_bytes(&self) -> (out: &[u8]) {
        self.bytes.as_slice()
    }
}

impl<const N: usize> AsRef<[u8]> for Sha2Digest<N> {
    fn as_ref(&self) -> (out: &[u8])
        ensures
            out@ == self@,
    {
        self.bytes.as_slice()
    }
}

impl<const N: usize> From<[u8; N]> for Sha2Digest<N> {
    fn from(bytes: [u8; N]) -> (digest: Self)
        ensures
            digest@ == bytes@,
    {
        Sha2Digest { bytes }
    }
}

impl<const N: usize> FromSpecImpl<[u8; N]> for Sha2Digest<N> {
    open spec fn obeys_from_spec() -> bool {
        true
    }

    closed spec fn from_spec(bytes: [u8; N]) -> Self {
        Sha2Digest { bytes }
    }
}

impl<const N: usize> From<Sha2Digest<N>> for [u8; N] {
    fn from(digest: Sha2Digest<N>) -> (bytes: Self)
        ensures
            bytes@ == digest@,
    {
        digest.bytes
    }
}

impl<const N: usize> FromSpecImpl<Sha2Digest<N>> for [u8; N] {
    open spec fn obeys_from_spec() -> bool {
        true
    }

    closed spec fn from_spec(digest: Sha2Digest<N>) -> Self {
        digest.bytes
    }
}

impl<const N: usize> Default for Sha2Digest<N> {
    /// The digest whose `N` bytes are all zero.
    fn default() -> (digest: Self)
        ensures
            digest@ == Seq::new(N as nat, |i: int| 0u8),
    {
        let digest = Sha2Digest { bytes: [0u8; N] };
        assert(digest@ =~= Seq::new(N as nat, |i: int| 0u8));
        digest
    }
}

impl<const N: usize> PartialEq for Sha2Digest<N> {
    fn eq(&self, other: &Self) -> (r: bool) {
        equal(&self.bytes, &other.bytes)
    }
}

impl<const N: usize> PartialEqSpecImpl for Sha2Digest<N> {
    open spec fn obeys_eq_spec() -> bool {
        true
    }

    open spec fn eq_spec(&self, other: &Self) -> bool {
        self@ == other@
    }
}

impl<const N: usize> Eq for Sha2Digest<N> {}

impl<const N: usize> PartialOrd for Sha2Digest<N> {
    fn partial_cmp(&self, other: &Self) -> (r: Option<Ordering>) {
        Some(compare(&self.bytes, &other.bytes))
    }
}

impl<const N: usize> PartialOrdSpecImpl for Sha2Digest<N> {
    open spec fn obeys_partial_cmp_spec() -> bool {
        true
    }

    open spec fn partial_cmp_spec(&self, other: &Self) -> Option<Ordering> {
        Some(byte_order(self@, other@))
    }
}

/// The running state of SHA-256 in the `sha2` crate. Nothing here looks inside it.
#[verifier::external_type_specification]
#[verifier::external_body]
pub struct ExSha256(::sha2::Sha256);

/// The bytes that a `sha2::Sha256` has taken in since it was made or last reset.
pub uninterp spec fn sha256_absorbed(state: ::sha2::Sha256) -> Seq<u8>;

/// The 32 bytes that `digest::Digest::finalize` gives for a `sha2::Sha256` that has taken in
/// `data`.
pub uninterp spec fn sha256_digest(data: Seq<u8>) -> Seq<u8>;

/// The most bytes that SHA-256 takes in: the state counts them in bits, in 64 bits.
pub const SHA256_MAX_INPUT: u64 = 0x1fff_ffff_ffff_ffff;

/// `digest::Digest::new` for `sha2::Sha256`: the state that it gives has taken nothing in.
#[verifier::external_body]
fn sha256_new() -> (state: ::sha2::Sha256)
    ensures
        sha256_absorbed(state) == Seq::<u8>::empty(),
{
    ::digest::Digest::new()
}

/// `digest::Digest::update` for `sha2::Sha256`: the state has then taken in `input` after what it
/// had taken in before. The state counts what it takes in, and the call panics where the count
/// overflows: `requires` keeps the count within bounds.
#[verifier::external_body]
fn sha256_update(state: &mut ::sha2::Sha256, input: &[u8])
    requires
        sha256_absorbed(*old(state)).len() + input@.len() <= SHA256_MAX_INPUT,
    ensures
        sha256_absorbed(*final(state)) == sha256_absorbed(*old(state)) + input@,
{
    ::digest::Digest::update(state, input)
}

/// `digest::Digest::finalize` on a clone of a `sha2::Sha256`: the digest of what the state has
/// taken in. The state itself is not touched.
#[verifier::external_body]
fn sha256_finalize(state: &::sha2::Sha256) -> (out: [u8; 32])
    ensures
        out@ == sha256_digest(sha256_absorbed(*state)),
{
    let mut out = [0u8; 32];
    out.copy_from_slice(&::digest::Digest::finalize(state.clone()));
    out
}

/// `digest::Digest::reset` for `sha2::Sha256`: the state is then as one just made.
#[verifier::external_body]
fn sha256_reset(state: &mut ::sha2::Sha256)
    ensures
        sha256_absorbed(*final(state)) == Seq::<u8>::empty(),
{
    ::digest::Digest::reset(state)
}

/// The SHA-256 hasher.
#[allow(non_camel_case_types)]
pub struct Sha2_256 {
    state: ::sha2::Sha256,
    len: u64,
    transcript: Ghost<Transcript>,
}

impl Sha2_256 {
    /// A hasher that has taken nothing in.
    pub fn new() -> (hasher: Self)
        ensures
            hasher.wf(),
            hasher.transcript() == Transcript::Fresh,
    {
        Sha2_256 { state: sha256_new(), len: 0, transcript: Ghost(Transcript::Fresh) }
    }
}

impl Default for Sha2_256 {
    fn default() -> (hasher: Self)
        ensures
            hasher.wf(),
            hasher.transcript() == Transcript::Fresh,
    {
        Sha2_256::new()
    }
}

impl Hasher for Sha2_256 {
    type Digest = Sha2Digest<32>;

    closed spec fn wf(&self) -> bool {
        &&& self.transcript@.bytes() == sha256_absorbed(self.state)
        &&& self.len == self.transcript@.bytes().len()
        &&& self.len <= SHA256_MAX_INPUT
    }

    closed spec fn transcript(&self) -> Transcript {
        self.transcript@
    }

    open spec fn capacity() -> Option<nat> {
        Some(SHA256_MAX_INPUT as nat)
    }

    open spec fn framed() -> bool {
        false
    }

    open spec fn digest_of(transcript: Transcript) -> Seq<u8> {
        sha256_digest(transcript.bytes())
    }

    proof fn lemma_within_capacity(&self) {
    }

    proof fn lemma_bytes_decide(a: Transcript, b: Transcript) {
    }

    fn update(&mut self, input: &[u8]) -> (r: Result<(), Error>) {
        if input.len() as u64 > SHA256_MAX_INPUT - self.len {
            return Err(Error::CapacityExceeded);
        }
        sha256_update(&mut self.state, input);
        self.len = self.len + input.len() as u64;
        self.transcript = Ghost(self.transcript@.absorb(input@));
        Ok(())
    }

    fn finalize(&self) -> (digest: Sha2Digest<32>) {
        Sha2Digest::from(sha256_finalize(&self.state))
    }

    fn reset(&mut self) {
        sha256_reset(&mut self.state);
        self.len = 0;
        self.transcript = Ghost(Transcript::Fresh);
    }
}

/// The running state of SHA-512 in the `sha2` crate. Nothing here looks inside it.
#[verifier::external_type_specification]
#[verifier::external_body]
pub struct ExSha512(::sha2::Sha512);

/// The bytes that a `sha2::Sha512` has taken in since it was made or last reset.
pub uninterp spec fn sha512_absorbed(state: ::sha2::Sha512) -> Seq<u8>;

/// The 64 bytes that `digest::Digest::finalize` gives for a `sha2::Sha512` that has taken in
/// `data`.
pub uninterp spec fn sha512_digest(data: Seq<u8>) -> Seq<u8>;

/// The most bytes that SHA-512 takes in: the state counts them in bits, in 128 bits.
pub const SHA512_MAX_INPUT: u128 = 0x1fff_ffff_ffff_ffff_ffff_ffff_ffff_ffff;

/// `digest::Digest::new` for `sha2::Sha512`: the state that it gives has taken nothing in.
#[verifier::external_body]
fn sha512_new() -> (state: ::sha2::Sha512)
    ensures
        sha512_absorbed(state) == Seq::<u8>::empty(),
{
    ::digest::Digest::new()
}

/// `digest::Digest::update` for `sha2::Sha512`: the state has then taken in `input` after what it
/// had taken in before. The state counts what it takes in, and the call panics where the count
/// overflows: `requires` keeps the count within bounds.
#[verifier::external_body]
fn sha512_update(state: &mut ::sha2::Sha512, input: &[u8])
    requires
        sha512_absorbed(*old(state)).len() + input@.len() <= SHA512_MAX_INPUT,
    ensures
        sha512_absorbed(*final(state)) == sha512_absorbed(*old(state)) + input@,
{
    ::digest::Digest::update(state, input)
}

/// `digest::Digest::finalize` on a clone of a `sha2::Sha512`: the digest of what the state has
/// taken in. The state itself is not touched.
#[verifier::external_body]
fn sha512_finalize(state: &::sha2::Sha512) -> (out: [u8; 64])
    ensures
        out@ == sha512_digest(sha512_absorbed(*state)),
{
    let mut out = [0u8; 64];
    out.copy_from_slice(&::digest::Digest::finalize(state.clone()));
    out
}

/// `digest::Digest::reset` for `sha2::Sha512`: the state is then as one just made.
#[verifier::external_body]
fn sha512_reset(state: &mut ::sha2::Sha512)
    ensures
        sha512_absorbed(*final(state)) == Seq::<u8>::empty(),
{
    ::digest::Digest::reset(state)
}

/// The SHA-512 hasher.
#[allow(non_camel_case_types)]
pub struct Sha2_512 {
    state: ::sha2::Sha512,
    len: u128,
    transcript: Ghost<Transcript>,
}

impl Sha2_512 {
    /// A hasher that has taken nothing in.
    pub fn new() -> (hasher: Self)
        ensures
            hasher.wf(),
            hasher.transcript() == Transcript::Fresh,
    {
        Sha2_512 { state: sha512_new(), len: 0, transcript: Ghost(Transcript::Fresh) }
    }
}

impl Default for Sha2_512 {
    fn default() -> (hasher: Self)
        ensures
            hasher.wf(),
            hasher.transcript() == Transcript::Fresh,
    {
        Sha2_512::new()
    }
}

impl Hasher for Sha2_512 {
    type Digest = Sha2Digest<64>;

    closed spec fn wf(&self) -> bool {
        &&& self.transcript@.bytes() == sha512_absorbed(self.state)
        &&& self.len == self.transcript@.bytes().len()
        &&& self.len <= SHA512_MAX_INPUT
    }

    closed spec fn transcript(&self) -> Transcript {
        self.transcript@
    }

    open spec fn capacity() -> Option<nat> {
        Some(SHA512_MAX_INPUT as nat)
    }

    open spec fn framed() -> bool {
        false
    }

    open spec fn digest_of(transcript: Transcript) -> Seq<u8> {
        sha512_digest(transcript.bytes())
    }

    proof fn lemma_within_capacity(&self) {
    }

    proof fn lemma_bytes_decide(a: Transcript, b: Transcript) {
    }

    fn update(&mut self, input: &[u8]) -> (r: Result<(), Error>) {
        if input.len() as u128 > SHA512_MAX_INPUT - self.len {
            return Err(Error::CapacityExceeded);
        }
        sha512_update(&mut self.state, input);
        self.len = self.len + input.len() as u128;
        self.transcript = Ghost(self.transcript@.absorb(input@));
        Ok(())
    }

    fn finalize(&self) -> (digest: Sha2Digest<64>) {
        Sha2Digest::from(sha512_finalize(&self.state))
    }

    fn reset(&mut self) {
        sha512_reset(&mut self.state);
        self.len = 0;
        self.transcript = Ghost(Transcript::Fresh);
    }
}

} // verus!
