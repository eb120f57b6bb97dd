//! The SHA-3 and Keccak hashers, over the `sha3` crate.
use crate::bytewise::{byte_order, compare, equal};
use crate::hasher::{Digest, Error, Hasher, Transcript};
use core::cmp::Ordering;
use vstd::prelude::*;
use vstd::std_specs::cmp::{PartialEqSpecImpl, PartialOrdSpecImpl};
use vstd::std_specs::convert::FromSpecImpl;

verus! {

/// A SHA-3 digest of `N` bytes.
#[derive(Clone, Copy, Debug)]
pub struct Sha3Digest<const N: usize> {
    bytes: [u8; N],
}

impl<const N: usize> View for Sha3Digest<N> {
    type V = Seq<u8>;

    closed spec fn view(&self) -> Seq<u8> {
        self.bytes@
    }
}

impl<const N: usize> Digest for Sha3Digest<N> {
    open spec fn size() -> nat {
        N as nat
    }

    open spec fn bytes(&self) -> Seq<u8> {
        self@
    }

    proof fn lemma_size(&self) {
    }

    fn as_bytes(&self) -> (out: &[u8]) {
        self.bytes.as_slice()
    }
}

impl<const N: usize> AsRef<[u8]> for Sha3Digest<N> {
    fn as_ref(&self) -> (out: &[u8])
        ensures
            out@ == self@,
    {
        self.bytes.as_slice()
    }
}

impl<const N: usize> From<[u8; N]> for Sha3Digest<N> {
    fn from(bytes: [u8; N]) -> (digest: Self)
        ensures
            digest@ == bytes@,
    {
        Sha3Digest { bytes }
    }
}

impl<const N: usize> FromSpecImpl<[u8; N]> for Sha3Digest<N> {
    open spec fn obeys_from_spec() -> bool {
        true
    }

    closed spec fn from_spec(bytes: [u8; N]) -> Self {
        Sha3Digest { bytes }
    }
}

impl<const N: usize> From<Sha3Digest<N>> for [u8; N] {
    fn from(digest: Sha3Digest<N>) -> (bytes: Self)
        ensures
            bytes@ == digest@,
    {
        digest.bytes
    }
}

impl<const N: usize> FromSpecImpl<Sha3Digest<N>> for [u8; N] {
    open spec fn obeys_from_spec() -> bool {
        true
    }

    closed spec fn from_spec(digest: Sha3Digest<N>) -> Self {
        digest.bytes
    }
}

impl<const N: usize> Default for Sha3Digest<N> {
    /// The digest whose `N` bytes are all zero.
    fn default() -> (digest: Self)
        ensures
            digest@ == Seq::new(N as nat, |i: int| 0u8),
    {
        let digest = Sha3Digest { bytes: [0u8; N] };
        assert(digest@ =~= Seq::new(N as nat, |i: int| 0u8));
        digest
    }
}

impl<const N: usize> PartialEq for Sha3Digest<N> {
    fn eq(&self, other: &Self) -> (r: bool) {
        equal(&self.bytes, &other.bytes)
    }
}

impl<const N: usize> PartialEqSpecImpl for Sha3Digest<N> {
    open spec fn obeys_eq_spec() -> bool {
        true
    }

    open spec fn eq_spec(&self, other: &Self) -> bool {
        self@ == other@
    }
}

impl<const N: usize> Eq for Sha3Digest<N> {}

impl<const N: usize> PartialOrd for Sha3Digest<N> {
    fn partial_cmp(&self, other: &Self) -> (r: Option<Ordering>) {
        Some(compare(&self.bytes, &other.bytes))
    }
}

impl<const N: usize> PartialOrdSpecImpl for Sha3Digest<N> {
    open spec fn obeys_partial_cmp_spec() -> bool {
        true
    }

    open spec fn partial_cmp_spec(&self, other: &Self) -> Option<Ordering> {
        Some(byte_order(self@, other@))
    }
}

/// The running state of SHA3-224 in the `sha3` crate. Nothing here looks inside it.
#[verifier::external_type_specification]
#[verifier::external_body]
pub struct ExSha3224(::sha3::Sha3_224);

/// The bytes that a `sha3::Sha3_224` has taken in since it was made or last reset.
pub uninterp spec fn sha3_224_absorbed(state: ::sha3::Sha3_224) -> Seq<u8>;

/// The 28 bytes that `digest::Digest::finalize` gives for a `sha3::Sha3_224` that has taken in
/// `data`.
pub uninterp spec fn sha3_224_digest(data: Seq<u8>) -> Seq<u8>;

/// `digest::Digest::new` for `sha3::Sha3_224`: the state that it gives has taken nothing in.
#[verifier::external_body]
fn sha3_224_new() -> (state: ::sha3::Sha3_224)
    ensures
        sha3_224_absorbed(state) == Seq::<u8>::empty(),
{
    ::digest::Digest::new()
}

/// `digest::Digest::update` for `sha3::Sha3_224`: the state has then taken in `input` after what it
/// had taken in before.
#[verifier::external_body]
fn sha3_224_update(state: &mut ::sha3::Sha3_224, input: &[u8])
    ensures
        sha3_224_absorbed(*final(state)) == sha3_224_absorbed(*old(state)) + input@,
{
    ::digest::Digest::update(state, input)
}

/// `digest::Digest::finalize` on a clone of a `sha3::Sha3_224`: the digest of what the state has
/// taken in. The state itself is not touched.
#[verifier::external_body]
fn sha3_224_finalize(state: &::sha3::Sha3_224) -> (out: [u8; 28])
    ensures
        out@ == sha3_224_digest(sha3_224_absorbed(*state)),
{
    let mut out = [0u8; 28];
    out.copy_from_slice(&::digest::Digest::finalize(state.clone()));
    out
}

/// `digest::Digest::reset` for `sha3::Sha3_224`: the state is then as one just made.
#[verifier::external_body]
fn sha3_224_reset(state: &mut ::sha3::Sha3_224)
    ensures
        sha3_224_absorbed(*final(state)) == Seq::<u8>::empty(),
{
    ::digest::Digest::reset(state)
}

/// The SHA3-224 hasher.
#[allow(non_camel_case_types)]
pub struct Sha3_224Hasher {
    state: ::sha3::Sha3_224,
    transcript: Ghost<Transcript>,
}

impl Sha3_224Hasher {
    /// A hasher that has taken nothing in.
    pub fn new() -> (hasher: Self)
        ensures
            hasher.wf(),
            hasher.transcript() == Transcript::Fresh,
    {
        Sha3_224Hasher { state: sha3_224_new(), transcript: Ghost(Transcript::Fresh) }
    }
}

impl Default for Sha3_224Hasher {
    fn default() -> (hasher: Self)
        ensures
            hasher.wf(),
            hasher.transcript() == Transcript::Fresh,
    {
        Sha3_224Hasher::new()
    }
}

impl Hasher for Sha3_224Hasher {
    type Digest = Sha3Digest<28>;

    closed spec fn wf(&self) -> bool {
        &&& self.transcript@.bytes() == sha3_224_absorbed(self.state)
    }

    closed spec fn transcript(&self) -> Transcript {
        self.transcript@
    }

    open spec fn capacity() -> Option<nat> {
        None
    }

    open spec fn framed() -> bool {
        false
    }

    open spec fn digest_of(transcript: Transcript) -> Seq<u8> {
        sha3_224_digest(transcript.bytes())
    }

    proof fn lemma_within_capacity(&self) {
    }

    proof fn lemma_bytes_decide(a: Transcript, b: Transcript) {
    }

    fn update(&mut self, input: &[u8]) -> (r: Result<(), Error>) {
        sha3_224_update(&mut self.state, input);
        self.transcript = Ghost(self.transcript@.absorb(input@));
        Ok(())
    }

    fn finalize(&self) -> (digest: Sha3Digest<28>) {
        Sha3Digest::from(sha3_224_finalize(&self.state))
    }

    fn reset(&mut self) {
        sha3_224_reset(&mut self.state);
        self.transcript = Ghost(Transcript::Fresh);
    }
}

/// The running state of SHA3-256 in the `sha3` crate. Nothing here looks inside it.
#[verifier::external_type_specification]
#[verifier::external_body]
pub struct ExSha3256(::sha3::Sha3_256);

/// The bytes that a `sha3::Sha3_256` has taken in since it was made or last reset.
pub uninterp spec fn sha3_256_absorbed(state: ::sha3::Sha3_256) -> Seq<u8>;

/// The 32 bytes that `digest::Digest::finalize` gives for a `sha3::Sha3_256` that has taken in
/// `data`.
pub uninterp spec fn sha3_256_digest(data: Seq<u8>) -> Seq<u8>;

/// `digest::Digest::new` for `sha3::Sha3_256`: the state that it gives has taken nothing in.
#[verifier::external_body]
fn sha3_256_new() -> (state: ::sha3::Sha3_256)
    ensures
        sha3_256_absorbed(state) == Seq::<u8>::empty(),
{
    ::digest::Digest::new()
}

/// `digest::Digest::update` for `sha3::Sha3_256`: the state has then taken in `input` after what it
/// had taken in before.
#[verifier::external_body]
fn sha3_256_update(state: &mut ::sha3::Sha3_256, input: &[u8])
    ensures
        sha3_256_absorbed(*final(state)) == sha3_256_absorbed(*old(state)) + input@,
{
    ::digest::Digest::update(state, input)
}

/// `digest::Digest::finalize` on a clone of a `sha3::Sha3_256`: the digest of what the state has
/// taken in. The state itself is not touched.
#[verifier::external_body]
fn sha3_256_finalize(state: &::sha3::Sha3_256) -> (out: [u8; 32])
    ensures
        out@ == sha3_256_digest(sha3_256_absorbed(*state)),
{
    let mut out = [0u8; 32];
    out.copy_from_slice(&::digest::Digest::finalize(state.clone()));
    out
}

/// `digest::Digest::reset` for `sha3::Sha3_256`: the state is then as one just made.
#[verifier::external_body]
fn sha3_256_reset(state: &mut ::sha3::Sha3_256)
    ensures
        sha3_256_absorbed(*final(state)) == Seq::<u8>::empty(),
{
    ::digest::Digest::reset(state)
}

/// The SHA3-256 hasher.
#[allow(non_camel_case_types)]
pub struct Sha3_256Hasher {
    state: ::sha3::Sha3_256,
    transcript: Ghost<Transcript>,
}

impl Sha3_256Hasher {
    /// A hasher that has taken nothing in.
    pub fn new() -> (hasher: Self)
        ensures
            hasher.wf(),
            hasher.transcript() == Transcript::Fresh,
    {
        Sha3_256Hasher { state: sha3_256_new(), transcript: Ghost(Transcript::Fresh) }
    }
}

impl Default for Sha3_256Hasher {
    fn default() -> (hasher: Self)
        ensures
            hasher.wf(),
            hasher.transcript() == Transcript::Fresh,
    {
        Sha3_256Hasher::new()
    }
}

impl Hasher for Sha3_256Hasher {
    type Digest = Sha3Digest<32>;

    closed spec fn wf(&self) -> bool {
        &&& self.transcript@.bytes() == sha3_256_absorbed(self.state)
    }

    closed spec fn transcript(&self) -> Transcript {
        self.transcript@
    }

    open spec fn capacity() -> Option<nat> {
        None
    }

    open spec fn framed() -> bool {
        false
    }

    open spec fn digest_of(transcript: Transcript) -> Seq<u8> {
        sha3_256_digest(transcript.bytes())
    }

    proof fn lemma_within_capacity(&self) {
    }

    proof fn lemma_bytes_decide(a: Transcript, b: Transcript) {
    }

    fn update(&mut self, input: &[u8]) -> (r: Result<(), Error>) {
        sha3_256_update(&mut self.state, input);
        self.transcript = Ghost(self.transcript@.absorb(input@));
        Ok(())
    }

    fn finalize(&self) -> (digest: Sha3Digest<32>) {
        Sha3Digest::from(sha3_256_finalize(&self.state))
    }

    fn reset(&mut self) {
        sha3_256_reset(&mut self.state);
        self.transcript = Ghost(Transcript::Fresh);
    }
}

/// The running state of SHA3-384 in the `sha3` crate. Nothing here looks inside it.
#[verifier::external_type_specification]
#[verifier::external_body]
pub struct ExSha3384(::sha3::Sha3_384);

/// The bytes that a `sha3::Sha3_384` has taken in since it was made or last reset.
pub uninterp spec fn sha3_384_absorbed(state: ::sha3::Sha3_384) -> Seq<u8>;

/// The 48 bytes that `digest::Digest::finalize` gives for a `sha3::Sha3_384` that has taken in
/// `data`.
pub uninterp spec fn sha3_384_digest(data: Seq<u8>) -> Seq<u8>;

/// `digest::Digest::new` for `sha3::Sha3_384`: the state that it gives has taken nothing in.
#[verifier::external_body]
fn sha3_384_new() -> (state: ::sha3::Sha3_384)
    ensures
        sha3_384_absorbed(state) == Seq::<u8>::empty(),
{
    ::digest::Digest::new()
}

/// `digest::Digest::update` for `sha3::Sha3_384`: the state has then taken in `input` after what it
/// had taken in before.
#[verifier::external_body]
fn sha3_384_update(state: &mut ::sha3::Sha3_384, input: &[u8])
    ensures
        sha3_384_absorbed(*final(state)) == sha3_384_absorbed(*old(state)) + input@,
{
    ::digest::Digest::update(state, input)
}

/// `digest::Digest::finalize` on a clone of a `sha3::Sha3_384`: the digest of what the state has
/// taken in. The state itself is not touched.
#[verifier::external_body]
fn sha3_384_finalize(state: &::sha3::Sha3_384) -> (out: [u8; 48])
    ensures
        out@ == sha3_384_digest(sha3_384_absorbed(*state)),
{
    let mut out = [0u8; 48];
    out.copy_from_slice(&::digest::Digest::finalize(state.clone()));
    out
}

/// `digest::Digest::reset` for `sha3::Sha3_384`: the state is then as one just made.
#[verifier::external_body]
fn sha3_384_reset(state: &mut ::sha3::Sha3_384)
    ensures
        sha3_384_absorbed(*final(state)) == Seq::<u8>::empty(),
{
    ::digest::Digest::reset(state)
}

/// The SHA3-384 hasher.
#[allow(non_camel_case_types)]
pub struct Sha3_384Hasher {
    state: ::sha3::Sha3_384,
    transcript: Ghost<Transcript>,
}

impl Sha3_384Hasher {
    /// A hasher that has taken nothing in.
    pub fn new() -> (hasher: Self)
        ensures
            hasher.wf(),
            hasher.transcript() == Transcript::Fresh,
    {
        Sha3_384Hasher { state: sha3_384_new(), transcript: Ghost(Transcript::Fresh) }
    }
}

impl Default for Sha3_384Hasher {
    fn default() -> (hasher: Self)
        ensures
            hasher.wf(),
            hasher.transcript() == Transcript::Fresh,
    {
        Sha3_384Hasher::new()
    }
}

impl Hasher for Sha3_384Hasher {
    type Digest = Sha3Digest<48>;

    closed spec fn wf(&self) -> bool {
        &&& self.transcript@.bytes() == sha3_384_absorbed(self.state)
    }

    closed spec fn transcript(&self) -> Transcript {
        self.transcript@
    }

    open spec fn capacity() -> Option<nat> {
        None
    }

    open spec fn framed() -> bool {
        false
    }

    open spec fn digest_of(transcript: Transcript) -> Seq<u8> {
        sha3_384_digest(transcript.bytes())
    }

    proof fn lemma_within_capacity(&self) {
    }

    proof fn lemma_bytes_decide(a: Transcript, b: Transcript) {
    }

    fn update(&mut self, input: &[u8]) -> (r: Result<(), Error>) {
        sha3_384_update(&mut self.state, input);
        self.transcript = Ghost(self.transcript@.absorb(input@));
        Ok(())
    }

    fn finalize(&self) -> (digest: Sha3Digest<48>) {
        Sha3Digest::from(sha3_384_finalize(&self.state))
    }

    fn reset(&mut self) {
        sha3_384_reset(&mut self.state);
        self.transcript = Ghost(Transcript::Fresh);
    }
}

/// The running state of SHA3-512 in the `sha3` crate. Nothing here looks inside it.
#[verifier::external_type_specification]
#[verifier::external_body]
pub struct ExSha3512(::sha3::Sha3_512);

/// The bytes that a `sha3::Sha3_512` has taken in since it was made or last reset.
pub uninterp spec fn sha3_512_absorbed(state: ::sha3::Sha3_512) -> Seq<u8>;

/// The 64 bytes that `digest::Digest::finalize` gives for a `sha3::Sha3_512` that has taken in
/// `data`.
pub uninterp spec fn sha3_512_digest(data: Seq<u8>) -> Seq<u8>;

/// `digest::Digest::new` for `sha3::Sha3_512`: the state that it gives has taken nothing in.
#[verifier::external_body]
fn sha3_512_new() -> (state: ::sha3::Sha3_512)
    ensures
        sha3_512_absorbed(state) == Seq::<u8>::empty(),
{
    ::digest::Digest::new()
}

/// `digest::Digest::update` for `sha3::Sha3_512`: the state has then taken in `input` after what it
/// had taken in before.
#[verifier::external_body]
fn sha3_512_update(state: &mut ::sha3::Sha3_512, input: &[u8])
    ensures
        sha3_512_absorbed(*final(state)) == sha3_512_absorbed(*old(state)) + input@,
{
    ::digest::Digest::update(state, input)
}

/// `digest::Digest::finalize` on a clone of a `sha3::Sha3_512`: the digest of what the state has
/// taken in. The state itself is not touched.
#[verifier::external_body]
fn sha3_512_finalize(state: &::sha3::Sha3_512) -> (out: [u8; 64])
    ensures
        out@ == sha3_512_digest(sha3_512_absorbed(*state)),
{
    let mut out = [0u8; 64];
    out.copy_from_slice(&::digest::Digest::finalize(state.clone()));
    out
}

/// `digest::Digest::reset` for `sha3::Sha3_512`: the state is then as one just made.
#[verifier::external_body]
fn sha3_512_reset(state: &mut ::sha3::Sha3_512)
    ensures
        sha3_512_absorbed(*final(state)) == Seq::<u8>::empty(),
{
    ::digest::Digest::reset(state)
}

/// The SHA3-512 hasher.
#[allow(non_camel_case_types)]
pub struct Sha3_512Hasher {
    state: ::sha3::Sha3_512,
    transcript: Ghost<Transcript>,
}

impl Sha3_512Hasher {
    /// A hasher that has taken nothing in.
    pub fn new() -> (hasher: Self)
        ensures
            hasher.wf(),
            hasher.transcript() == Transcript::Fresh,
    {
        Sha3_512Hasher { state: sha3_512_new(), transcript: Ghost(Transcript::Fresh) }
    }
}

impl Default for Sha3_512Hasher {
    fn default() -> (hasher: Self)
        ensures
            hasher.wf(),
            hasher.transcript() == Transcript::Fresh,
    {
        Sha3_512Hasher::new()
    }
}

impl Hasher for Sha3_512Hasher {
    type Digest = Sha3Digest<64>;

    closed spec fn wf(&self) -> bool {
        &&& self.transcript@.bytes() == sha3_512_absorbed(self.state)
    }

    closed spec fn transcript(&self) -> Transcript {
        self.transcript@
    }

    open spec fn capacity() -> Option<nat> {
        None
    }

    open spec fn framed() -> bool {
        false
    }

    open spec fn digest_of(transcript: Transcript) -> Seq<u8> {
        sha3_512_digest(transcript.bytes())
    }

    proof fn lemma_within_capacity(&self) {
    }

    proof fn lemma_bytes_decide(a: Transcript, b: Transcript) {
    }

    fn update(&mut self, input: &[u8]) -> (r: Result<(), Error>) {
        sha3_512_update(&mut self.state, input);
        self.transcript = Ghost(self.transcript@.absorb(input@));
        Ok(())
    }

    fn finalize(&self) -> (digest: Sha3Digest<64>) {
        Sha3Digest::from(sha3_512_finalize(&self.state))
    }

    fn reset(&mut self) {
        sha3_512_reset(&mut self.state);
        self.transcript = Ghost(Transcript::Fresh);
    }
}

/// A Keccak digest of `N` bytes.
#[derive(Clone, Copy, Debug)]
pub struct KeccakDigest<const N: usize> {
    bytes: [u8; N],
}

impl<const N: usize> View for KeccakDigest<N> {
    type V = Seq<u8>;

    closed spec fn view(&self) -> Seq<u8> {
        self.bytes@
    }
}

impl<const N: usize> Digest for KeccakDigest<N> {
    open spec fn size() -> nat {
        N as nat
    }

    open spec fn bytes(&self) -> Seq<u8> {
        self@
    }

    proof fn lemma_size(&self) {
    }

    fn as_bytes(&self) -> (out: &[u8]) {
        self.bytes.as_slice()
    }
}

impl<const N: usize> AsRef<[u8]> for KeccakDigest<N> {
    fn as_ref(&self) -> (out: &[u8])
        ensures
            out@ == self@,
    {
        self.bytes.as_slice()
    }
}

impl<const N: usize> From<[u8; N]> for KeccakDigest<N> {
    fn from(bytes: [u8; N]) -> (digest: Self)
        ensures
            digest@ == bytes@,
    {
        KeccakDigest { bytes }
    }
}

impl<const N: usize> FromSpecImpl<[u8; N]> for KeccakDigest<N> {
    open spec fn obeys_from_spec() -> bool {
        true
    }

    closed spec fn from_spec(bytes: [u8; N]) -> Self {
        KeccakDigest { bytes }
    }
}

impl<const N: usize> From<KeccakDigest<N>> for [u8; N] {
    fn from(digest: KeccakDigest<N>) -> (bytes: Self)
        ensures
            bytes@ == digest@,
    {
        digest.bytes
    }
}

impl<const N: usize> FromSpecImpl<KeccakDigest<N>> for [u8; N] {
    open spec fn obeys_from_spec() -> bool {
        true
    }

    closed spec fn from_spec(digest: KeccakDigest<N>) -> Self {
        digest.bytes
    }
}

impl<const N: usize> Default for KeccakDigest<N> {
    /// The digest whose `N` bytes are all zero.
    fn default() -> (digest: Self)
        ensures
            digest@ == Seq::new(N as nat, |i: int| 0u8),
    {
        let digest = KeccakDigest { bytes: [0u8; N] };
        assert(digest@ =~= Seq::new(N as nat, |i: int| 0u8));
        digest
    }
}

impl<const N: usize> PartialEq for KeccakDigest<N> {
    fn eq(&self, other: &Self) -> (r: bool) {
        equal(&self.bytes, &other.bytes)
    }
}

impl<const N: usize> PartialEqSpecImpl for KeccakDigest<N> {
    open spec fn obeys_eq_spec() -> bool {
        true
    }

    open spec fn eq_spec(&self, other: &Self) -> bool {
        self@ == other@
    }
}

impl<const N: usize> Eq for KeccakDigest<N> {}

impl<const N: usize> PartialOrd for KeccakDigest<N> {
    fn partial_cmp(&self, other: &Self) -> (r: Option<Ordering>) {
        Some(compare(&self.bytes, &other.bytes))
    }
}

impl<const N: usize> PartialOrdSpecImpl for KeccakDigest<N> {
    open spec fn obeys_partial_cmp_spec() -> bool {
        true
    }

    open spec fn partial_cmp_spec(&self, other: &Self) -> Option<Ordering> {
        Some(byte_order(self@, other@))
    }
}

/// The running state of Keccak-224 in the `sha3` crate. Nothing here looks inside it.
#[verifier::external_type_specification]
#[verifier::external_body]
pub struct ExKeccak224(::sha3::Keccak224);

/// The bytes that a `sha3::Keccak224` has taken in since it was made or last reset.
pub uninterp spec fn keccak224_absorbed(state: ::sha3::Keccak224) -> Seq<u8>;

/// The 28 bytes that `digest::Digest::finalize` gives for a `sha3::Keccak224` that has taken in
/// `data`.
pub uninterp spec fn keccak224_digest(data: Seq<u8>) -> Seq<u8>;

/// `digest::Digest::new` for `sha3::Keccak224`: the state that it gives has taken nothing in.
#[verifier::external_body]
fn keccak224_new() -> (state: ::sha3::Keccak224)
    ensures
        keccak224_absorbed(state) == Seq::<u8>::empty(),
{
    ::digest::Digest::new()
}

/// `digest::Digest::update` for `sha3::Keccak224`: the state has then taken in `input` after what
/// it had taken in before.
#[verifier::external_body]
fn keccak224_update(state: &mut ::sha3::Keccak224, input: &[u8])
    ensures
        keccak224_absorbed(*final(state)) == keccak224_absorbed(*old(state)) + input@,
{
    ::digest::Digest::update(state, input)
}

/// `digest::Digest::finalize` on a clone of a `sha3::Keccak224`: the digest of what the state has
/// taken in. The state itself is not touched.
#[verifier::external_body]
fn keccak224_finalize(state: &::sha3::Keccak224) -> (out: [u8; 28])
    ensures
        out@ == keccak224_digest(keccak224_absorbed(*state)),
{
    let mut out = [0u8; 28];
    out.copy_from_slice(&::digest::Digest::finalize(state.clone()));
    out
}

/// `digest::Digest::reset` for `sha3::Keccak224`: the state is then as one just made.
#[verifier::external_body]
fn keccak224_reset(state: &mut ::sha3::Keccak224)
    ensures
        keccak224_absorbed(*final(state)) == Seq::<u8>::empty(),
{
    ::digest::Digest::reset(state)
}

/// The Keccak-224 hasher.
#[allow(non_camel_case_types)]
pub struct Keccak224Hasher {
    state: ::sha3::Keccak224,
    transcript: Ghost<Transcript>,
}

impl Keccak224Hasher {
    /// A hasher that has taken nothing in.
    pub fn new() -> (hasher: Self)
        ensures
            hasher.wf(),
            hasher.transcript() == Transcript::Fresh,
    {
        Keccak224Hasher { state: keccak224_new(), transcript: Ghost(Transcript::Fresh) }
    }
}

impl Default for Keccak224Hasher {
    fn default() -> (hasher: Self)
        ensures
            hasher.wf(),
            hasher.transcript() == Transcript::Fresh,
    {
        Keccak224Hasher::new()
    }
}

impl Hasher for Keccak224Hasher {
    type Digest = KeccakDigest<28>;

    closed spec fn wf(&self) -> bool {
        &&& self.transcript@.bytes() == keccak224_absorbed(self.state)
    }

    closed spec fn transcript(&self) -> Transcript {
        self.transcript@
    }

    open spec fn capacity() -> Option<nat> {
        None
    }

    open spec fn framed() -> bool {
        false
    }

    open spec fn digest_of(transcript: Transcript) -> Seq<u8> {
        keccak224_digest(transcript.bytes())
    }

    proof fn lemma_within_capacity(&self) {
    }

    proof fn lemma_bytes_decide(a: Transcript, b: Transcript) {
    }

    fn update(&mut self, input: &[u8]) -> (r: Result<(), Error>) {
        keccak224_update(&mut self.state, input);
        self.transcript = Ghost(self.transcript@.absorb(input@));
        Ok(())
    }

    fn finalize(&self) -> (digest: KeccakDigest<28>) {
        KeccakDigest::from(keccak224_finalize(&self.state))
    }

    fn reset(&mut self) {
        keccak224_reset(&mut self.state);
        self.transcript = Ghost(Transcript::Fresh);
    }
}

/// The running state of Keccak-256 in the `sha3` crate. Nothing here looks inside it.
#[verifier::external_type_specification]
#[verifier::external_body]
pub struct ExKeccak256(::sha3::Keccak256);

/// The bytes that a `sha3::Keccak256` has taken in since it was made or last reset.
pub uninterp spec fn keccak256_absorbed(state: ::sha3::Keccak256) -> Seq<u8>;

/// The 32 bytes that `digest::Digest::finalize` gives for a `sha3::Keccak256` that has taken in
/// `data`.
pub uninterp spec fn keccak256_digest(data: Seq<u8>) -> Seq<u8>;

/// `digest::Digest::new` for `sha3::Keccak256`: the state that it gives has taken nothing in.
#[verifier::external_body]
fn keccak256_new() -> (state: ::sha3::Keccak256)
    ensures
        keccak256_absorbed(state) == Seq::<u8>::empty(),
{
    ::digest::Digest::new()
}

/// `digest::Digest::update` for `sha3::Keccak256`: the state has then taken in `input` after what
/// it had taken in before.
#[verifier::external_body]
fn keccak256_update(state: &mut ::sha3::Keccak256, input: &[u8])
    ensures
        keccak256_absorbed(*final(state)) == keccak256_absorbed(*old(state)) + input@,
{
    ::digest::Digest::update(state, input)
}

/// `digest::Digest::finalize` on a clone of a `sha3::Keccak256`: the digest of what the state has
/// taken in. The state itself is not touched.
#[verifier::external_body]
fn keccak256_finalize(state: &::sha3::Keccak256) -> (out: [u8; 32])
    ensures
        out@ == keccak256_digest(keccak256_absorbed(*state)),
{
    let mut out = [0u8; 32];
    out.copy_from_slice(&::digest::Digest::finalize(state.clone()));
    out
}

/// `digest::Digest::reset` for `sha3::Keccak256`: the state is then as one just made.
#[verifier::external_body]
fn keccak256_reset(state: &mut ::sha3::Keccak256)
    ensures
        keccak256_absorbed(*final(state)) == Seq::<u8>::empty(),
{
    ::digest::Digest::reset(state)
}

/// The Keccak-256 hasher.
#[allow(non_camel_case_types)]
pub struct Keccak256Hasher {
    state: ::sha3::Keccak256,
    transcript: Ghost<Transcript>,
}

impl Keccak256Hasher {
    /// A hasher that has taken nothing in.
    pub fn new() -> (hasher: Self)
        ensures
            hasher.wf(),
            hasher.transcript() == Transcript::Fresh,
    {
        Keccak256Hasher { state: keccak256_new(), transcript: Ghost(Transcript::Fresh) }
    }
}

impl Default for Keccak256Hasher {
    fn default() -> (hasher: Self)
        ensures
            hasher.wf(),
            hasher.transcript() == Transcript::Fresh,
    {
        Keccak256Hasher::new()
    }
}

impl Hasher for Keccak256Hasher {
    type Digest = KeccakDigest<32>;

    closed spec fn wf(&self) -> bool {
        &&& self.transcript@.bytes() == keccak256_absorbed(self.state)
    }

    closed spec fn transcript(&self) -> Transcript {
        self.transcript@
    }

    open spec fn capacity() -> Option<nat> {
        None
    }

    open spec fn framed() -> bool {
        false
    }

    open spec fn digest_of(transcript: Transcript) -> Seq<u8> {
        keccak256_digest(transcript.bytes())
    }

    proof fn lemma_within_capacity(&self) {
    }

    proof fn lemma_bytes_decide(a: Transcript, b: Transcript) {
    }

    fn update(&mut self, input: &[u8]) -> (r: Result<(), Error>) {
        keccak256_update(&mut self.state, input);
        self.transcript = Ghost(self.transcript@.absorb(input@));
        Ok(())
    }

    fn finalize(&self) -> (digest: KeccakDigest<32>) {
        KeccakDigest::from(keccak256_finalize(&self.state))
    }

    fn reset(&mut self) {
        keccak256_reset(&mut self.state);
        self.transcript = Ghost(Transcript::Fresh);
    }
}

/// The running state of Keccak-384 in the `sha3` crate. Nothing here looks inside it.
#[verifier::external_type_specification]
#[verifier::external_body]
pub struct ExKeccak384(::sha3::Keccak384);

/// The bytes that a `sha3::Keccak384` has taken in since it was made or last reset.
pub uninterp spec fn keccak384_absorbed(state: ::sha3::Keccak384) -> Seq<u8>;

/// The 48 bytes that `digest::Digest::finalize` gives for a `sha3::Keccak384` that has taken in
/// `data`.
pub uninterp spec fn keccak384_digest(data: Seq<u8>) -> Seq<u8>;

/// `digest::Digest::new` for `sha3::Keccak384`: the state that it gives has taken nothing in.
#[verifier::external_body]
fn keccak384_new() -> (state: ::sha3::Keccak384)
    ensures
        keccak384_absorbed(state) == Seq::<u8>::empty(),
{
    ::digest::Digest::new()
}

/// `digest::Digest::update` for `sha3::Keccak384`: the state has then taken in `input` after what
/// it had taken in before.
#[verifier::external_body]
fn keccak384_update(state: &mut ::sha3::Keccak384, input: &[u8])
    ensures
        keccak384_absorbed(*final(state)) == keccak384_absorbed(*old(state)) + input@,
{
    ::digest::Digest::update(state, input)
}

/// `digest::Digest::finalize` on a clone of a `sha3::Keccak384`: the digest of what the state has
/// taken in. The state itself is not touched.
#[verifier::external_body]
fn keccak384_finalize(state: &::sha3::Keccak384) -> (out: [u8; 48])
    ensures
        out@ == keccak384_digest(keccak384_absorbed(*state)),
{
    let mut out = [0u8; 48];
    out.copy_from_slice(&::digest::Digest::finalize(state.clone()));
    out
}

/// `digest::Digest::reset` for `sha3::Keccak384`: the state is then as one just made.
#[verifier::external_body]
fn keccak384_reset(state: &mut ::sha3::Keccak384)
    ensures
        keccak384_absorbed(*final(state)) == Seq::<u8>::empty(),
{
    ::digest::Digest::reset(state)
}

/// The Keccak-384 hasher.
#[allow(non_camel_case_types)]
pub struct Keccak384Hasher {
    state: ::sha3::Keccak384,
    transcript: Ghost<Transcript>,
}

impl Keccak384Hasher {
    /// A hasher that has taken nothing in.
    pub fn new() -> (hasher: Self)
        ensures
            hasher.wf(),
            hasher.transcript() == Transcript::Fresh,
    {
        Keccak384Hasher { state: keccak384_new(), transcript: Ghost(Transcript::Fresh) }
    }
}

impl Default for Keccak384Hasher {
    fn default() -> (hasher: Self)
        ensures
            hasher.wf(),
            hasher.transcript() == Transcript::Fresh,
    {
        Keccak384Hasher::new()
    }
}

impl Hasher for Keccak384Hasher {
    type Digest = KeccakDigest<48>;

    closed spec fn wf(&self) -> bool {
        &&& self.transcript@.bytes() == keccak384_absorbed(self.state)
    }

    closed spec fn transcript(&self) -> Transcript {
        self.transcript@
    }

    open spec fn capacity() -> Option<nat> {
        None
    }

    open spec fn framed() -> bool {
        false
    }

    open spec fn digest_of(transcript: Transcript) -> Seq<u8> {
        keccak384_digest(transcript.bytes())
    }

    proof fn lemma_within_capacity(&self) {
    }

    proof fn lemma_bytes_decide(a: Transcript, b: Transcript) {
    }

    fn update(&mut self, input: &[u8]) -> (r: Result<(), Error>) {
        keccak384_update(&mut self.state, input);
        self.transcript = Ghost(self.transcript@.absorb(input@));
        Ok(())
    }

    fn finalize(&self) -> (digest: KeccakDigest<48>) {
        KeccakDigest::from(keccak384_finalize(&self.state))
    }

    fn reset(&mut self) {
        keccak384_reset(&mut self.state);
        self.transcript = Ghost(Transcript::Fresh);
    }
}

/// The running state of Keccak-512 in the `sha3` crate. Nothing here looks inside it.
#[verifier::external_type_specification]
#[verifier::external_body]
pub struct ExKeccak512(::sha3::Keccak512);

/// The bytes that a `sha3::Keccak512` has taken in since it was made or last reset.
pub uninterp spec fn keccak512_absorbed(state: ::sha3::Keccak512) -> Seq<u8>;

/// The 64 bytes that `digest::Digest::finalize` gives for a `sha3::Keccak512` that has taken in
/// `data`.
pub uninterp spec fn keccak512_digest(data: Seq<u8>) -> Seq<u8>;

/// `digest::Digest::new` for `sha3::Keccak512`: the state that it gives has taken nothing in.
#[verifier::external_body]
fn keccak512_new() -> (state: ::sha3::Keccak512)
    ensures
        keccak512_absorbed(state) == Seq::<u8>::empty(),
{
    ::digest::Digest::new()
}

/// `digest::Digest::update` for `sha3::Keccak512`: the state has then taken in `input` after what
/// it had taken in before.
#[verifier::external_body]
fn keccak512_update(state: &mut ::sha3::Keccak512, input: &[u8])
    ensures
        keccak512_absorbed(*final(state)) == keccak512_absorbed(*old(state)) + input@,
{
    ::digest::Digest::update(state, input)
}

/// `digest::Digest::finalize` on a clone of a `sha3::Keccak512`: the digest of what the state has
/// taken in. The state itself is not touched.
#[verifier::external_body]
fn keccak512_finalize(state: &::sha3::Keccak512) -> (out: [u8; 64])
    ensures
        out@ == keccak512_digest(keccak512_absorbed(*state)),
{
    let mut out = [0u8; 64];
    out.copy_from_slice(&::digest::Digest::finalize(state.clone()));
    out
}

/// `digest::Digest::reset` for `sha3::Keccak512`: the state is then as one just made.
#[verifier::external_body]
fn keccak512_reset(state: &mut ::sha3::Keccak512)
    ensures
        keccak512_absorbed(*final(state)) == Seq::<u8>::empty(),
{
    ::digest::Digest::reset(state)
}

/// The Keccak-512 hasher.
#[allow(non_camel_case_types)]
pub struct Keccak512Hasher {
    state: ::sha3::Keccak512,
    transcript: Ghost<Transcript>,
}

impl Keccak512Hasher {
    /// A hasher that has taken nothing in.
    pub fn new() -> (hasher: Self)
        ensures
            hasher.wf(),
            hasher.transcript() == Transcript::Fresh,
    {
        Keccak512Hasher { state: keccak512_new(), transcript: Ghost(Transcript::Fresh) }
    }
}

impl Default for Keccak512Hasher {
    fn default() -> (hasher: Self)
        ensures
            hasher.wf(),
            hasher.transcript() == Transcript::Fresh,
    {
        Keccak512Hasher::new()
    }
}

impl Hasher for Keccak512Hasher {
    type Digest = KeccakDigest<64>;

    closed spec fn wf(&self) -> bool {
        &&& self.transcript@.bytes() == keccak512_absorbed(self.state)
    }

    closed spec fn transcript(&self) -> Transcript {
        self.transcript@
    }

    open spec fn capacity() -> Option<nat> {
        None
    }

    open spec fn framed() -> bool {
        false
    }

    open spec fn digest_of(transcript: Transcript) -> Seq<u8> {
        keccak512_digest(transcript.bytes())
    }

    proof fn lemma_within_capacity(&self) {
    }

    proof fn lemma_bytes_decide(a: Transcript, b: Transcript) {
    }

    fn update(&mut self, input: &[u8]) -> (r: Result<(), Error>) {
        keccak512_update(&mut self.state, input);
        self.transcript = Ghost(self.transcript@.absorb(input@));
        Ok(())
    }

    fn finalize(&self) -> (digest: KeccakDigest<64>) {
        KeccakDigest::from(keccak512_finalize(&self.state))
    }

    fn reset(&mut self) {
        keccak512_reset(&mut self.state);
        self.transcript = Ghost(Transcript::Fresh);
    }
}

} // verus!
