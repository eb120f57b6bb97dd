//! The contract that every hasher of this crate keeps, and the model it is stated over.
use vstd::prelude::*;

verus! {

/// Why a hasher turned a request down.
#[derive(Clone, Copy, Debug, PartialEq, Eq, Structural)]
pub enum Error {
    /// The input would take the hasher past the number of bytes it can hold.
    CapacityExceeded,
    /// The algorithm has no digest of the length asked for.
    UnsupportedLength,
}

/// A digest: a byte string whose length is fixed by its type.
pub trait Digest: Sized {
    /// The number of bytes of every digest of this type.
    spec fn size() -> nat;

    /// The bytes of the digest, in order.
    spec fn bytes(&self) -> Seq<u8>;

    /// A digest has as many bytes as its type says.
    proof fn lemma_size(&self)
        ensures
            self.bytes().len() == Self::size(),
    ;

    /// The bytes as a slice.
    fn as_bytes(&self) -> (out: &[u8])
        ensures
            out@ == self.bytes(),
            out@.len() == Self::size(),
    ;
}

/// What a hasher has taken in since it was made or last reset.
pub enum Transcript {
    /// No call of `update` yet.
    Fresh,
    /// At least one call of `update`; the bytes of all the calls, in order.
    Accumulating(Seq<u8>),
}

/// All the bytes of `chunks`, in order.
pub open spec fn joined(chunks: Seq<Seq<u8>>) -> Seq<u8>
    decreases chunks.len(),
{
    if chunks.len() == 0 {
        Seq::empty()
    } else {
        joined(chunks.drop_last()) + chunks.last()
    }
}

impl Transcript {
    /// The bytes taken in so far.
    pub open spec fn bytes(self) -> Seq<u8> {
        match self {
            Transcript::Fresh => Seq::empty(),
            Transcript::Accumulating(bytes) => bytes,
        }
    }

    /// Whether a hasher that holds at most `capacity` bytes (`None`: any number) takes `input`
    /// after this transcript.
    pub open spec fn fits(self, capacity: Option<nat>, input: Seq<u8>) -> bool {
        match capacity {
            Some(most) => self.bytes().len() + input.len() <= most,
            None => true,
        }
    }

    /// The transcript after one more call of `update`, with `input`.
    pub open spec fn absorb(self, input: Seq<u8>) -> Transcript {
        Transcript::Accumulating(self.bytes() + input)
    }

    /// The transcript after one call of `update` for each of `chunks` in turn, made on a hasher of
    /// the given capacity; `None` where one of the calls is turned down.
    pub open spec fn feed(self, capacity: Option<nat>, chunks: Seq<Seq<u8>>) -> Option<Transcript>
        decreases chunks.len(),
    {
        if chunks.len() == 0 {
            Some(self)
        } else {
            match self.feed(capacity, chunks.drop_last()) {
                Some(before) => if before.fits(capacity, chunks.last()) {
                    Some(before.absorb(chunks.last()))
                } else {
                    None
                },
                None => None,
            }
        }
    }
}

/// A hasher: it takes bytes in by `update`, gives the digest of what it has taken in by `finalize`,
/// and forgets it by `reset`.
pub trait Hasher: Sized {
    /// The digests that the hasher gives.
    type Digest: Digest;

    /// Whether the hasher's parts agree with each other. Every hasher that this crate hands out is
    /// well formed, and every method keeps it so.
    spec fn wf(&self) -> bool;

    /// What the hasher has taken in since it was made or last reset.
    spec fn transcript(&self) -> Transcript;

    /// The most bytes that the hasher takes in between two resets; `None` where there is no bound.
    spec fn capacity() -> Option<nat>;

    /// Whether the digest tells a hasher that was never updated from one that was updated with no
    /// bytes.
    spec fn framed() -> bool;

    /// The digest that belongs to a transcript.
    spec fn digest_of(transcript: Transcript) -> Seq<u8>;

    /// A well-formed hasher has taken in no more than its capacity.
    proof fn lemma_within_capacity(&self)
        requires
            self.wf(),
        ensures
            self.transcript().fits(Self::capacity(), Seq::empty()),
    ;

    /// Where the hasher is not framed, the bytes taken in decide the digest.
    proof fn lemma_bytes_decide(a: Transcript, b: Transcript)
        requires
            a.bytes() == b.bytes(),
        ensures
            !Self::framed() ==> Self::digest_of(a) == Self::digest_of(b),
    ;

    /// Takes `input` in, after what was taken in before. Input that does not fit is turned down as
    /// a whole, and the hasher stays as it was.
    fn update(&mut self, input: &[u8]) -> (r: Result<(), Error>)
        requires
            old(self).wf(),
        ensures
            final(self).wf(),
            r is Ok <==> old(self).transcript().fits(Self::capacity(), input@),
            r is Ok ==> final(self).transcript() == old(self).transcript().absorb(input@),
            r is Err ==> r == Err::<(), Error>(Error::CapacityExceeded),
            r is Err ==> *final(self) == *old(self),
    ;

    /// The digest of what was taken in so far. The hasher stays as it was.
    fn finalize(&self) -> (digest: Self::Digest)
        requires
            self.wf(),
        ensures
            digest.bytes() == Self::digest_of(self.transcript()),
            digest.bytes().len() == Self::Digest::size(),
    ;

    /// Forgets what was taken in: the hasher is again as one just made.
    fn reset(&mut self)
        requires
            old(self).wf(),
        ensures
            final(self).wf(),
            final(self).transcript() == Transcript::Fresh,
    ;
}

} // verus!
