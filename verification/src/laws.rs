//! What holds of every hasher, proved from the contract of `Hasher` alone.
use crate::hasher::{joined, Digest, Hasher, Transcript};
use vstd::prelude::*;

verus! {

/// The digest that a hasher of type `H` gives after one call of `update` for each of `chunks` in
/// turn, where its transcript was `start` before them; `None` where one of the calls is turned
/// down.
pub open spec fn digest_after<H: Hasher>(start: Transcript, chunks: Seq<Seq<u8>>) -> Option<
    Seq<u8>,
> {
    match start.feed(H::capacity(), chunks) {
        Some(end) => Some(H::digest_of(end)),
        None => None,
    }
}

/// Two calls of `update` leave the transcript that one call with both inputs leaves.
pub proof fn lemma_absorb_twice(start: Transcript, a: Seq<u8>, b: Seq<u8>)
    ensures
        start.absorb(a).absorb(b) == start.absorb(a + b),
{
    assert((start.bytes() + a) + b =~= start.bytes() + (a + b));
}

/// One or more calls of `update` are all taken exactly where a single call with all their bytes is
/// taken, and they leave the transcript that the single call leaves.
pub proof fn lemma_feed_joined(start: Transcript, capacity: Option<nat>, chunks: Seq<Seq<u8>>)
    requires
        chunks.len() > 0,
    ensures
        start.feed(capacity, chunks) is Some <==> start.fits(capacity, joined(chunks)),
        start.feed(capacity, chunks) is Some ==> start.feed(capacity, chunks) == Some(
            start.absorb(joined(chunks)),
        ),
    decreases chunks.len(),
{
    let init = chunks.drop_last();
    let last = chunks.last();
    if init.len() == 0 {
        assert(joined(init) + last =~= last);
    } else {
        lemma_feed_joined(start, capacity, init);
        lemma_absorb_twice(start, joined(init), last);
    }
}

/// Determinism under chunking: two runs of `update` calls that hand over the same bytes in all, cut
/// into chunks in different ways, are both taken or both turned down, and lead from one transcript
/// to one digest. A framed hasher tells no call from some calls, so for it both runs are empty or
/// neither is. `start` is within the hasher's capacity, as the transcript of every hasher is.
pub proof fn lemma_chunking_immaterial<H: Hasher>(
    start: Transcript,
    first: Seq<Seq<u8>>,
    second: Seq<Seq<u8>>,
)
    requires
        start.fits(H::capacity(), Seq::empty()),
        joined(first) == joined(second),
        H::framed() ==> (first.len() == 0 <==> second.len() == 0),
    ensures
        digest_after::<H>(start, first) == digest_after::<H>(start, second),
{
    if first.len() > 0 {
        lemma_feed_joined(start, H::capacity(), first);
    }
    if second.len() > 0 {
        lemma_feed_joined(start, H::capacity(), second);
    }
    if first.len() == 0 && second.len() > 0 {
        assert(start.absorb(joined(second)).bytes() =~= start.bytes());
        H::lemma_bytes_decide(start.absorb(joined(second)), start);
    }
    if second.len() == 0 && first.len() > 0 {
        assert(start.absorb(joined(first)).bytes() =~= start.bytes());
        H::lemma_bytes_decide(start.absorb(joined(first)), start);
    }
}

/// Reset equivalence: a hasher after `reset` and a hasher just made both have the transcript
/// `Fresh`, and whatever calls of `update` follow, the same of them are taken and the same digest
/// comes out of both.
pub proof fn lemma_reset_equivalence<H: Hasher>(recycled: H, made: H, chunks: Seq<Seq<u8>>)
    requires
        recycled.transcript() == Transcript::Fresh,
        made.transcript() == Transcript::Fresh,
    ensures
        recycled.transcript().feed(H::capacity(), chunks) == made.transcript().feed(
            H::capacity(),
            chunks,
        ),
        digest_after::<H>(recycled.transcript(), chunks) == digest_after::<H>(
            made.transcript(),
            chunks,
        ),
{
}

/// Finalize purity: two digests that `finalize` gives for one hasher, with no `update` or `reset`
/// between them, hold the same bytes.
pub proof fn lemma_finalize_repeatable<H: Hasher>(hasher: H, first: H::Digest, second: H::Digest)
    requires
        first.bytes() == H::digest_of(hasher.transcript()),
        second.bytes() == H::digest_of(hasher.transcript()),
    ensures
        first.bytes() == second.bytes(),
{
}

} // verus!
