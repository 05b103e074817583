//! Collecting a request body: the chunks of the inbound stream are joined, in
//! the order they arrive, into one contiguous buffer.

use vstd::prelude::*;

verus! {

/// The bytes collected so far.
pub struct BodyCollector {
    data: Vec<u8>,
}

impl View for BodyCollector {
    type V = Seq<u8>;

    closed spec fn view(&self) -> Seq<u8> {
        self.data@
    }
}

impl BodyCollector {
    /// A collector that holds nothing yet.
    pub fn new() -> (r: BodyCollector)
        ensures
            r@ == Seq::<u8>::empty(),
    {
        BodyCollector { data: Vec::new() }
    }

    /// Appends the next chunk of the stream.
    pub fn push_chunk(&mut self, chunk: &[u8])
        ensures
            final(self)@ == old(self)@ + chunk@,
    {
        self.data.extend_from_slice(chunk);
    }

    /// The number of bytes collected so far.
    pub fn len(&self) -> (r: usize)
        ensures
            r == self@.len(),
    {
        self.data.len()
    }

    /// Hands the collected body over.
    pub fn finish(self) -> (r: Vec<u8>)
        ensures
            r@ == self@,
    {
        self.data
    }
}

/// The bytes of all chunks, joined in order.
pub open spec fn joined(chunks: Seq<Seq<u8>>) -> Seq<u8>
    decreases chunks.len(),
{
    if chunks.len() == 0 {
        Seq::empty()
    } else {
        joined(chunks.drop_last()) + chunks.last()
    }
}

/// Joins chunks that are already at hand into one body.
pub fn collect_body(chunks: &Vec<Vec<u8>>) -> (r: Vec<u8>)
    ensures
        r@ == joined(chunks.deep_view()),
{
    let mut collector = BodyCollector::new();
    let mut i: usize = 0;
    while i < chunks.len()
        invariant
            i <= chunks.len(),
            collector@ == joined(chunks.deep_view().take(i as int)),
        decreases chunks.len() - i,
    {
        collector.push_chunk(chunks[i].as_slice());
        proof {
            let all = chunks.deep_view();
            assert(all.take(i + 1).drop_last() =~= all.take(i as int));
            assert(all.take(i + 1).last() == chunks[i as int]@);
        }
        i = i + 1;
    }
    proof {
        assert(chunks.deep_view().take(i as int) =~= chunks.deep_view());
    }
    collector.finish()
}

} // verus!
