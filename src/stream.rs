use vstd::prelude::*;

use crate::error::Error;

verus! {

/// The bytes of a chunk, or the error that ended the stream.
pub open spec fn item_view(item: Result<Vec<u8>, Error>) -> Result<Seq<u8>, Error> {
    match item {
        Ok(chunk) => Ok(chunk@),
        Err(e) => Err(e),
    }
}

/// One step of draining: an error is terminal, a chunk is appended.
pub open spec fn drain_step(acc: Result<Seq<u8>, Error>, item: Result<Seq<u8>, Error>) -> Result<
    Seq<u8>,
    Error,
> {
    match acc {
        Err(e) => Err(e),
        Ok(bytes) => match item {
            Err(e) => Err(e),
            Ok(chunk) => Ok(bytes + chunk),
        },
    }
}

/// What a stream with the given items drains to: the concatenation of its
/// chunks, or the first error among them.
pub open spec fn drained(items: Seq<Result<Seq<u8>, Error>>) -> Result<Seq<u8>, Error>
    decreases items.len(),
{
    if items.len() == 0 {
        Ok(Seq::empty())
    } else {
        drain_step(drained(items.drop_last()), items.last())
    }
}

/// The items of a stream, as bytes and errors.
pub open spec fn items_view(items: Seq<Result<Vec<u8>, Error>>) -> Seq<Result<Seq<u8>, Error>> {
    items.map_values(|item: Result<Vec<u8>, Error>| item_view(item))
}

/// When the items before `i` are chunks and item `i` is an error, the stream
/// drains to that error, whatever follows it.
pub proof fn lemma_first_error_ends_stream(items: Seq<Result<Seq<u8>, Error>>, i: int)
    requires
        0 <= i < items.len(),
        items[i] is Err,
        forall|j: int| 0 <= j < i ==> (#[trigger] items[j]) is Ok,
    ensures
        drained(items) == items[i],
    decreases items.len(),
{
    if i < items.len() - 1 {
        lemma_first_error_ends_stream(items.drop_last(), i);
        assert(items.drop_last()[i] == items[i]);
    } else {
        lemma_all_chunks_drain_ok(items.drop_last());
    }
}

/// A stream whose items are all chunks drains to their concatenation.
pub proof fn lemma_all_chunks_drain_ok(items: Seq<Result<Seq<u8>, Error>>)
    requires
        forall|j: int| 0 <= j < items.len() ==> (#[trigger] items[j]) is Ok,
    ensures
        drained(items) is Ok,
    decreases items.len(),
{
    if items.len() > 0 {
        let init = items.drop_last();
        assert forall|j: int| 0 <= j < init.len() implies (#[trigger] init[j]) is Ok by {
            assert(init[j] == items[j]);
        }
        lemma_all_chunks_drain_ok(init);
    }
}

/// Drains a stream item by item, as they arrive. Once an error has come,
/// the collector is closed: it keeps that error and takes no further bytes.
#[derive(Debug)]
pub struct Collector {
    bytes: Vec<u8>,
    failure: Option<Error>,
}

impl Collector {
    /// What has been drained so far.
    pub closed spec fn outcome(&self) -> Result<Seq<u8>, Error> {
        match self.failure {
            Some(e) => Err(e),
            None => Ok(self.bytes@),
        }
    }

    pub fn new() -> (r: Collector)
        ensures
            r.outcome() == drained(Seq::empty()),
    {
        Collector { bytes: Vec::new(), failure: None }
    }

    /// Whether the stream has ended in an error, so that no item need be read.
    pub fn is_closed(&self) -> (r: bool)
        ensures
            r == self.outcome() is Err,
    {
        self.failure.is_some()
    }

    pub fn push(&mut self, item: Result<Vec<u8>, Error>)
        ensures
            final(self).outcome() == drain_step(old(self).outcome(), item_view(item)),
    {
        if self.failure.is_none() {
            match item {
                Ok(mut chunk) => {
                    self.bytes.append(&mut chunk);
                },
                Err(e) => {
                    self.failure = Some(e);
                },
            }
        }
    }

    pub fn finish(self) -> (r: Result<Vec<u8>, Error>)
        ensures
            item_view(r) == self.outcome(),
    {
        match self.failure {
            Some(e) => Err(e),
            None => Ok(self.bytes),
        }
    }
}

/// Drains a whole stream into one buffer, stopping at the first error.
pub fn stream_to_bytes(items: Vec<Result<Vec<u8>, Error>>) -> (r: Result<Vec<u8>, Error>)
    ensures
        item_view(r) == drained(items_view(items@)),
{
    let mut collector = Collector::new();
    let ghost all = items_view(items@);
    for item in it: items.into_iter()
        invariant
            it.seq() == items@,
            all == items_view(items@),
            collector.outcome() == drained(all.subrange(0, it.index() as int)),
    {
        proof {
            let k = it.index() as int;
            assert(all.subrange(0, k + 1).drop_last() =~= all.subrange(0, k));
        }
        collector.push(item);
    }
    proof {
        assert(all.subrange(0, all.len() as int) =~= all);
    }
    collector.finish()
}

} // verus!
