//! Collection of a request body that arrives in chunks, under a hard limit on
//! the bytes held.

use crate::buffer::bytes_as_slice;
use crate::buffer::bytes_contents;
use crate::buffer::bytes_mut_contents;
use crate::error::ServiceError;
use crate::limits::MAX_SIZE;
use bytes::Bytes;
use bytes::BytesMut;
use vstd::prelude::*;

verus! {

/// What the inbound stream yields before it ends.
#[derive(Debug)]
pub enum StreamItem {
    /// The next bytes of the body.
    Chunk(Bytes),
    /// The transport failed; the text describes the fault.
    Fault(String),
}

/// The bytes of all chunks among `items`, in the order of arrival.
pub open spec fn joined(items: Seq<StreamItem>) -> Seq<u8>
    decreases items.len(),
{
    if items.len() == 0 {
        Seq::empty()
    } else {
        match items.last() {
            StreamItem::Chunk(chunk) => joined(items.drop_last()) + bytes_contents(chunk),
            StreamItem::Fault(_) => joined(items.drop_last()),
        }
    }
}

/// Whether no item of the stream is a fault.
pub open spec fn all_chunks(items: Seq<StreamItem>) -> bool {
    forall|i: int| 0 <= i < items.len() ==> #[trigger] items[i] is Chunk
}

/// What one item does to the bytes collected so far: a chunk that fits is
/// appended, one that would take the body over the limit is an overflow, and
/// a fault of the transport is passed on.
pub open spec fn after_item(body: Seq<u8>, item: StreamItem) -> Result<Seq<u8>, ServiceError> {
    match item {
        StreamItem::Chunk(chunk) => {
            if body.len() + bytes_contents(chunk).len() > MAX_SIZE {
                Err(ServiceError::Overflow)
            } else {
                Ok(body + bytes_contents(chunk))
            }
        },
        StreamItem::Fault(detail) => Err(ServiceError::StreamReadError(detail)),
    }
}

/// The outcome of collecting a whole stream that ends cleanly after `items`:
/// the items are taken in order, and the first that fails ends the
/// collection with its error.
pub open spec fn collected(items: Seq<StreamItem>) -> Result<Seq<u8>, ServiceError>
    decreases items.len(),
{
    if items.len() == 0 {
        Ok(Seq::empty())
    } else {
        match collected(items.drop_last()) {
            Ok(body) => after_item(body, items.last()),
            Err(error) => Err(error),
        }
    }
}

/// The body of one request while it is being read. It never holds more than
/// `MAX_SIZE` bytes.
pub struct BodyCollector {
    buffer: BytesMut,
}

impl View for BodyCollector {
    type V = Seq<u8>;

    /// The bytes collected so far, in the order of arrival.
    closed spec fn view(&self) -> Seq<u8> {
        bytes_mut_contents(self.buffer)
    }
}

impl BodyCollector {
    #[verifier::type_invariant]
    spec fn within_limit(self) -> bool {
        bytes_mut_contents(self.buffer).len() <= MAX_SIZE
    }

    /// A collector that holds nothing yet.
    pub fn new() -> (collector: Self)
        ensures
            collector@ == Seq::<u8>::empty(),
    {
        BodyCollector { buffer: BytesMut::new() }
    }

    /// The number of bytes collected so far.
    pub fn len(&self) -> (n: usize)
        ensures
            n == self@.len(),
            n <= MAX_SIZE,
    {
        proof {
            use_type_invariant(self);
        }
        self.buffer.len()
    }

    /// Takes the next chunk. It is appended when the body stays within the
    /// limit; otherwise the chunk is refused as a whole and the collector
    /// keeps what it had.
    pub fn push(&mut self, chunk: &Bytes) -> (taken: Result<(), ServiceError>)
        ensures
            if old(self)@.len() + bytes_contents(*chunk).len() <= MAX_SIZE {
                taken is Ok && final(self)@ == old(self)@ + bytes_contents(*chunk)
            } else {
                taken == Err::<(), ServiceError>(ServiceError::Overflow) && final(self)@ == old(self)@
            },
    {
        proof {
            use_type_invariant(&*self);
        }
        let bytes = bytes_as_slice(chunk);
        let held = self.buffer.len();
        if bytes.len() > MAX_SIZE - held {
            return Err(ServiceError::Overflow);
        }
        let mut buffer = BytesMut::new();
        std::mem::swap(&mut buffer, &mut self.buffer);
        buffer.extend_from_slice(bytes);
        self.buffer = buffer;
        Ok(())
    }

    /// Takes the next item of the stream: a chunk as `push` does, a fault as
    /// the error that ends the collection.
    pub fn accept(&mut self, item: &StreamItem) -> (taken: Result<(), ServiceError>)
        ensures
            match after_item(old(self)@, *item) {
                Ok(body) => taken is Ok && final(self)@ == body,
                Err(error) => taken == Err::<(), ServiceError>(error) && final(self)@ == old(self)@,
            },
    {
        match item {
            StreamItem::Chunk(chunk) => self.push(chunk),
            StreamItem::Fault(detail) => Err(ServiceError::StreamReadError(detail.clone())),
        }
    }

    /// Ends the collection at the clean end of the stream and hands out the
    /// body, which may be empty.
    pub fn finish(self) -> (body: Bytes)
        ensures
            bytes_contents(body) == self@,
            bytes_contents(body).len() <= MAX_SIZE,
    {
        proof {
            use_type_invariant(&self);
        }
        self.buffer.freeze()
    }
}

/// Collects a stream that ended cleanly after `stream`: the chunks are joined
/// in the order of arrival, and the first item that fails ends the collection.
pub fn extract_payload(stream: &Vec<StreamItem>) -> (outcome: Result<Bytes, ServiceError>)
    ensures
        match outcome {
            Ok(body) => collected(stream@) == Ok::<Seq<u8>, ServiceError>(bytes_contents(body)),
            Err(error) => collected(stream@) == Err::<Seq<u8>, ServiceError>(error),
        },
{
    let mut collector = BodyCollector::new();
    let mut i: usize = 0;
    assert(stream@.take(0) =~= Seq::<StreamItem>::empty());
    while i < stream.len()
        invariant
            i <= stream.len(),
            collected(stream@.take(i as int)) == Ok::<Seq<u8>, ServiceError>(collector@),
        decreases stream.len() - i,
    {
        proof {
            assert(stream@.take(i + 1).drop_last() =~= stream@.take(i as int));
            assert(stream@.take(i + 1).last() == stream@[i as int]);
        }
        match collector.accept(&stream[i]) {
            Ok(()) => {},
            Err(error) => {
                proof {
                    lemma_failure_stays(stream@, i + 1);
                }
                return Err(error);
            },
        }
        i += 1;
    }
    assert(stream@.take(i as int) =~= stream@);
    Ok(collector.finish())
}

/// Once a prefix of the stream has failed, the whole stream fails in the same
/// way: nothing after the first failure is looked at.
pub proof fn lemma_failure_stays(items: Seq<StreamItem>, n: int)
    requires
        0 <= n <= items.len(),
        collected(items.take(n)) is Err,
    ensures
        collected(items) == collected(items.take(n)),
    decreases items.len(),
{
    if n == items.len() {
        assert(items.take(n) =~= items);
    } else {
        assert(items.drop_last().take(n) =~= items.take(n));
        lemma_failure_stays(items.drop_last(), n);
    }
}

/// A stream in which nothing fails is collected to the bytes of its chunks,
/// joined in the order of arrival.
pub proof fn lemma_collected_body_is_joined_chunks(items: Seq<StreamItem>)
    requires
        collected(items) is Ok,
    ensures
        all_chunks(items),
        collected(items)->Ok_0 == joined(items),
        joined(items).len() <= MAX_SIZE,
    decreases items.len(),
{
    if items.len() > 0 {
        let before = items.drop_last();
        lemma_collected_body_is_joined_chunks(before);
        assert forall|i: int| 0 <= i < items.len() implies #[trigger] items[i] is Chunk by {
            if i < before.len() {
                assert(before[i] is Chunk);
            }
        }
    }
}

/// A stream of chunks alone is collected exactly when its bytes are within
/// the limit; otherwise the collection ends in an overflow. How the bytes are
/// cut into chunks makes no difference.
pub proof fn lemma_chunks_are_collected_within_limit(items: Seq<StreamItem>)
    requires
        all_chunks(items),
    ensures
        collected(items) == (if joined(items).len() <= MAX_SIZE {
            Ok::<Seq<u8>, ServiceError>(joined(items))
        } else {
            Err::<Seq<u8>, ServiceError>(ServiceError::Overflow)
        }),
    decreases items.len(),
{
    if items.len() > 0 {
        let before = items.drop_last();
        assert forall|i: int| 0 <= i < before.len() implies #[trigger] before[i] is Chunk by {
            assert(items[i] is Chunk);
        }
        lemma_chunks_are_collected_within_limit(before);
        assert(items[items.len() - 1] is Chunk);
    }
}

/// As soon as the chunks that have arrived hold more than the limit, the
/// collection is an overflow, whatever the request declared and whatever
/// follows in the stream. The reply has status 400.
pub proof fn lemma_body_over_limit_overflows(items: Seq<StreamItem>, n: int)
    requires
        0 <= n <= items.len(),
        all_chunks(items.take(n)),
        joined(items.take(n)).len() > MAX_SIZE,
    ensures
        collected(items) == Err::<Seq<u8>, ServiceError>(ServiceError::Overflow),
        collected(items)->Err_0.spec_status() == 400,
{
    lemma_chunks_are_collected_within_limit(items.take(n));
    lemma_failure_stays(items, n);
}

/// A collection that fails is answered with status 400.
pub proof fn lemma_failed_collection_is_client_fault(items: Seq<StreamItem>)
    requires
        collected(items) is Err,
    ensures
        collected(items)->Err_0.spec_status() == 400,
        collected(items)->Err_0 is Overflow || collected(items)->Err_0 is StreamReadError,
    decreases items.len(),
{
    if items.len() > 0 && collected(items.drop_last()) is Err {
        lemma_failed_collection_is_client_fault(items.drop_last());
    }
}

} // verus!
