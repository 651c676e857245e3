//! Byte source and sink collaborators.
//!
//! The adapters are generic over these two contracts: a pull side that fills
//! a caller's buffer with up to its length in bytes, and a push side that
//! accepts a prefix of what it is offered — standard partial-read and
//! partial-write semantics. Each side carries a spec-level model of the bytes
//! that have crossed it (`served`, `taken`) and of the failures it can have,
//! so that what an adapter hands on or passes through can be stated exactly.
//! `SliceSource` and `VecSink` are the in-memory implementations the one-shot
//! helpers build on.

use vstd::prelude::*;
use crate::error::LzmaError;

verus! {

/// A pull-based byte collaborator: each read fills a prefix of the caller's
/// buffer and reports how many bytes it placed there. A read of zero bytes
/// into a non-empty buffer means end of data.
pub trait ByteSource {
    /// The implementation's own validity condition, preserved by every read.
    spec fn source_inv(&self) -> bool;

    /// The set of errors this source can report. An in-memory source
    /// reports none; one backed by real I/O reports `Io` failures; an
    /// adapter reports its own classified kinds besides what its wrapped
    /// source can. The set never changes over the source's lifetime.
    spec fn fail_set(&self) -> Set<LzmaError>;

    /// The bytes this source has served so far, in order.
    spec fn served(&self) -> Seq<u8>;

    /// Whether this source has reached its true end of data.
    spec fn exhausted(&self) -> bool;

    /// Fills a prefix of `buf` and returns how many bytes were placed,
    /// never more than the buffer holds; the buffer's length is unchanged.
    /// The bytes placed are exactly the ones served; a read of zero bytes
    /// into a non-empty buffer happens only at the true end of data; and an
    /// error is one this source has: errors pass through a chain of sources
    /// unchanged.
    fn read_into(&mut self, buf: &mut Vec<u8>) -> (r: Result<usize, LzmaError>)
        requires
            old(self).source_inv(),
        ensures
            final(self).source_inv(),
            final(self).fail_set() == old(self).fail_set(),
            final(buf)@.len() == old(buf)@.len(),
            r matches Ok(n) ==> n <= old(buf)@.len()
                && final(self).served() == old(self).served()
                    + final(buf)@.subrange(0, n as int),
            (r matches Ok(n) && n == 0 && old(buf)@.len() > 0) ==> final(self).exhausted(),
            r matches Err(e) ==> old(self).fail_set().contains(e),
    ;
}

/// A push-based byte collaborator: each write consumes a prefix of what it
/// is offered and reports how many bytes it took.
pub trait ByteSink {
    /// The implementation's own validity condition, preserved by every write.
    spec fn sink_inv(&self) -> bool;

    /// The set of errors this sink can report. The set never changes over
    /// the sink's lifetime.
    spec fn fail_set(&self) -> Set<LzmaError>;

    /// Whether this sink can take zero bytes of a non-empty offer. The
    /// answer never changes over the sink's lifetime.
    spec fn may_refuse(&self) -> bool;

    /// The bytes this sink has taken so far, in order.
    spec fn taken(&self) -> Seq<u8>;

    /// Consumes a prefix of `buf` and returns how many bytes were taken,
    /// never more than were offered; what was taken is exactly the prefix.
    /// An error is one this sink has; a zero-byte result on a non-empty
    /// offer comes only from a sink that refuses.
    fn write_from(&mut self, buf: &[u8]) -> (r: Result<usize, LzmaError>)
        requires
            old(self).sink_inv(),
        ensures
            final(self).sink_inv(),
            final(self).fail_set() == old(self).fail_set(),
            final(self).may_refuse() == old(self).may_refuse(),
            r matches Ok(n) ==> n <= buf@.len()
                && final(self).taken() == old(self).taken() + buf@.subrange(0, n as int),
            r matches Err(e) ==> old(self).fail_set().contains(e),
            (r matches Ok(n) && n == 0 && buf@.len() > 0) ==> old(self).may_refuse(),
    ;

    /// Passes any buffering of the sink itself through to its destination;
    /// takes no bytes of its own.
    fn flush_out(&mut self) -> (r: Result<(), LzmaError>)
        requires
            old(self).sink_inv(),
        ensures
            final(self).sink_inv(),
            final(self).fail_set() == old(self).fail_set(),
            final(self).may_refuse() == old(self).may_refuse(),
            final(self).taken() == old(self).taken(),
            r matches Err(e) ==> old(self).fail_set().contains(e),
    ;
}

/// The chunk size `read_to_end` pulls with.
pub const READ_CHUNK_SIZE: usize = 4096;

/// Drains a byte source to its end, accumulating everything it serves: the
/// result is exactly the concatenation of the prefixes the source served
/// during the call.
///
/// The source's contract makes a read of zero bytes into a non-empty buffer
/// mean end of data, so that is where the drain stops. An error is one of
/// the source's own, passed through unchanged — except that a source which
/// never ends is surfaced, after a very large number of reads, as the
/// unknown error kind rather than looping forever.
pub fn read_to_end<T: ByteSource>(source: &mut T) -> (r: Result<Vec<u8>, LzmaError>)
    requires
        old(source).source_inv(),
    ensures
        final(source).source_inv(),
        r matches Ok(v) ==> final(source).exhausted()
            && final(source).served() == old(source).served() + v@,
        r matches Err(e) ==> old(source).fail_set().contains(e) || e matches LzmaError::Other,
{
    let mut out: Vec<u8> = Vec::new();
    let mut chunk: Vec<u8> = vec![0u8; READ_CHUNK_SIZE];
    let mut fuel: u64 = u64::MAX;
    while fuel > 0
        invariant
            source.source_inv(),
            source.fail_set() == old(source).fail_set(),
            source.served() == old(source).served() + out@,
            chunk@.len() == READ_CHUNK_SIZE,
        decreases fuel,
    {
        fuel = fuel - 1;
        let ghost served_before = source.served();
        let n: usize = match source.read_into(&mut chunk) {
            Ok(n) => n,
            Err(e) => return Err(e),
        };
        if n == 0 {
            proof {
                assert(chunk@.subrange(0, 0) =~= Seq::<u8>::empty());
                assert(served_before + Seq::<u8>::empty() =~= served_before);
            }
            return Ok(out);
        }
        let produced: &[u8] = vstd::slice::slice_subrange(chunk.as_slice(), 0, n);
        out.extend_from_slice(produced);
        proof {
            assert(source.served() =~= old(source).served() + out@);
        }
    }
    Err(LzmaError::Other)
}

/// An in-memory byte source: a buffer of bytes read front to back.
pub struct SliceSource {
    data: Vec<u8>,
    pos: usize,
}

impl SliceSource {
    /// The bytes this source serves.
    pub closed spec fn spec_data(&self) -> Seq<u8> {
        self.data@
    }

    /// How many bytes have been read so far.
    pub closed spec fn spec_pos(&self) -> int {
        self.pos as int
    }

    /// A source serving `data` from its start.
    pub fn new(data: Vec<u8>) -> (r: SliceSource)
        ensures
            r.source_inv(),
            r.spec_data() == data@,
            r.spec_pos() == 0,
    {
        SliceSource { data, pos: 0 }
    }
}

impl ByteSource for SliceSource {
    open spec fn source_inv(&self) -> bool {
        self.spec_pos() <= self.spec_data().len()
    }

    /// An in-memory source has no failures.
    open spec fn fail_set(&self) -> Set<LzmaError> {
        Set::empty()
    }

    open spec fn served(&self) -> Seq<u8> {
        self.spec_data().take(self.spec_pos())
    }

    /// The buffer's end is the end of data.
    open spec fn exhausted(&self) -> bool {
        self.spec_pos() == self.spec_data().len()
    }

    /// Copies the next bytes of the buffer, as many as fit, and advances.
    fn read_into(&mut self, buf: &mut Vec<u8>) -> (r: Result<usize, LzmaError>)
        ensures
            final(self).spec_data() == old(self).spec_data(),
            r matches Ok(n)
                && n == vstd::math::min(old(buf)@.len() as int, old(self).spec_data().len() - old(self).spec_pos())
                && final(self).spec_pos() == old(self).spec_pos() + n
                && final(buf)@ == old(self).spec_data().subrange(old(self).spec_pos(), old(self).spec_pos() + n)
                    + old(buf)@.skip(n as int),
    {
        let remaining: usize = self.data.len() - self.pos;
        let n: usize = if buf.len() < remaining { buf.len() } else { remaining };
        let mut i: usize = 0;
        while i < n
            invariant
                i <= n,
                n <= buf@.len(),
                *self == *old(self),
                self.pos + n <= self.data@.len(),
                self.pos + n <= usize::MAX,
                buf@.len() == old(buf)@.len(),
                buf@ == old(self).spec_data().subrange(old(self).spec_pos(), old(self).spec_pos() + i)
                    + old(buf)@.skip(i as int),
            decreases n - i,
        {
            let b: u8 = self.data[self.pos + i];
            buf[i] = b;
            i += 1;
            proof {
                assert(buf@ =~= old(self).spec_data().subrange(
                    old(self).spec_pos(),
                    old(self).spec_pos() + i,
                ) + old(buf)@.skip(i as int));
            }
        }
        self.pos = self.pos + n;
        proof {
            assert(buf@.subrange(0, n as int) =~= old(self).spec_data().subrange(
                old(self).spec_pos(),
                old(self).spec_pos() + n,
            ));
            assert(self.spec_data().take(self.spec_pos()) =~= old(self).served()
                + buf@.subrange(0, n as int));
        }
        Ok(n)
    }
}

/// An in-memory byte sink: a growable buffer that accepts everything.
pub struct VecSink {
    data: Vec<u8>,
}

impl VecSink {
    /// The bytes written so far.
    pub closed spec fn spec_data(&self) -> Seq<u8> {
        self.data@
    }

    /// An empty sink.
    pub fn new() -> (r: VecSink)
        ensures
            r.sink_inv(),
            r.spec_data() == Seq::<u8>::empty(),
    {
        VecSink { data: Vec::new() }
    }

    /// Hands the accumulated bytes back.
    pub fn into_vec(self) -> (r: Vec<u8>)
        ensures
            r@ == self.spec_data(),
    {
        self.data
    }
}

impl ByteSink for VecSink {
    open spec fn sink_inv(&self) -> bool {
        true
    }

    /// An in-memory sink has no failures.
    open spec fn fail_set(&self) -> Set<LzmaError> {
        Set::empty()
    }

    /// An in-memory sink takes everything it is offered.
    open spec fn may_refuse(&self) -> bool {
        false
    }

    open spec fn taken(&self) -> Seq<u8> {
        self.spec_data()
    }

    /// Appends everything it is offered.
    fn write_from(&mut self, buf: &[u8]) -> (r: Result<usize, LzmaError>)
        ensures
            r matches Ok(n) && n == buf@.len(),
            final(self).spec_data() == old(self).spec_data() + buf@,
    {
        self.data.extend_from_slice(buf);
        proof {
            assert(buf@.subrange(0, buf@.len() as int) =~= buf@);
        }
        Ok(buf.len())
    }

    /// Nothing is buffered here; flushing is a no-op.
    fn flush_out(&mut self) -> (r: Result<(), LzmaError>)
        ensures
            final(self).spec_data() == old(self).spec_data(),
            r matches Ok(()),
    {
        Ok(())
    }
}

} // verus!
