//! The pull-based adapter: compresses or decompresses a byte source as it is
//! read.
//!
//! The adapter keeps a fixed-capacity staging buffer of bytes pulled from the
//! wrapped source and a window `[buffer_offset, buffer_offset + buffer_len)`
//! of those not yet consumed by the codec; bytes outside the window are
//! garbage. The window invariant — offset plus length never exceeds the
//! capacity — is part of the adapter's well-formedness and is preserved by
//! every operation.

use vstd::prelude::*;
use crate::byteio::ByteSource;
use crate::codes::lzma_action;
use crate::codes::lzma_check;
use crate::codes::lzma_ret;
use crate::error::LzmaError;
use crate::session::CodecSession;
use crate::session::SessionConfig;
use crate::Direction;

verus! {

/// The staging buffer's capacity when none is chosen.
pub const DEFAULT_BUF_SIZE: usize = 4096;

/// A byte source adapter that applies compression or decompression to the
/// bytes of a wrapped source as they are read.
pub struct LzmaReader<T> {
    inner: T,
    session: CodecSession,
    buffer: Vec<u8>,
    buffer_offset: usize,
    buffer_len: usize,
    direction: Direction,
}

impl<T: ByteSource> LzmaReader<T> {
    /// Well-formedness: the staging window lies inside the staging buffer,
    /// and the wrapped source is valid. Constructors establish this and
    /// every operation preserves it.
    pub closed spec fn wf(&self) -> bool {
        &&& self.buffer_offset + self.buffer_len <= self.buffer@.len()
        &&& self.buffer@.len() <= usize::MAX
        &&& self.inner.source_inv()
    }

    /// The adapter's direction, fixed at construction.
    pub closed spec fn spec_direction(&self) -> Direction {
        self.direction
    }

    /// The staging buffer's capacity, fixed at construction.
    pub closed spec fn spec_capacity(&self) -> nat {
        self.buffer@.len()
    }

    /// How many staged bytes await the codec.
    pub closed spec fn spec_window_len(&self) -> nat {
        self.buffer_len as nat
    }

    /// The wrapped source.
    pub closed spec fn spec_inner(&self) -> T {
        self.inner
    }

    /// The codec session, with its ghost observations.
    pub closed spec fn spec_session(&self) -> CodecSession {
        self.session
    }

    /// Whether the codec has reported the end of the stream.
    pub open spec fn spec_stream_ended(&self) -> bool {
        self.spec_session().spec_stream_ended()
    }

    /// An adapter that compresses `inner` at the given preset as it is read.
    pub fn new_compressor(inner: T, preset: u32) -> (r: Result<LzmaReader<T>, LzmaError>)
        requires
            inner.source_inv(),
        ensures
            r matches Ok(rd) ==> rd.wf() && rd.spec_direction() == Direction::Compress
                && rd.spec_capacity() == DEFAULT_BUF_SIZE && rd.spec_inner() == inner
                && rd.spec_window_len() == 0 && !rd.spec_stream_ended()
                && rd.spec_session().spec_produced() == Seq::<u8>::empty()
                && rd.spec_session().spec_config()
                    == (SessionConfig::Encoder { preset, check: lzma_check::LzmaCheckCrc64 }),
            r matches Err(e) ==> !(e matches LzmaError::Io(_)),
    {
        LzmaReader::with_capacity(DEFAULT_BUF_SIZE, inner, Direction::Compress, preset)
    }

    /// An adapter that decompresses `inner` as it is read. Both the stream
    /// container format and its legacy predecessor are recognized.
    pub fn new_decompressor(inner: T) -> (r: Result<LzmaReader<T>, LzmaError>)
        requires
            inner.source_inv(),
        ensures
            r matches Ok(rd) ==> rd.wf() && rd.spec_direction() == Direction::Decompress
                && rd.spec_capacity() == DEFAULT_BUF_SIZE && rd.spec_inner() == inner
                && rd.spec_window_len() == 0 && !rd.spec_stream_ended()
                && rd.spec_session().spec_produced() == Seq::<u8>::empty()
                && rd.spec_session().spec_config()
                    == (SessionConfig::Decoder { memlimit: u64::MAX, flags: 0 }),
            r matches Err(e) ==> !(e matches LzmaError::Io(_)),
    {
        LzmaReader::with_capacity(DEFAULT_BUF_SIZE, inner, Direction::Decompress, 0)
    }

    /// Builds the adapter around `inner` with a staging buffer of the given
    /// capacity and an empty staging window. The codec session is initialized
    /// together with the adapter — an encoder for the given preset with the
    /// CRC64 check when compressing, an auto-detecting decoder with no memory
    /// limit when decompressing — and if that fails, the error is returned
    /// and no adapter exists.
    pub fn with_capacity(capacity: usize, inner: T, direction: Direction, preset: u32) -> (r: Result<
        LzmaReader<T>,
        LzmaError,
    >)
        requires
            inner.source_inv(),
        ensures
            r matches Ok(rd) ==> rd.wf() && rd.spec_direction() == direction
                && rd.spec_capacity() == capacity && rd.spec_inner() == inner
                && rd.spec_window_len() == 0 && !rd.spec_stream_ended()
                && rd.spec_session().spec_produced() == Seq::<u8>::empty()
                && rd.spec_session().spec_config() == (match direction {
                    Direction::Compress => SessionConfig::Encoder {
                        preset,
                        check: lzma_check::LzmaCheckCrc64,
                    },
                    Direction::Decompress => SessionConfig::Decoder { memlimit: u64::MAX, flags: 0 },
                }),
            r matches Err(e) ==> !(e matches LzmaError::Io(_)),
    {
        let session = match direction {
            Direction::Compress => match CodecSession::new_encoder(preset, lzma_check::LzmaCheckCrc64) {
                Ok(s) => s,
                Err(e) => return Err(e),
            },
            Direction::Decompress => match CodecSession::new_decoder(u64::MAX, 0) {
                Ok(s) => s,
                Err(e) => return Err(e),
            },
        };
        let buffer: Vec<u8> = vec![0u8; capacity];
        Ok(LzmaReader { inner, session, buffer, buffer_offset: 0, buffer_len: 0, direction })
    }

    /// Unwraps the adapter, handing the wrapped source back.
    pub fn into_inner(self) -> (r: T)
        ensures
            r == self.spec_inner(),
    {
        self.inner
    }

    /// Reads from the wrapped source, applies compression or decompression,
    /// and places the result at the front of `buf`.
    ///
    /// An empty `buf` returns 0 at once, with the adapter untouched: neither
    /// the wrapped source nor the codec is reached. Otherwise the call
    /// returns as soon as any output is visible — the bytes placed at `buf`'s
    /// front are exactly what the codec produced during the call — or once
    /// the codec reports the end of the stream; a non-error 0 on a non-empty
    /// buffer comes only with the stream-end observation. A failure is either
    /// one of the wrapped source's own, passed through unchanged, or a
    /// classified codec error, which is never the `Io` kind.
    pub fn read(&mut self, buf: &mut Vec<u8>) -> (r: Result<usize, LzmaError>)
        requires
            old(self).wf(),
        ensures
            final(self).wf(),
            final(self).spec_direction() == old(self).spec_direction(),
            final(self).spec_capacity() == old(self).spec_capacity(),
            final(self).spec_session().spec_config() == old(self).spec_session().spec_config(),
            final(self).spec_inner().fail_set() == old(self).spec_inner().fail_set(),
            final(buf)@.len() == old(buf)@.len(),
            old(buf)@.len() == 0 ==> r == Ok::<usize, LzmaError>(0) && *final(self) == *old(self)
                && final(buf)@ == old(buf)@,
            r matches Ok(n) ==> n <= old(buf)@.len()
                && (forall|i: int|
                    n <= i < old(buf)@.len() ==> #[trigger] final(buf)@[i] == old(buf)@[i])
                && final(self).spec_session().spec_produced()
                    == old(self).spec_session().spec_produced() + final(buf)@.subrange(0, n as int),
            (r matches Ok(n) && n == 0 && old(buf)@.len() > 0) ==> final(self).spec_stream_ended(),
            r matches Err(e) ==> old(self).spec_inner().fail_set().contains(e)
                || !(e matches LzmaError::Io(_)),
    {
        if buf.len() == 0 {
            proof {
                let s = old(self).spec_session().spec_produced();
                assert(s + final(buf)@.subrange(0, 0) =~= s);
            }
            return Ok(0);
        }

        // A guard against a codec that never shows progress: after this many
        // cycles without output or stream end, the read surfaces the stall as
        // the unknown error kind instead of looping forever.
        let mut fuel: u64 = u64::MAX;
        while fuel > 0
            invariant
                self.wf(),
                self.spec_direction() == old(self).spec_direction(),
                self.spec_capacity() == old(self).spec_capacity(),
                self.spec_session().spec_config() == old(self).spec_session().spec_config(),
                self.spec_session().spec_produced() == old(self).spec_session().spec_produced(),
                self.spec_inner().fail_set() == old(self).spec_inner().fail_set(),
                buf@ == old(buf)@,
                buf@.len() > 0,
            decreases fuel,
        {
            fuel = fuel - 1;
            let mut action = lzma_action::LzmaRun;

            // An empty staging window: refill it from the wrapped source. A
            // source at its end switches this iteration to the finishing
            // directive, so the codec flushes what remains.
            if self.buffer_len == 0 {
                self.buffer_offset = 0;
                let filled: usize = match self.inner.read_into(&mut self.buffer) {
                    Ok(filled) => filled,
                    Err(e) => return Err(e),
                };
                self.buffer_len = filled;
                if filled == 0 {
                    action = lzma_action::LzmaFinish;
                }
            }

            // One crossing into the codec: the unconsumed window in, `buf` out.
            let ghost pre_buf = buf@;
            let ghost pre_produced = self.spec_session().spec_produced();
            let res = self.session.step(
                self.buffer.as_slice(),
                self.buffer_offset,
                self.buffer_len,
                buf,
                action,
            );
            self.buffer_offset = self.buffer_offset + res.bytes_read;
            self.buffer_len = self.buffer_len - res.bytes_read;

            let stream_end = match res.ret {
                Ok(code) => match code {
                    lzma_ret::LzmaStreamEnd => true,
                    _ => false,
                },
                Err(e) => return Err(e),
            };

            // Return on the first visible progress or at the end of the
            // stream; otherwise the codec consumed input without producing
            // output (as at format headers) and the loop feeds it more.
            if stream_end || res.bytes_written > 0 {
                return Ok(res.bytes_written);
            }
            proof {
                assert(buf@ =~= pre_buf);
                assert(pre_produced + buf@.subrange(0, 0) =~= pre_produced);
            }
        }
        Err(LzmaError::Other)
    }
}

impl<T: ByteSource> ByteSource for LzmaReader<T> {
    open spec fn source_inv(&self) -> bool {
        self.wf()
    }

    /// The adapter fails with what its wrapped source fails with, passed
    /// through unchanged, or with a classified codec error — never an `Io`
    /// of its own.
    open spec fn fail_set(&self) -> Set<LzmaError> {
        self.spec_inner().fail_set().union(crate::error::codec_failures())
    }

    /// What the adapter serves is what the codec has produced.
    open spec fn served(&self) -> Seq<u8> {
        self.spec_session().spec_produced()
    }

    /// The adapter's end of data is the codec's stream-end observation.
    open spec fn exhausted(&self) -> bool {
        self.spec_stream_ended()
    }

    /// Reading the adapter as a source is the adapter's own read, so
    /// adapters compose: a decompressor can wrap a compressor directly.
    fn read_into(&mut self, buf: &mut Vec<u8>) -> (r: Result<usize, LzmaError>) {
        self.read(buf)
    }
}

} // verus!
