//! The push-based adapter: compresses or decompresses bytes as they are
//! written, flushing everything the codec produces to a wrapped sink.
//!
//! The adapter's accounting is part of its contract: the sink's `taken`
//! bytes are always the bytes it held at construction plus everything the
//! codec has produced — stated as `spec_synced` — except after a failed
//! call, whose produced bytes are discarded unflushed. Finalization is
//! explicit and mandatory: `finish` drives the codec to the end of the
//! stream and hands the wrapped sink back together with ghost evidence of
//! the final session state. An adapter discarded without `finish` leaves
//! the output truncated; dropping it merely releases the codec session's
//! native resources.

use vstd::prelude::*;
use crate::byteio::ByteSink;
use crate::codes::lzma_action;
use crate::codes::lzma_check;
use crate::codes::lzma_ret;
use crate::error::LzmaError;
use crate::session::CodecSession;
use crate::session::LzmaCodeResult;
use crate::session::SessionConfig;
use crate::Direction;

verus! {

/// The staging buffer's capacity when none is chosen.
pub const DEFAULT_BUF_SIZE: usize = 4096;

/// Relies on `std::io::Error::new`: builds the error reported when a sink
/// accepts zero bytes of a non-empty buffer, as a write-all over a partial
/// writer does.
#[verifier::external_body]
fn write_zero_error() -> (r: std::io::Error) {
    std::io::Error::new(std::io::ErrorKind::WriteZero, "failed to write whole buffer")
}

/// A byte sink adapter that applies compression or decompression to the
/// bytes written through it, pushing the codec's output to a wrapped sink.
pub struct LzmaWriter<T> {
    inner: T,
    session: CodecSession,
    buffer: Vec<u8>,
    direction: Direction,
    base: Ghost<Seq<u8>>,
}

impl<T: ByteSink> LzmaWriter<T> {
    /// Well-formedness: the wrapped sink is valid. Constructors establish
    /// this and every operation preserves it.
    pub closed spec fn wf(&self) -> bool {
        self.inner.sink_inv()
    }

    /// The adapter's direction, fixed at construction.
    pub closed spec fn spec_direction(&self) -> Direction {
        self.direction
    }

    /// The staging buffer's capacity, fixed at construction.
    pub closed spec fn spec_capacity(&self) -> nat {
        self.buffer@.len()
    }

    /// The wrapped sink.
    pub closed spec fn spec_inner(&self) -> T {
        self.inner
    }

    /// The codec session, with its ghost observations.
    pub closed spec fn spec_session(&self) -> CodecSession {
        self.session
    }

    /// The bytes the wrapped sink had taken when the adapter was built.
    pub closed spec fn spec_base(&self) -> Seq<u8> {
        self.base@
    }

    /// The adapter's accounting: the wrapped sink has taken exactly what it
    /// held at construction plus everything the codec has produced. Every
    /// successful operation preserves this; a failed one may leave the
    /// failing call's produced bytes discarded, as the step contract warns.
    pub open spec fn spec_synced(&self) -> bool {
        self.spec_inner().taken() == self.spec_base() + self.spec_session().spec_produced()
    }

    /// An adapter that compresses what is written at the given preset.
    pub fn new_compressor(inner: T, preset: u32) -> (r: Result<LzmaWriter<T>, LzmaError>)
        requires
            inner.sink_inv(),
        ensures
            r matches Ok(w) ==> w.wf() && w.spec_direction() == Direction::Compress
                && w.spec_capacity() == DEFAULT_BUF_SIZE && w.spec_inner() == inner
                && w.spec_base() == inner.taken() && w.spec_synced()
                && !w.spec_session().spec_stream_ended()
                && w.spec_session().spec_consumed() == Seq::<u8>::empty()
                && w.spec_session().spec_config()
                    == (SessionConfig::Encoder { preset, check: lzma_check::LzmaCheckCrc64 }),
            r matches Err(e) ==> !(e matches LzmaError::Io(_)),
    {
        LzmaWriter::with_capacity(DEFAULT_BUF_SIZE, inner, Direction::Compress, preset)
    }

    /// An adapter that decompresses what is written. Both the stream
    /// container format and its legacy predecessor are recognized.
    pub fn new_decompressor(inner: T) -> (r: Result<LzmaWriter<T>, LzmaError>)
        requires
            inner.sink_inv(),
        ensures
            r matches Ok(w) ==> w.wf() && w.spec_direction() == Direction::Decompress
                && w.spec_capacity() == DEFAULT_BUF_SIZE && w.spec_inner() == inner
                && w.spec_base() == inner.taken() && w.spec_synced()
                && !w.spec_session().spec_stream_ended()
                && w.spec_session().spec_consumed() == Seq::<u8>::empty()
                && w.spec_session().spec_config()
                    == (SessionConfig::Decoder { memlimit: u64::MAX, flags: 0 }),
            r matches Err(e) ==> !(e matches LzmaError::Io(_)),
    {
        LzmaWriter::with_capacity(DEFAULT_BUF_SIZE, inner, Direction::Decompress, 0)
    }

    /// Builds the adapter around `inner` with a staging buffer of the given
    /// capacity. The codec session is initialized together with the adapter —
    /// an encoder for the given preset with the CRC64 check when compressing,
    /// an auto-detecting decoder with no memory limit when decompressing —
    /// and if that fails, the error is returned and no adapter exists.
    pub fn with_capacity(capacity: usize, inner: T, direction: Direction, preset: u32) -> (r: Result<
        LzmaWriter<T>,
        LzmaError,
    >)
        requires
            inner.sink_inv(),
        ensures
            r matches Ok(w) ==> w.wf() && w.spec_direction() == direction
                && w.spec_capacity() == capacity && w.spec_inner() == inner
                && w.spec_base() == inner.taken() && w.spec_synced()
                && !w.spec_session().spec_stream_ended()
                && w.spec_session().spec_consumed() == Seq::<u8>::empty()
                && w.spec_session().spec_config() == (match direction {
                    Direction::Compress => SessionConfig::Encoder {
                        preset,
                        check: lzma_check::LzmaCheckCrc64,
                    },
                    Direction::Decompress => SessionConfig::Decoder { memlimit: u64::MAX, flags: 0 },
                }),
            r matches Err(e) ==> !(e matches LzmaError::Io(_)),
    {
        let ghost base = inner.taken();
        let session = match direction {
            Direction::Compress => match CodecSession::new_encoder(preset, lzma_check::LzmaCheckCrc64) {
                Ok(s) => s,
                Err(e) => return Err(e),
            },
            Direction::Decompress => match CodecSession::new_decoder(u64::MAX, 0) {
                Ok(s) => s,
                Err(e) => return Err(e),
            },
        };
        let buffer: Vec<u8> = vec![0u8; capacity];
        let w = LzmaWriter { inner, session, buffer, direction, base: Ghost(base) };
        proof {
            assert(w.spec_base() + w.spec_session().spec_produced() =~= w.spec_base());
        }
        Ok(w)
    }

    /// Pushes the first `n` staged output bytes to the wrapped sink, whole:
    /// on success the sink has taken exactly those bytes, appended in order.
    /// A sink that accepts zero bytes of a non-empty remainder ends the
    /// attempt with an `Io` error, as a write-all contract demands.
    fn flush_produced(&mut self, n: usize) -> (r: Result<(), LzmaError>)
        requires
            old(self).wf(),
            n <= old(self).buffer@.len(),
        ensures
            final(self).wf(),
            final(self).buffer@ == old(self).buffer@,
            final(self).session == old(self).session,
            final(self).direction == old(self).direction,
            final(self).base == old(self).base,
            final(self).inner.fail_set() == old(self).inner.fail_set(),
            final(self).inner.may_refuse() == old(self).inner.may_refuse(),
            r matches Ok(()) ==> final(self).inner.taken()
                == old(self).inner.taken() + old(self).buffer@.subrange(0, n as int),
            r matches Err(e) ==> old(self).inner.fail_set().contains(e)
                || old(self).inner.may_refuse(),
    {
        proof {
            assert(old(self).inner.taken() + old(self).buffer@.subrange(0, 0) =~= old(
                self,
            ).inner.taken());
        }
        let mut off: usize = 0;
        while off < n
            invariant
                self.wf(),
                self.buffer@ == old(self).buffer@,
                self.session == old(self).session,
                self.direction == old(self).direction,
                self.base == old(self).base,
                self.inner.fail_set() == old(self).inner.fail_set(),
                self.inner.may_refuse() == old(self).inner.may_refuse(),
                off <= n,
                n <= self.buffer@.len(),
                self.inner.taken() == old(self).inner.taken()
                    + old(self).buffer@.subrange(0, off as int),
            decreases n - off,
        {
            let chunk: &[u8] = vstd::slice::slice_subrange(self.buffer.as_slice(), off, n);
            let taken_now: usize = match self.inner.write_from(chunk) {
                Ok(taken_now) => taken_now,
                Err(e) => return Err(e),
            };
            if taken_now == 0 {
                return Err(LzmaError::Io(write_zero_error()));
            }
            proof {
                assert(chunk@.subrange(0, taken_now as int) =~= old(self).buffer@.subrange(
                    off as int,
                    off + taken_now,
                ));
                assert(old(self).inner.taken() + old(self).buffer@.subrange(0, off as int)
                    + old(self).buffer@.subrange(off as int, off + taken_now) =~= old(
                    self,
                ).inner.taken() + old(self).buffer@.subrange(0, off + taken_now));
            }
            off = off + taken_now;
        }
        Ok(())
    }

    /// One crossing into the codec: feeds `input` under the given directive,
    /// stages the codec's output, and flushes whatever was produced to the
    /// wrapped sink before returning, keeping the accounting in sync. A
    /// failure status is returned before any produced bytes are flushed.
    fn code_and_write(&mut self, input: &[u8], action: lzma_action) -> (r: Result<
        LzmaCodeResult,
        LzmaError,
    >)
        requires
            old(self).wf(),
        ensures
            final(self).wf(),
            final(self).direction == old(self).direction,
            final(self).buffer@.len() == old(self).buffer@.len(),
            final(self).base == old(self).base,
            final(self).session.spec_config() == old(self).session.spec_config(),
            final(self).inner.fail_set() == old(self).inner.fail_set(),
            final(self).inner.may_refuse() == old(self).inner.may_refuse(),
            r matches Ok(res) ==> res.bytes_read <= input@.len()
                && (res.ret matches Ok(c) && crate::error::is_success_status(c))
                && final(self).session.spec_consumed() == old(self).session.spec_consumed()
                    + input@.subrange(0, res.bytes_read as int)
                && final(self).session.spec_produced() == old(self).session.spec_produced()
                    + final(self).buffer@.subrange(0, res.bytes_written as int)
                && final(self).session.spec_stream_ended() == (old(
                    self,
                ).session.spec_stream_ended() || res.ret == Ok::<lzma_ret, LzmaError>(
                    lzma_ret::LzmaStreamEnd,
                ))
                && (old(self).spec_synced() ==> final(self).spec_synced()),
            r matches Err(e) ==> old(self).inner.fail_set().contains(e)
                || !(e matches LzmaError::Io(_)) || old(self).inner.may_refuse(),
    {
        let ghost pre_produced = self.session.spec_produced();
        let ghost pre_taken = self.inner.taken();
        let res = self.session.step(input, 0, input.len(), &mut self.buffer, action);
        let LzmaCodeResult { ret, bytes_read, bytes_written } = res;
        match ret {
            Err(e) => Err(e),
            Ok(code) => {
                let ghost staged = self.buffer@.subrange(0, bytes_written as int);
                if bytes_written > 0 {
                    match self.flush_produced(bytes_written) {
                        Ok(()) => {},
                        Err(e) => return Err(e),
                    }
                }
                proof {
                    if bytes_written == 0 {
                        assert(staged =~= Seq::<u8>::empty());
                        assert(pre_taken + staged =~= pre_taken);
                        assert(pre_produced + staged =~= pre_produced);
                    }
                    assert((self.base@ + pre_produced) + staged =~= self.base@ + (pre_produced
                        + staged));
                }
                Ok(LzmaCodeResult { ret: Ok(code), bytes_read, bytes_written })
            },
        }
    }

    /// Feeds `buf` to the codec and returns how many of its bytes were
    /// consumed — exactly the prefix `buf[..n]`, appended to the codec's
    /// consumed history — never more than were offered; the caller retries
    /// with the remainder, per standard partial-write semantics. Everything
    /// the codec produced during the call reached the wrapped sink before
    /// returning, keeping the accounting in sync. The call retries while the
    /// codec flushes internal state without taking input; a codec that shows
    /// no progress at all ends the call with a result of 0. A failure is one
    /// of the wrapped sink's own, passed through unchanged, a classified
    /// codec error (never `Io`), or the write-all refusal of a sink that
    /// took nothing.
    pub fn write(&mut self, buf: &[u8]) -> (r: Result<usize, LzmaError>)
        requires
            old(self).wf(),
        ensures
            final(self).wf(),
            final(self).spec_direction() == old(self).spec_direction(),
            final(self).spec_capacity() == old(self).spec_capacity(),
            final(self).spec_base() == old(self).spec_base(),
            final(self).spec_session().spec_config() == old(self).spec_session().spec_config(),
            final(self).spec_inner().fail_set() == old(self).spec_inner().fail_set(),
            final(self).spec_inner().may_refuse() == old(self).spec_inner().may_refuse(),
            r matches Ok(n) ==> n <= buf@.len()
                && final(self).spec_session().spec_consumed()
                    == old(self).spec_session().spec_consumed() + buf@.subrange(0, n as int)
                && (old(self).spec_synced() ==> final(self).spec_synced()),
            r matches Err(e) ==> old(self).spec_inner().fail_set().contains(e)
                || !(e matches LzmaError::Io(_)) || old(self).spec_inner().may_refuse(),
    {
        // A guard against a codec that cycles forever without consuming
        // input: after this many cycles the stall surfaces as the unknown
        // error kind.
        let mut fuel: u64 = u64::MAX;
        while fuel > 0
            invariant
                self.wf(),
                self.spec_direction() == old(self).spec_direction(),
                self.spec_capacity() == old(self).spec_capacity(),
                self.spec_base() == old(self).spec_base(),
                self.spec_session().spec_config() == old(self).spec_session().spec_config(),
                self.spec_session().spec_consumed() == old(self).spec_session().spec_consumed(),
                self.spec_inner().fail_set() == old(self).spec_inner().fail_set(),
                self.spec_inner().may_refuse() == old(self).spec_inner().may_refuse(),
                old(self).spec_synced() ==> self.spec_synced(),
            decreases fuel,
        {
            fuel = fuel - 1;
            let ghost pre_consumed = self.spec_session().spec_consumed();
            let res = match self.code_and_write(buf, lzma_action::LzmaRun) {
                Ok(res) => res,
                Err(e) => return Err(e),
            };
            if res.bytes_read == 0 && res.bytes_written > 0 {
                // The codec needed this cycle to flush internal state; offer
                // the input again.
                proof {
                    assert(buf@.subrange(0, 0) =~= Seq::<u8>::empty());
                    assert(pre_consumed + Seq::<u8>::empty() =~= pre_consumed);
                }
            } else {
                return Ok(res.bytes_read);
            }
        }
        Err(LzmaError::Other)
    }

    /// Finalizes the stream: drives the codec with the finishing directive,
    /// flushing produced bytes, until it reports the end of the stream, then
    /// hands the wrapped sink back together with ghost evidence of the final
    /// session state: the stream-end observation holds, no input was
    /// consumed beyond what was written, and — if the accounting was in
    /// sync — the sink has taken its construction-time bytes plus everything
    /// the codec ever produced. This must be called after all writing for
    /// the output to be a complete stream; the codec session is torn down
    /// when the adapter is consumed here.
    pub fn finish(self) -> (r: Result<(T, Ghost<CodecSession>), LzmaError>)
        requires
            self.wf(),
        ensures
            r matches Ok(p) ==> p.0.sink_inv()
                && p.1@.spec_stream_ended()
                && p.1@.spec_config() == self.spec_session().spec_config()
                && p.1@.spec_consumed() == self.spec_session().spec_consumed()
                && self.spec_session().spec_produced().is_prefix_of(p.1@.spec_produced())
                && (self.spec_synced() ==> p.0.taken() == self.spec_base()
                    + p.1@.spec_produced()),
            r matches Err(e) ==> self.spec_inner().fail_set().contains(e)
                || !(e matches LzmaError::Io(_)) || self.spec_inner().may_refuse(),
    {
        let ghost init = self;
        let mut this = self;
        let empty_in: Vec<u8> = Vec::new();
        // A guard against a codec that never reports the end of the stream:
        // after this many cycles the stall surfaces as the unknown error kind.
        let mut fuel: u64 = u64::MAX;
        while fuel > 0
            invariant
                init == self,
                this.wf(),
                empty_in@.len() == 0,
                this.base == init.base,
                this.session.spec_config() == init.session.spec_config(),
                this.session.spec_consumed() == init.session.spec_consumed(),
                init.session.spec_produced().is_prefix_of(this.session.spec_produced()),
                this.inner.fail_set() == init.inner.fail_set(),
                this.inner.may_refuse() == init.inner.may_refuse(),
                init.spec_synced() ==> this.spec_synced(),
            decreases fuel,
        {
            fuel = fuel - 1;
            let ghost pre_consumed = this.session.spec_consumed();
            let ghost pre_produced = this.session.spec_produced();
            let res = match this.code_and_write(empty_in.as_slice(), lzma_action::LzmaFinish) {
                Ok(res) => res,
                Err(e) => return Err(e),
            };
            proof {
                assert(empty_in@.subrange(0, res.bytes_read as int) =~= Seq::<u8>::empty());
                assert(pre_consumed + Seq::<u8>::empty() =~= pre_consumed);
                let a = init.session.spec_produced();
                assert(this.session.spec_produced().subrange(0, a.len() as int)
                    =~= pre_produced.subrange(0, a.len() as int));
            }
            match res.ret {
                Ok(code) => match code {
                    lzma_ret::LzmaStreamEnd => {
                        let ghost final_session = this.session;
                        let LzmaWriter { inner, session: _, buffer: _, direction: _, base: _ } =
                            this;
                        return Ok((inner, Ghost(final_session)));
                    },
                    _ => {},
                },
                Err(e) => return Err(e),
            }
        }
        Err(LzmaError::Other)
    }

    /// Flushes the wrapped sink and returns its result, nothing more: no
    /// codec step runs, the staged bytes and the session are untouched, and
    /// the sink takes no bytes. It does not force the codec to emit buffered
    /// data; only `finish` does that.
    pub fn flush(&mut self) -> (r: Result<(), LzmaError>)
        requires
            old(self).wf(),
        ensures
            final(self).wf(),
            final(self).spec_direction() == old(self).spec_direction(),
            final(self).spec_capacity() == old(self).spec_capacity(),
            final(self).spec_base() == old(self).spec_base(),
            final(self).spec_session() == old(self).spec_session(),
            final(self).spec_inner().taken() == old(self).spec_inner().taken(),
            final(self).spec_inner().fail_set() == old(self).spec_inner().fail_set(),
            final(self).spec_inner().may_refuse() == old(self).spec_inner().may_refuse(),
            r matches Err(e) ==> old(self).spec_inner().fail_set().contains(e),
    {
        self.inner.flush_out()
    }
}

impl<T: ByteSink> ByteSink for LzmaWriter<T> {
    open spec fn sink_inv(&self) -> bool {
        self.wf()
    }

    /// The adapter fails with what its wrapped sink fails with, passed
    /// through unchanged, with a classified codec error, or — when the sink
    /// refuses bytes — with the write-all refusal, which is an `Io` kind.
    open spec fn fail_set(&self) -> Set<LzmaError> {
        self.spec_inner().fail_set().union(crate::error::codec_failures()).union(
            if self.spec_inner().may_refuse() {
                Set::new(|e: LzmaError| e is Io)
            } else {
                Set::empty()
            },
        )
    }

    /// The adapter itself reports zero consumption when the codec stalls.
    open spec fn may_refuse(&self) -> bool {
        true
    }

    /// What the adapter takes is what the codec has consumed.
    open spec fn taken(&self) -> Seq<u8> {
        self.spec_session().spec_consumed()
    }

    /// Writing to the adapter as a sink is the adapter's own write, so
    /// adapters compose: a compressor can feed a decompressor directly.
    fn write_from(&mut self, buf: &[u8]) -> (r: Result<usize, LzmaError>) {
        self.write(buf)
    }

    fn flush_out(&mut self) -> (r: Result<(), LzmaError>) {
        self.flush()
    }
}

} // verus!
