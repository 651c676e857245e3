//! The codec session: the one crossing point into the native XZ/LZMA engine.
//!
//! A `CodecSession` owns one native codec state (an `xz2::stream::Stream`) for
//! one direction, fixed at initialization. Its `step` function is the single
//! place where bytes cross into native code. The native input and output
//! cursors are set afresh from the step call's own parameters immediately
//! before each native call and read nowhere else, so no stale cursor is ever
//! dereferenced. Native resources are released exactly once, when the owning
//! session is dropped.
//!
//! Which bytes come out, when the stream ends and which status is reported
//! are the native engine's decisions; the session takes them from its report,
//! classifies the status before anything else sees it, and records the
//! observations in ghost state: the configuration it was initialized with,
//! whether a stream-end status has been observed, and the full histories of
//! bytes the codec has consumed and produced. The trusted contracts state
//! only what the engine's calling convention guarantees: how far the byte
//! counts can reach and which part of the output buffer may change.

use vstd::prelude::*;
use crate::codes::lzma_action;
use crate::codes::lzma_check;
use crate::codes::lzma_ret;
use crate::error::classify;
use crate::error::LzmaError;
use crate::error::LzmaLibResult;

verus! {

#[verifier::external_type_specification]
#[verifier::external_body]
pub struct ExStream(xz2::stream::Stream);

#[verifier::external_type_specification]
#[verifier::external_body]
pub struct ExStatus(xz2::stream::Status);

#[verifier::external_type_specification]
#[verifier::external_body]
pub struct ExXzError(xz2::stream::Error);

/// Recovers the native status code from what `xz2::stream::Stream::process`
/// (and the stream constructors) report.
///
/// Relies on xz2's `cvt`, which maps each of the twelve native codes
/// one-to-one onto `Ok(Status)` or `Err(Error)`; this match inverts it,
/// variant by variant, so the taxonomy in `crate::error` sees the native
/// code itself.
#[verifier::external_body]
fn native_code_of(r: Result<xz2::stream::Status, xz2::stream::Error>) -> (code: lzma_ret)
{
    match r {
        Ok(xz2::stream::Status::Ok) => lzma_ret::LzmaOk,
        Ok(xz2::stream::Status::StreamEnd) => lzma_ret::LzmaStreamEnd,
        Ok(xz2::stream::Status::GetCheck) => lzma_ret::LzmaGetCheck,
        Ok(xz2::stream::Status::MemNeeded) => lzma_ret::LzmaBufError,
        Err(xz2::stream::Error::Mem) => lzma_ret::LzmaMemError,
        Err(xz2::stream::Error::MemLimit) => lzma_ret::LzmaMemlimitError,
        Err(xz2::stream::Error::Format) => lzma_ret::LzmaFormatError,
        Err(xz2::stream::Error::Options) => lzma_ret::LzmaOptionsError,
        Err(xz2::stream::Error::Data) => lzma_ret::LzmaDataError,
        Err(xz2::stream::Error::NoCheck) => lzma_ret::LzmaNoCheck,
        Err(xz2::stream::Error::UnsupportedCheck) => lzma_ret::LzmaUnsupportedCheck,
        Err(xz2::stream::Error::Program) => lzma_ret::LzmaProgError,
    }
}

/// Relies on `xz2::stream::Stream::new_easy_encoder` (native
/// `lzma_easy_encoder`): initializes an encoder for the given preset and
/// integrity check, or reports the status it failed with; on failure the
/// partially initialized native state is torn down before this returns.
#[verifier::external_body]
fn new_encoder_stream(preset: u32, check: lzma_check) -> (r: Result<xz2::stream::Stream, lzma_ret>)
{
    let c = match check {
        lzma_check::LzmaCheckNone => xz2::stream::Check::None,
        lzma_check::LzmaCheckCrc32 => xz2::stream::Check::Crc32,
        lzma_check::LzmaCheckCrc64 => xz2::stream::Check::Crc64,
        lzma_check::LzmaCheckSha256 => xz2::stream::Check::Sha256,
    };
    match xz2::stream::Stream::new_easy_encoder(preset, c) {
        Ok(s) => Ok(s),
        Err(e) => Err(native_code_of(Err(e))),
    }
}

/// Relies on `xz2::stream::Stream::new_auto_decoder` (native
/// `lzma_auto_decoder`): initializes a decoder that recognizes both the
/// stream container format and its legacy predecessor, with the given
/// memory limit and flags, or reports the status it failed with; on failure
/// the partially initialized native state is torn down before this returns.
#[verifier::external_body]
fn new_decoder_stream(memlimit: u64, flags: u32) -> (r: Result<xz2::stream::Stream, lzma_ret>)
{
    match xz2::stream::Stream::new_auto_decoder(memlimit, flags) {
        Ok(s) => Ok(s),
        Err(e) => Err(native_code_of(Err(e))),
    }
}

/// Relies on `xz2::stream::Stream::process` (native `lzma_code`): transforms
/// bytes from `input[in_off .. in_off + in_len]` into the front of `output`,
/// consuming at most `in_len` bytes and producing at most `output.len()`
/// bytes, sequentially from the start of `output`; bytes past what was
/// produced are left unchanged, and the buffer's length never changes. The
/// consumed and produced counts are read back from the stream's own byte
/// totals. The returned status is the native code, recovered by
/// `native_code_of`.
#[verifier::external_body]
fn stream_process(
    s: &mut xz2::stream::Stream,
    input: &[u8],
    in_off: usize,
    in_len: usize,
    output: &mut Vec<u8>,
    action: lzma_action,
) -> (r: (lzma_ret, usize, usize))
    requires
        in_off + in_len <= input@.len(),
    ensures
        r.1 <= in_len,
        r.2 <= old(output)@.len(),
        final(output)@.len() == old(output)@.len(),
        forall|i: int|
            r.2 <= i < old(output)@.len() ==> #[trigger] final(output)@[i] == old(output)@[i],
{
    let a = match action {
        lzma_action::LzmaRun => xz2::stream::Action::Run,
        lzma_action::LzmaSyncFlush => xz2::stream::Action::SyncFlush,
        lzma_action::LzmaFullFlush => xz2::stream::Action::FullFlush,
        lzma_action::LzmaFullBarrier => xz2::stream::Action::FullBarrier,
        lzma_action::LzmaFinish => xz2::stream::Action::Finish,
    };
    let before_in = s.total_in();
    let before_out = s.total_out();
    let res = s.process(&input[in_off..in_off + in_len], output.as_mut_slice(), a);
    let read = (s.total_in() - before_in) as usize;
    let written = (s.total_out() - before_out) as usize;
    (native_code_of(res), read, written)
}

/// The result of one step call. Callers must inspect both byte counts even
/// when the status is a failure: partial progress may have occurred before
/// the failure was detected.
pub struct LzmaCodeResult {
    /// The classified status of the step call.
    pub ret: LzmaLibResult,
    /// The number of bytes consumed from the input window.
    pub bytes_read: usize,
    /// The number of bytes produced at the front of the output buffer.
    pub bytes_written: usize,
}

/// What a session was initialized as: the one native call that configured it,
/// with its arguments.
pub enum SessionConfig {
    /// An encoder for the given preset and integrity check.
    Encoder { preset: u32, check: lzma_check },
    /// An auto-detecting decoder with the given memory limit and flags.
    Decoder { memlimit: u64, flags: u32 },
}

/// One native codec state, exclusively owned, fixed to one direction at
/// initialization. May be handed to another execution context wholesale,
/// but never aliased. Dropping the session releases the native resources
/// exactly once.
///
/// Alongside the native state the session keeps ghost observations of every
/// step call: its configuration, whether the codec has reported stream end,
/// and the byte histories it has consumed and produced.
pub struct CodecSession {
    stream: xz2::stream::Stream,
    config: Ghost<SessionConfig>,
    ended: Ghost<bool>,
    consumed: Ghost<Seq<u8>>,
    produced: Ghost<Seq<u8>>,
}

impl CodecSession {
    /// The configuration this session was initialized with.
    pub closed spec fn spec_config(&self) -> SessionConfig {
        self.config@
    }

    /// Whether a step call has observed the stream-end status.
    pub closed spec fn spec_stream_ended(&self) -> bool {
        self.ended@
    }

    /// All bytes the codec has consumed, in order.
    pub closed spec fn spec_consumed(&self) -> Seq<u8> {
        self.consumed@
    }

    /// All bytes the codec has produced, in order.
    pub closed spec fn spec_produced(&self) -> Seq<u8> {
        self.produced@
    }

    /// Initializes an encoder session for the given preset (0-9, optionally
    /// or-ed with the extreme modifier) and integrity check. On failure no
    /// session exists and the classified error is returned.
    pub fn new_encoder(preset: u32, check: lzma_check) -> (r: Result<CodecSession, LzmaError>)
        ensures
            r matches Ok(s) ==> s.spec_config() == (SessionConfig::Encoder { preset, check })
                && !s.spec_stream_ended()
                && s.spec_consumed() == Seq::<u8>::empty()
                && s.spec_produced() == Seq::<u8>::empty(),
            r matches Err(e) ==> !(e matches LzmaError::Io(_)),
    {
        match new_encoder_stream(preset, check) {
            Ok(stream) => Ok(CodecSession {
                stream,
                config: Ghost(SessionConfig::Encoder { preset, check }),
                ended: Ghost(false),
                consumed: Ghost(Seq::empty()),
                produced: Ghost(Seq::empty()),
            }),
            Err(code) => Err(init_error(code)),
        }
    }

    /// Initializes a decoder session with the given memory limit and flags.
    /// The decoder recognizes the stream container format and its legacy
    /// predecessor. On failure no session exists and the classified error
    /// is returned.
    pub fn new_decoder(memlimit: u64, flags: u32) -> (r: Result<CodecSession, LzmaError>)
        ensures
            r matches Ok(s) ==> s.spec_config() == (SessionConfig::Decoder { memlimit, flags })
                && !s.spec_stream_ended()
                && s.spec_consumed() == Seq::<u8>::empty()
                && s.spec_produced() == Seq::<u8>::empty(),
            r matches Err(e) ==> !(e matches LzmaError::Io(_)),
    {
        match new_decoder_stream(memlimit, flags) {
            Ok(stream) => Ok(CodecSession {
                stream,
                config: Ghost(SessionConfig::Decoder { memlimit, flags }),
                ended: Ghost(false),
                consumed: Ghost(Seq::empty()),
                produced: Ghost(Seq::empty()),
            }),
            Err(code) => Err(init_error(code)),
        }
    }

    /// One step of the native transform: consumes bytes from
    /// `input[in_off .. in_off + in_len]`, produces bytes at the front of
    /// `output`, under the given directive. The native status is classified
    /// before anything else sees it; the byte counts are reported even when
    /// the status is a failure. The observed consumed and produced bytes are
    /// appended to the session's histories, and a stream-end status sets the
    /// session's stream-end observation for good.
    pub fn step(
        &mut self,
        input: &[u8],
        in_off: usize,
        in_len: usize,
        output: &mut Vec<u8>,
        action: lzma_action,
    ) -> (r: LzmaCodeResult)
        requires
            in_off + in_len <= input@.len(),
        ensures
            r.bytes_read <= in_len,
            r.bytes_written <= old(output)@.len(),
            final(output)@.len() == old(output)@.len(),
            forall|i: int|
                r.bytes_written <= i < old(output)@.len()
                    ==> #[trigger] final(output)@[i] == old(output)@[i],
            r.ret matches Ok(c) ==> crate::error::is_success_status(c),
            r.ret matches Err(e) ==> !(e matches LzmaError::Io(_)),
            final(self).spec_config() == old(self).spec_config(),
            final(self).spec_consumed() == old(self).spec_consumed()
                + input@.subrange(in_off as int, in_off + r.bytes_read),
            final(self).spec_produced() == old(self).spec_produced()
                + final(output)@.subrange(0, r.bytes_written as int),
            final(self).spec_stream_ended() == (old(self).spec_stream_ended()
                || r.ret == Ok::<lzma_ret, LzmaError>(lzma_ret::LzmaStreamEnd)),
    {
        let (code, bytes_read, bytes_written) =
            stream_process(&mut self.stream, input, in_off, in_len, output, action);
        let is_end = match code {
            lzma_ret::LzmaStreamEnd => true,
            _ => false,
        };
        let ghost consumed_now = self.consumed@ + input@.subrange(
            in_off as int,
            in_off + bytes_read as int,
        );
        let ghost produced_now = self.produced@ + output@.subrange(0, bytes_written as int);
        let ghost ended_now = self.ended@ || is_end;
        self.consumed = Ghost(consumed_now);
        self.produced = Ghost(produced_now);
        self.ended = Ghost(ended_now);
        LzmaCodeResult { ret: classify(code), bytes_read, bytes_written }
    }
}

/// The error returned for a failed initialization: the classified status,
/// or `Other` if the native library reported a success-class status while
/// refusing to initialize — a protocol violation routed to the unknown kind.
fn init_error(code: lzma_ret) -> (r: LzmaError)
    ensures
        !(r matches LzmaError::Io(_)),
        !crate::error::is_success_status(code) ==> Err::<lzma_ret, LzmaError>(r) == crate::error::spec_classify(code),
{
    match classify(code) {
        Err(e) => e,
        Ok(_) => LzmaError::Other,
    }
}

} // verus!
