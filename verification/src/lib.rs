//! A streaming XZ/LZMA compression and decompression library.
//!
//! The native codec engine is an external collaborator, reached through one
//! narrow step contract; everything around it — the session state machine,
//! the reader and writer adapters, the buffer windows and the error
//! taxonomy — is verified.
//!
//! Two interfaces are provided. `LzmaReader`/`LzmaWriter` are byte-stream
//! adapters generic over a byte source or sink. `compress`/`decompress` are
//! one-shot helpers for in-memory buffers.

pub mod byteio;
pub mod codes;
pub mod error;
pub mod reader;
pub mod session;
pub mod writer;

pub use byteio::ByteSink;
pub use byteio::ByteSource;
pub use byteio::SliceSource;
pub use byteio::VecSink;
pub use codes::lzma_action;
pub use codes::lzma_check;
pub use codes::lzma_ret;
pub use error::LzmaError;
pub use error::LzmaLibResult;
pub use error::classify;
pub use reader::LzmaReader;
pub use writer::LzmaWriter;
pub use session::CodecSession;
pub use session::LzmaCodeResult;

use vstd::prelude::*;

verus! {

/// Whether an adapter compresses or decompresses. Fixed at construction.
#[derive(Clone, Copy, Debug, PartialEq, Eq, Structural)]
pub enum Direction {
    Compress,
    Decompress,
}

/// Binary-or this into a preset to request the slower, denser encoding mode.
pub const EXTREME_PRESET: u32 = 0x8000_0000;

/// Compresses `buf` in one shot and returns the compressed stream.
///
/// `preset` is 0-9 and selects the compression level; binary-or it with
/// `EXTREME_PRESET` for the slower, denser mode (for example
/// `9 | EXTREME_PRESET`). What the bytes of the stream are is the native
/// codec's affair; a bad preset or an allocation failure comes back as the
/// classified error. The input lives in memory, so no failure is ever the
/// `Io` kind: every error is a classified codec error.
pub fn compress(buf: &[u8], preset: u32) -> (r: Result<Vec<u8>, LzmaError>)
    ensures
        r matches Err(e) ==> !(e matches LzmaError::Io(_)),
{
    let data: Vec<u8> = vstd::slice::slice_to_vec(buf);
    let mut reader = match LzmaReader::new_compressor(SliceSource::new(data), preset) {
        Ok(rd) => rd,
        Err(e) => return Err(e),
    };
    byteio::read_to_end(&mut reader)
}

/// Decompresses `buf` in one shot and returns the decoded bytes.
///
/// Both the stream container format and its legacy predecessor are accepted.
/// A stream that is corrupt, truncated or in an unknown format comes back as
/// the classified error — truncation specifically as `LzmaError::Buf`. The
/// input lives in memory, so no failure is ever the `Io` kind: every error
/// is a classified codec error.
pub fn decompress(buf: &[u8]) -> (r: Result<Vec<u8>, LzmaError>)
    ensures
        r matches Err(e) ==> !(e matches LzmaError::Io(_)),
{
    let data: Vec<u8> = vstd::slice::slice_to_vec(buf);
    let mut reader = match LzmaReader::new_decompressor(SliceSource::new(data)) {
        Ok(rd) => rd,
        Err(e) => return Err(e),
    };
    byteio::read_to_end(&mut reader)
}

} // verus!
