//! Status, action and integrity-check codes of the native codec.
//!
//! These mirror the codes that the native XZ/LZMA engine reports and accepts,
//! so that the rest of the library can reason about them as plain enums.

use vstd::prelude::*;

verus! {

/// A status code reported by the native codec.
///
/// The first five variants are success-class statuses; the rest report
/// failures. `classify` in `crate::error` maps them onto the error taxonomy.
#[allow(non_camel_case_types)]
#[derive(Clone, Copy, Debug)]
pub enum lzma_ret {
    /// Operation completed successfully.
    LzmaOk,
    /// End of stream was reached.
    LzmaStreamEnd,
    /// The stream carries no integrity check.
    LzmaNoCheck,
    /// The stream's integrity check is not supported by this build.
    LzmaUnsupportedCheck,
    /// The integrity check kind is now available.
    LzmaGetCheck,
    /// Memory allocation failed.
    LzmaMemError,
    /// The memory usage limit would be exceeded.
    LzmaMemlimitError,
    /// The stream format was not recognized.
    LzmaFormatError,
    /// Invalid or unsupported options.
    LzmaOptionsError,
    /// The data is corrupt.
    LzmaDataError,
    /// No progress is possible: the input looks truncated.
    LzmaBufError,
    /// A programming error was detected.
    LzmaProgError,
}

/// The directive handed to the codec's step function.
///
/// The adapters in this library use `LzmaRun` while more input may follow and
/// `LzmaFinish` to flush and close the stream.
#[allow(non_camel_case_types)]
#[derive(Clone, Copy, Debug)]
pub enum lzma_action {
    /// Process available input; more may follow.
    LzmaRun,
    /// Make all buffered data available at the output without ending the stream.
    LzmaSyncFlush,
    /// Finish the current block.
    LzmaFullFlush,
    /// Finish the current block without waiting for it to be flushed.
    LzmaFullBarrier,
    /// Signal end of input: flush all remaining state and end the stream.
    LzmaFinish,
}

/// Decoder flag: report when a stream carries no integrity check.
pub const LZMA_TELL_NO_CHECK: u32 = 0x01;

/// Decoder flag: report when a stream's integrity check is unsupported.
pub const LZMA_TELL_UNSUPPORTED_CHECK: u32 = 0x02;

/// Decoder flag: report the integrity check kind once it is known.
pub const LZMA_TELL_ANY_CHECK: u32 = 0x04;

/// Decoder flag: decode concatenated streams as one.
pub const LZMA_CONCATENATED: u32 = 0x08;

/// The integrity check embedded in an encoded stream.
#[allow(non_camel_case_types)]
#[derive(Clone, Copy, Debug)]
pub enum lzma_check {
    /// No integrity check.
    LzmaCheckNone,
    /// CRC32 check.
    LzmaCheckCrc32,
    /// CRC64 check (the usual default).
    LzmaCheckCrc64,
    /// SHA-256 check.
    LzmaCheckSha256,
}

} // verus!
