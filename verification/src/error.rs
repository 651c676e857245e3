//! The error taxonomy: a closed set of semantic error kinds, and the total
//! mapping from native status codes onto it.

use vstd::prelude::*;
use crate::codes::lzma_ret;

verus! {

#[verifier::external_type_specification]
#[verifier::external_body]
pub struct ExIoError(std::io::Error);

/// An error produced by an operation on LZMA data.
#[derive(Debug)]
pub enum LzmaError {
    /// Failed memory allocation.
    Mem,
    /// The memory limit would be violated.
    MemLimit,
    /// The XZ magic bytes were not found.
    Format,
    /// Unsupported compression options.
    Options,
    /// Corrupt data.
    Data,
    /// The data looks truncated (or possibly corrupt).
    Buf,
    /// A failure of the underlying byte source or sink, passed through unchanged.
    Io(std::io::Error),
    /// An unknown error.
    Other,
}

/// A native status code, split into its success and failure classes.
pub type LzmaLibResult = Result<lzma_ret, LzmaError>;

/// Which status codes count as success: these pass through `classify` as `Ok`.
pub open spec fn is_success_status(code: lzma_ret) -> bool {
    code is LzmaOk || code is LzmaStreamEnd || code is LzmaNoCheck
        || code is LzmaUnsupportedCheck || code is LzmaGetCheck
}

/// The error taxonomy as a total function: success-class statuses pass
/// through unchanged, each failure status maps to exactly one error kind,
/// and anything unrecognized by the taxonomy routes to `Other`.
pub open spec fn spec_classify(code: lzma_ret) -> LzmaLibResult {
    match code {
        lzma_ret::LzmaOk => Ok(code),
        lzma_ret::LzmaStreamEnd => Ok(code),
        lzma_ret::LzmaNoCheck => Ok(code),
        lzma_ret::LzmaUnsupportedCheck => Ok(code),
        lzma_ret::LzmaGetCheck => Ok(code),
        lzma_ret::LzmaMemError => Err(LzmaError::Mem),
        lzma_ret::LzmaMemlimitError => Err(LzmaError::MemLimit),
        lzma_ret::LzmaFormatError => Err(LzmaError::Format),
        lzma_ret::LzmaOptionsError => Err(LzmaError::Options),
        lzma_ret::LzmaDataError => Err(LzmaError::Data),
        lzma_ret::LzmaBufError => Err(LzmaError::Buf),
        lzma_ret::LzmaProgError => Err(LzmaError::Other),
    }
}

/// Maps a native status code to the error taxonomy.
///
/// Success-class statuses (ok, stream-end, no-check, unsupported-check,
/// get-check) come back as `Ok` with the code unchanged; every failure
/// status maps to its error kind. The mapping never produces `Io`: that
/// kind is reserved for underlying source/sink failures.
pub fn classify(code: lzma_ret) -> (r: LzmaLibResult)
    ensures
        r == spec_classify(code),
        r matches Ok(c) ==> c == code && is_success_status(code),
        r matches Err(e) ==> !is_success_status(code) && !(e matches LzmaError::Io(_)),
{
    match code {
        lzma_ret::LzmaOk => Ok(code),
        lzma_ret::LzmaStreamEnd => Ok(code),
        lzma_ret::LzmaNoCheck => Ok(code),
        lzma_ret::LzmaUnsupportedCheck => Ok(code),
        lzma_ret::LzmaGetCheck => Ok(code),
        lzma_ret::LzmaMemError => Err(LzmaError::Mem),
        lzma_ret::LzmaMemlimitError => Err(LzmaError::MemLimit),
        lzma_ret::LzmaFormatError => Err(LzmaError::Format),
        lzma_ret::LzmaOptionsError => Err(LzmaError::Options),
        lzma_ret::LzmaDataError => Err(LzmaError::Data),
        lzma_ret::LzmaBufError => Err(LzmaError::Buf),
        lzma_ret::LzmaProgError => Err(LzmaError::Other),
    }
}

/// The error kinds that classification of a native status can produce:
/// every kind but `Io`, which only underlying byte collaborators report.
pub open spec fn codec_failures() -> Set<LzmaError> {
    Set::new(|e: LzmaError| !(e is Io))
}

/// Law: the taxonomy is total and one-to-one. Every success-class status
/// passes through as itself; every failure status maps to a non-`Io` kind;
/// and no two distinct failure statuses share an error kind.
pub proof fn lemma_classify_total_and_injective(c1: lzma_ret, c2: lzma_ret)
    ensures
        is_success_status(c1) <==> spec_classify(c1) == Ok::<lzma_ret, LzmaError>(c1),
        !is_success_status(c1) ==> (spec_classify(c1) matches Err(e) && !(e matches LzmaError::Io(_))),
        spec_classify(c1) == spec_classify(c2) && !is_success_status(c1) && !is_success_status(c2)
            ==> c1 == c2,
{
}

impl From<std::io::Error> for LzmaError {
    /// Wraps an underlying I/O failure, unchanged, as the `Io` kind.
    fn from(err: std::io::Error) -> (r: LzmaError) {
        LzmaError::Io(err)
    }
}

impl vstd::std_specs::convert::FromSpecImpl<std::io::Error> for LzmaError {
    open spec fn obeys_from_spec() -> bool {
        true
    }

    open spec fn from_spec(err: std::io::Error) -> LzmaError {
        LzmaError::Io(err)
    }
}

impl LzmaError {
    /// A short description of the error, one fixed text per kind.
    pub fn description(&self) -> (r: &'static str)
        ensures
            self matches LzmaError::Mem ==> r@ == "Memory allocation failed"@,
            self matches LzmaError::MemLimit ==> r@ == "Memory limit would be violated"@,
            self matches LzmaError::Format ==> r@ == "XZ magic bytes were not found"@,
            self matches LzmaError::Options ==> r@ == "Unsupported compression options"@,
            self matches LzmaError::Data ==> r@ == "Corrupt data"@,
            self matches LzmaError::Buf ==> r@ == "Data look like it was truncated or possibly corrupt"@,
            self matches LzmaError::Io(_) ==> r@ == "IO error"@,
            self matches LzmaError::Other ==> r@ == "Unknown error"@,
    {
        match self {
            LzmaError::Mem => "Memory allocation failed",
            LzmaError::MemLimit => "Memory limit would be violated",
            LzmaError::Format => "XZ magic bytes were not found",
            LzmaError::Options => "Unsupported compression options",
            LzmaError::Data => "Corrupt data",
            LzmaError::Buf => "Data look like it was truncated or possibly corrupt",
            LzmaError::Io(_) => "IO error",
            LzmaError::Other => "Unknown error",
        }
    }
}

} // verus!
