//! The error taxonomy of the model-acquisition and job-coordination layer.

use vstd::prelude::*;

verus! {

/// A typed failure surfaced to the caller.
#[derive(Debug)]
pub enum VtError {
    /// The managed directory cannot be read or created; a listing caller is
    /// expected to treat this as an empty listing.
    DirectoryUnavailable,
    /// A download failed (network, timeout, status or write error); the
    /// reason is carried verbatim and the partial file has been cleaned up.
    FetchFailed(String),
    /// A transcription job is already running; the submission was dropped.
    Busy,
    /// No usable model exists in the current catalog.
    NoModelsAvailable,
    /// A submitted job carried an empty model path or audio path.
    InvalidInput,
    /// The transcription engine failed; its reason is carried verbatim.
    TranscribeError(String),
}

impl VtError {
    /// A short label naming the variant, for presentation.
    pub fn label(&self) -> (r: &'static str)
        ensures
            self is DirectoryUnavailable ==> r@ == "directory unavailable"@,
            self is FetchFailed ==> r@ == "fetch failed"@,
            self is Busy ==> r@ == "busy"@,
            self is NoModelsAvailable ==> r@ == "no models available"@,
            self is InvalidInput ==> r@ == "invalid input"@,
            self is TranscribeError ==> r@ == "transcribe error"@,
    {
        match self {
            VtError::DirectoryUnavailable => "directory unavailable",
            VtError::FetchFailed(_) => "fetch failed",
            VtError::Busy => "busy",
            VtError::NoModelsAvailable => "no models available",
            VtError::InvalidInput => "invalid input",
            VtError::TranscribeError(_) => "transcribe error",
        }
    }
}

} // verus!
