//! The errors a texture load can end in.

use vstd::prelude::*;

verus! {

/// The backend entry point that hands out a transcoder handle.
pub const NEW_TRANSCODER_ENTRY_POINT: &'static str = "ktx2_transcoder_new";

/// The backend entry point that transcodes a container.
pub const TRANSCODE_IMAGE_ENTRY_POINT: &'static str = "ktx2_transcoder_transcode_image";

/// `std::io::Error`, carried through by [`BasisuLoaderError::Io`] and never
/// inspected here.
#[verifier::external_type_specification]
#[verifier::external_body]
pub struct ExIoError(std::io::Error);

/// A broken agreement between this crate, its driver and the backend.
///
/// None of these is caused by the bytes of a container: each means that two
/// tables that must move in lockstep have drifted apart, or that a caller
/// used a session out of turn.
#[derive(Clone, Copy, Debug, PartialEq, Eq, Structural)]
pub enum InvariantViolation {
    /// The backend chose an output format that no capability mask requests.
    UnmappedFormat { code: u32 },
    /// The container reports a face count other than 1 or 6.
    FaceCount { faces: u32 },
    /// `max(layers, 1) * faces` does not fit in 32 bits.
    ExtentOverflow { layers: u32, faces: u32 },
    /// The backend placed its output so that `offset + len` leaves the
    /// 32-bit address space of the sandbox.
    OutputRange { offset: u32, len: u32 },
    /// A setup call was recorded out of turn, or a sandbox was asked of a
    /// backend that has none.
    BackendSetup,
    /// A transcode was to be marshalled through a sandbox that is still
    /// serving another one.
    BackendBusy,
    /// An operation was asked of a session whose state forbids it.
    SessionState,
    /// The driver answered a backend call with the reply to another one.
    UnexpectedReply,
}

/// An error when loading an image.
#[derive(Debug)]
pub enum BasisuLoaderError {
    /// The bytes of the container could not be read.
    Io(std::io::Error),
    /// The backend entry point named here reported failure.
    TranscodingError(&'static str),
    /// The backend, the driver or a caller broke an invariant.
    InvariantViolation(InvariantViolation),
}

impl BasisuLoaderError {
    /// Whether this is a backend failure, as opposed to a read failure or a
    /// broken invariant.
    pub fn is_transcoding_error(&self) -> (r: bool)
        ensures
            r == (*self is TranscodingError),
    {
        match self {
            BasisuLoaderError::TranscodingError(_) => true,
            _ => false,
        }
    }

    /// The broken invariant, if that is what this error reports.
    pub fn invariant_violation(&self) -> (r: Option<InvariantViolation>)
        ensures
            r == match *self {
                BasisuLoaderError::InvariantViolation(v) => Some(v),
                _ => None,
            },
    {
        match self {
            BasisuLoaderError::InvariantViolation(v) => Some(*v),
            _ => None,
        }
    }
}

} // verus!
