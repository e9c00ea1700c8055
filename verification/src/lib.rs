//! Capability negotiation, session lifecycle, format mapping and topology
//! resolution for transcoding Basis Universal KTX2 containers into GPU-ready
//! pixel buffers.
//!
//! The transcoding backend is a foreign library.  This crate never calls it:
//! it decides which backend call comes next and what every reply means, and a
//! driver performs the calls.  The decisions are verified with Verus against
//! the contracts stated on each function.
//!
//! - [`compression`]: the capability mask a device is transcoded for.
//! - [`loader`]: negotiating that mask from the features of a device.
//! - [`load`]: the course of one texture load, call by call.
//! - [`session`]: the lifecycle of the backend handle behind a load.
//! - [`adapter`]: backend setup, and marshalling a transcode through the
//!   linear memory of a sandbox.
//! - [`format`]: the table from backend output formats to GPU formats.
//! - [`topology`]: view dimension and extent from layer and face counts.
//! - [`output`]: the fields the backend reports and the image made of them.
//! - [`gpu`]: what is taken on trust of `wgpu-types`.
//! - [`error`]: how a load can fail.

pub mod adapter;
pub mod compression;
pub mod error;
pub mod format;
pub mod gpu;
pub mod load;
pub mod loader;
pub mod output;
pub mod session;
pub mod topology;

pub use adapter::{
    output_range, Backend, ByteRange, Environment, Initialized, IsolatedPhase, IsolatedTranscode,
    SandboxOp, SandboxReply, SandboxStep, SetupCall, SetupState,
};
pub use compression::{
    CompressionFamily, TextureCompressionMethod, ASTC_HDR_BIT, ASTC_LDR_BIT, BC_BIT, ETC2_BIT,
};
pub use error::{
    BasisuLoaderError, InvariantViolation, NEW_TRANSCODER_ENTRY_POINT,
    TRANSCODE_IMAGE_ENTRY_POINT,
};
pub use format::{texture_transcode_format_to_bevy_format, TextureTranscodedFormat};
pub use load::{BackendCall, BackendReply, LoadResult, LoadStep, TextureLoad};
pub use loader::BasisuLoader;
pub use output::{assemble, TranscodedImage, TranscoderOutput};
pub use session::{
    Released, SessionOp, SessionState, TranscodeCall, TranscodeSession, TranscoderHandle,
};
pub use topology::TextureTopology;
