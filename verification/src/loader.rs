//! The loader: what a device supports, negotiated once and kept for every
//! texture it loads.

use crate::adapter::Initialized;
use crate::compression::{mask_bits, CompressionFamily, TextureCompressionMethod};
use crate::gpu::{compression_families, supports};
use crate::load::{BackendCall, LoadStep, LoadStepView, TextureLoad};
use vstd::prelude::*;
use wgpu_types::Features;

verus! {

/// Loads Basis Universal KTX2 textures for one device.
pub struct BasisuLoader {
    supported_compressed_formats: TextureCompressionMethod,
}

impl BasisuLoader {
    /// The capability mask that every transcode call of this loader carries.
    pub closed spec fn spec_supported_compressed_formats(&self) -> TextureCompressionMethod {
        self.supported_compressed_formats
    }

    /// The capability mask that every transcode call of this loader carries.
    #[verifier::when_used_as_spec(spec_supported_compressed_formats)]
    pub fn supported_compressed_formats(&self) -> (r: TextureCompressionMethod)
        ensures
            r == self.spec_supported_compressed_formats(),
    {
        self.supported_compressed_formats
    }

    /// Negotiates the capability mask of a device: the request bit of each
    /// compressed texture family that `features` enables, and no other bit.
    /// A device that enables none gets the empty mask, for which the backend
    /// falls back to an uncompressed format.
    pub fn from_features(features: Features) -> (loader: Self)
        ensures
            loader.supported_compressed_formats()@ == compression_families(features),
            loader.supported_compressed_formats().spec_bits() == mask_bits(
                compression_families(features),
            ),
    {
        let mut supported_compressed_formats = TextureCompressionMethod::none();
        if supports(features, CompressionFamily::AstcLdr) {
            supported_compressed_formats.insert(CompressionFamily::AstcLdr);
        }
        if supports(features, CompressionFamily::AstcHdr) {
            supported_compressed_formats.insert(CompressionFamily::AstcHdr);
        }
        if supports(features, CompressionFamily::Bc) {
            supported_compressed_formats.insert(CompressionFamily::Bc);
        }
        if supports(features, CompressionFamily::Etc2) {
            supported_compressed_formats.insert(CompressionFamily::Etc2);
        }
        Self { supported_compressed_formats }
    }

    /// Opens the load of a container of `data_len` bytes on a backend that
    /// is initialized, for the device this loader was negotiated for.  The
    /// load begins by asking for a transcoder.
    pub fn load(&self, initialized: Initialized, data_len: u32) -> (r: (TextureLoad, LoadStep))
        ensures
            r.0.data_len() == data_len,
            r.0.supported_compressed_formats() == self.supported_compressed_formats(),
            r.0.phase() is AwaitingTranscoder,
            r.1@ == LoadStepView::Call(BackendCall::NewTranscoder),
    {
        TextureLoad::begin(initialized, data_len, self.supported_compressed_formats)
    }
}

} // verus!
