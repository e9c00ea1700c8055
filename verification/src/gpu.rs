//! What this crate believes of `wgpu-types` without proof.
//!
//! The texture format, its ASTC block and channel, the view dimension and
//! the extent are plain data whose variants and fields are all public.  They
//! are declared with their bodies open: Verus reads their definitions from
//! the compiled crate, so verified code builds and matches on the very
//! values a renderer consumes, and nothing is assumed of them.
//!
//! Two things are assumed.  One is what `TextureFormat::add_srgb_suffix`
//! returns.  The other is what `Features::contains` answers: a feature set
//! hides its bits, so it stays opaque and is read through that one call.

use crate::compression::CompressionFamily;
use vstd::prelude::*;
use wgpu_types::{
    AstcBlock, AstcChannel, Extent3d, Features, TextureFormat, TextureViewDimension,
};

verus! {

/// `wgpu_types::AstcBlock`, with its variants.
#[verifier::external_type_specification]
pub struct ExAstcBlock(AstcBlock);

/// `wgpu_types::AstcChannel`, with its variants.
#[verifier::external_type_specification]
pub struct ExAstcChannel(AstcChannel);

/// `wgpu_types::TextureFormat`, with its variants.
#[verifier::external_type_specification]
pub struct ExTextureFormat(TextureFormat);

/// `wgpu_types::TextureViewDimension`, with its variants.
#[verifier::external_type_specification]
pub struct ExTextureViewDimension(TextureViewDimension);

/// `wgpu_types::Extent3d`, with its three public fields.
#[verifier::external_type_specification]
pub struct ExExtent3d(Extent3d);

/// `wgpu_types::Features`, a set of device feature flags.  Nothing is known
/// of a value but what [`supports`] answers.
#[verifier::external_type_specification]
#[verifier::external_body]
pub struct ExFeatures(Features);

/// The format that carries the sRGB tag of `format`: the `Srgb` variant of
/// the eight-bit normalised formats that have one, the `UnormSrgb` channel
/// of a normalised ASTC format, and `format` itself in every other case.
pub open spec fn with_srgb_suffix(format: TextureFormat) -> TextureFormat {
    match format {
        TextureFormat::Rgba8Unorm => TextureFormat::Rgba8UnormSrgb,
        TextureFormat::Bgra8Unorm => TextureFormat::Bgra8UnormSrgb,
        TextureFormat::Bc1RgbaUnorm => TextureFormat::Bc1RgbaUnormSrgb,
        TextureFormat::Bc2RgbaUnorm => TextureFormat::Bc2RgbaUnormSrgb,
        TextureFormat::Bc3RgbaUnorm => TextureFormat::Bc3RgbaUnormSrgb,
        TextureFormat::Bc7RgbaUnorm => TextureFormat::Bc7RgbaUnormSrgb,
        TextureFormat::Etc2Rgb8Unorm => TextureFormat::Etc2Rgb8UnormSrgb,
        TextureFormat::Etc2Rgb8A1Unorm => TextureFormat::Etc2Rgb8A1UnormSrgb,
        TextureFormat::Etc2Rgba8Unorm => TextureFormat::Etc2Rgba8UnormSrgb,
        TextureFormat::Astc { block, channel: AstcChannel::Unorm } => TextureFormat::Astc {
            block,
            channel: AstcChannel::UnormSrgb,
        },
        _ => format,
    }
}

/// `wgpu_types::TextureFormat::add_srgb_suffix` returns the format with the
/// sRGB tag added where the format has such a variant, and the format
/// unchanged where it has none.
pub assume_specification[ TextureFormat::add_srgb_suffix ](format: &TextureFormat) -> (suffixed:
    TextureFormat)
    ensures
        suffixed == with_srgb_suffix(*format),
;

/// The compressed texture families whose feature flag a device feature set
/// holds.
pub uninterp spec fn compression_families(features: Features) -> Set<CompressionFamily>;

/// `wgpu_types::Features::contains`, asked for the one feature flag that
/// enables `family`: `TEXTURE_COMPRESSION_ASTC`, `TEXTURE_COMPRESSION_ASTC_HDR`,
/// `TEXTURE_COMPRESSION_BC` or `TEXTURE_COMPRESSION_ETC2`.  The answer is
/// whether every bit of that flag is set in `features`.
#[verifier::external_body]
pub(crate) fn supports(features: Features, family: CompressionFamily) -> (r: bool)
    ensures
        r == compression_families(features).contains(family),
{
    features.contains(
        match family {
            CompressionFamily::AstcLdr => Features::TEXTURE_COMPRESSION_ASTC,
            CompressionFamily::AstcHdr => Features::TEXTURE_COMPRESSION_ASTC_HDR,
            CompressionFamily::Bc => Features::TEXTURE_COMPRESSION_BC,
            CompressionFamily::Etc2 => Features::TEXTURE_COMPRESSION_ETC2,
        },
    )
}

} // verus!
