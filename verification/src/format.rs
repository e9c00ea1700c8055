//! The table from the backend's output format codes to GPU texture formats.
//!
//! The table covers every code that a capability mask can make the backend
//! choose.  A code outside it means that the mask and the table have drifted
//! apart; it is reported, never guessed at.

use crate::error::{BasisuLoaderError, InvariantViolation};
use crate::gpu::with_srgb_suffix;
use vstd::prelude::*;
use wgpu_types::{AstcBlock, AstcChannel, TextureFormat};

verus! {

pub const CTF_ETC1_RGB: u32 = 0;

pub const CTF_ETC2_RGBA: u32 = 1;

pub const CTF_BC1_RGB: u32 = 2;

pub const CTF_BC3_RGBA: u32 = 3;

pub const CTF_BC4_R: u32 = 4;

pub const CTF_BC5_RG: u32 = 5;

pub const CTF_BC7_RGBA: u32 = 6;

pub const CTF_BC7_ALT: u32 = 7;

pub const CTF_PVRTC1_4_RGB: u32 = 8;

pub const CTF_PVRTC1_4_RGBA: u32 = 9;

pub const CTF_ASTC_4X4_RGBA: u32 = 10;

pub const CTF_ATC_RGB: u32 = 11;

pub const CTF_ATC_RGBA: u32 = 12;

pub const CTF_RGBA32: u32 = 13;

pub const CTF_RGB565: u32 = 14;

pub const CTF_BGR565: u32 = 15;

pub const CTF_RGBA4444: u32 = 16;

pub const CTF_FXT1_RGB: u32 = 17;

pub const CTF_PVRTC2_4_RGB: u32 = 18;

pub const CTF_PVRTC2_4_RGBA: u32 = 19;

pub const CTF_ETC2_EAC_R11: u32 = 20;

pub const CTF_ETC2_EAC_RG11: u32 = 21;

pub const CTF_BC6H: u32 = 22;

pub const CTF_ASTC_HDR_4X4_RGBA: u32 = 23;

pub const CTF_RGB_HALF: u32 = 24;

pub const CTF_RGBA_HALF: u32 = 25;

pub const CTF_RGB_9E5: u32 = 26;

pub const CTF_ASTC_HDR_6X6_RGBA: u32 = 27;

pub const CTF_TOTAL_TEXTURE_FORMATS: u32 = 28;

/// An output format code of the backend.  Any 32-bit value can arrive; only
/// some are formats, and only some of those are mapped.
#[derive(Clone, Copy, Debug, PartialEq, Eq, Hash, Structural)]
pub struct TextureTranscodedFormat(pub u32);

/// The GPU format that stores what the backend writes for `code`, before any
/// colour-space tag.  `None` for the PVRTC, ATC and FXT1 families, raw ETC1,
/// the 16-bit packed formats, three-channel half float, the alternate BC7
/// code, the format count, and every value that is no format at all.
pub open spec fn base_format(code: u32) -> Option<TextureFormat> {
    if code == CTF_ETC2_RGBA {
        Some(TextureFormat::Etc2Rgba8Unorm)
    } else if code == CTF_BC1_RGB {
        Some(TextureFormat::Bc1RgbaUnorm)
    } else if code == CTF_BC3_RGBA {
        Some(TextureFormat::Bc3RgbaUnorm)
    } else if code == CTF_BC4_R {
        Some(TextureFormat::Bc4RUnorm)
    } else if code == CTF_BC5_RG {
        Some(TextureFormat::Bc5RgUnorm)
    } else if code == CTF_BC7_RGBA {
        Some(TextureFormat::Bc7RgbaUnorm)
    } else if code == CTF_ASTC_4X4_RGBA {
        Some(TextureFormat::Astc { block: AstcBlock::B4x4, channel: AstcChannel::Unorm })
    } else if code == CTF_ETC2_EAC_R11 {
        Some(TextureFormat::EacR11Unorm)
    } else if code == CTF_ETC2_EAC_RG11 {
        Some(TextureFormat::EacRg11Unorm)
    } else if code == CTF_BC6H {
        Some(TextureFormat::Bc6hRgbUfloat)
    } else if code == CTF_ASTC_HDR_4X4_RGBA {
        Some(TextureFormat::Astc { block: AstcBlock::B4x4, channel: AstcChannel::Hdr })
    } else if code == CTF_RGBA32 {
        Some(TextureFormat::Rgba8Unorm)
    } else if code == CTF_RGBA_HALF {
        Some(TextureFormat::Rgba16Float)
    } else if code == CTF_RGB_9E5 {
        Some(TextureFormat::Rgb9e5Ufloat)
    } else if code == CTF_ASTC_HDR_6X6_RGBA {
        Some(TextureFormat::Astc { block: AstcBlock::B6x6, channel: AstcChannel::Hdr })
    } else {
        None
    }
}

/// The GPU format for `transcoded` with the colour-space tag that `is_srgb`
/// asks for, or `None` where the table has no entry.
pub open spec fn mapped_format(transcoded: TextureTranscodedFormat, is_srgb: bool) -> Option<
    TextureFormat,
> {
    match base_format(transcoded.0) {
        Some(format) => Some(
            if is_srgb {
                with_srgb_suffix(format)
            } else {
                format
            },
        ),
        None => None,
    }
}

impl TextureTranscodedFormat {
    /// Whether the table has an entry for this code.
    pub open spec fn spec_is_mapped(self) -> bool {
        base_format(self.0) is Some
    }

    /// Whether the table has an entry for this code.
    #[verifier::when_used_as_spec(spec_is_mapped)]
    pub fn is_mapped(self) -> (r: bool)
        ensures
            r == self.spec_is_mapped(),
    {
        let code = self.0;
        code == CTF_ETC2_RGBA || code == CTF_BC1_RGB || code == CTF_BC3_RGBA || code == CTF_BC4_R
            || code == CTF_BC5_RG || code == CTF_BC7_RGBA || code == CTF_ASTC_4X4_RGBA || code
            == CTF_ETC2_EAC_R11 || code == CTF_ETC2_EAC_RG11 || code == CTF_BC6H || code
            == CTF_ASTC_HDR_4X4_RGBA || code == CTF_RGBA32 || code == CTF_RGBA_HALF || code
            == CTF_RGB_9E5 || code == CTF_ASTC_HDR_6X6_RGBA
    }
}

/// Maps an output format of the backend to the GPU texture format that
/// stores it, tagged sRGB where `is_srgb` is set and the format has such a
/// variant.  A code without an entry is an invariant violation that carries
/// the code.
pub fn texture_transcode_format_to_bevy_format(
    transcoded: TextureTranscodedFormat,
    is_srgb: bool,
) -> (r: Result<TextureFormat, BasisuLoaderError>)
    ensures
        match r {
            Ok(format) => mapped_format(transcoded, is_srgb) == Some(format),
            Err(e) => mapped_format(transcoded, is_srgb) is None && e
                == BasisuLoaderError::InvariantViolation(
                InvariantViolation::UnmappedFormat { code: transcoded.0 },
            ),
        },
{
    let code = transcoded.0;
    let fmt = if code == CTF_ETC2_RGBA {
        TextureFormat::Etc2Rgba8Unorm
    } else if code == CTF_BC1_RGB {
        TextureFormat::Bc1RgbaUnorm
    } else if code == CTF_BC3_RGBA {
        TextureFormat::Bc3RgbaUnorm
    } else if code == CTF_BC4_R {
        TextureFormat::Bc4RUnorm
    } else if code == CTF_BC5_RG {
        TextureFormat::Bc5RgUnorm
    } else if code == CTF_BC7_RGBA {
        TextureFormat::Bc7RgbaUnorm
    } else if code == CTF_ASTC_4X4_RGBA {
        TextureFormat::Astc { block: AstcBlock::B4x4, channel: AstcChannel::Unorm }
    } else if code == CTF_ETC2_EAC_R11 {
        TextureFormat::EacR11Unorm
    } else if code == CTF_ETC2_EAC_RG11 {
        TextureFormat::EacRg11Unorm
    } else if code == CTF_BC6H {
        TextureFormat::Bc6hRgbUfloat
    } else if code == CTF_ASTC_HDR_4X4_RGBA {
        TextureFormat::Astc { block: AstcBlock::B4x4, channel: AstcChannel::Hdr }
    } else if code == CTF_RGBA32 {
        TextureFormat::Rgba8Unorm
    } else if code == CTF_RGBA_HALF {
        TextureFormat::Rgba16Float
    } else if code == CTF_RGB_9E5 {
        TextureFormat::Rgb9e5Ufloat
    } else if code == CTF_ASTC_HDR_6X6_RGBA {
        TextureFormat::Astc { block: AstcBlock::B6x6, channel: AstcChannel::Hdr }
    } else {
        return Err(
            BasisuLoaderError::InvariantViolation(InvariantViolation::UnmappedFormat { code }),
        );
    };
    if is_srgb {
        Ok(fmt.add_srgb_suffix())
    } else {
        Ok(fmt)
    }
}

/// Whether `format` carries the sRGB colour-space tag.
pub open spec fn is_srgb_tagged(format: TextureFormat) -> bool {
    match format {
        TextureFormat::Rgba8UnormSrgb => true,
        TextureFormat::Bgra8UnormSrgb => true,
        TextureFormat::Bc1RgbaUnormSrgb => true,
        TextureFormat::Bc2RgbaUnormSrgb => true,
        TextureFormat::Bc3RgbaUnormSrgb => true,
        TextureFormat::Bc7RgbaUnormSrgb => true,
        TextureFormat::Etc2Rgb8UnormSrgb => true,
        TextureFormat::Etc2Rgb8A1UnormSrgb => true,
        TextureFormat::Etc2Rgba8UnormSrgb => true,
        TextureFormat::Astc { block, channel: AstcChannel::UnormSrgb } => true,
        _ => false,
    }
}

/// The format that lays out its texel blocks as `format` does and carries no
/// sRGB tag.
pub open spec fn without_srgb_suffix(format: TextureFormat) -> TextureFormat {
    match format {
        TextureFormat::Rgba8UnormSrgb => TextureFormat::Rgba8Unorm,
        TextureFormat::Bgra8UnormSrgb => TextureFormat::Bgra8Unorm,
        TextureFormat::Bc1RgbaUnormSrgb => TextureFormat::Bc1RgbaUnorm,
        TextureFormat::Bc2RgbaUnormSrgb => TextureFormat::Bc2RgbaUnorm,
        TextureFormat::Bc3RgbaUnormSrgb => TextureFormat::Bc3RgbaUnorm,
        TextureFormat::Bc7RgbaUnormSrgb => TextureFormat::Bc7RgbaUnorm,
        TextureFormat::Etc2Rgb8UnormSrgb => TextureFormat::Etc2Rgb8Unorm,
        TextureFormat::Etc2Rgb8A1UnormSrgb => TextureFormat::Etc2Rgb8A1Unorm,
        TextureFormat::Etc2Rgba8UnormSrgb => TextureFormat::Etc2Rgba8Unorm,
        TextureFormat::Astc { block, channel: AstcChannel::UnormSrgb } => TextureFormat::Astc {
            block,
            channel: AstcChannel::Unorm,
        },
        _ => format,
    }
}

/// The table is a total function on the codes it covers: a covered code has
/// a format under either colour-space flag, an uncovered code has none, and
/// one pair of code and flag never has two formats.
pub proof fn lemma_mapping_is_a_total_function(
    transcoded: TextureTranscodedFormat,
    is_srgb: bool,
    one: TextureFormat,
    other: TextureFormat,
)
    ensures
        transcoded.is_mapped() <==> mapped_format(transcoded, is_srgb) is Some,
        mapped_format(transcoded, is_srgb) == Some(one) && mapped_format(transcoded, is_srgb)
            == Some(other) ==> one == other,
{
}

/// The colour-space flag changes the tag of a format and nothing else: the
/// format chosen with the flag set is the format chosen without it, with the
/// sRGB tag added.  Taking the tag off again gives back the untagged format,
/// so both lay out their texel blocks alike.  Without the flag no format is
/// tagged.
pub proof fn lemma_srgb_changes_only_the_tag(transcoded: TextureTranscodedFormat)
    requires
        transcoded.is_mapped(),
    ensures
        mapped_format(transcoded, true) == Some(
            with_srgb_suffix(mapped_format(transcoded, false)->Some_0),
        ),
        without_srgb_suffix(mapped_format(transcoded, true)->Some_0) == mapped_format(
            transcoded,
            false,
        )->Some_0,
        !is_srgb_tagged(mapped_format(transcoded, false)->Some_0),
        is_srgb_tagged(mapped_format(transcoded, true)->Some_0) <==> mapped_format(
            transcoded,
            true,
        ) != mapped_format(transcoded, false),
{
}

} // verus!
