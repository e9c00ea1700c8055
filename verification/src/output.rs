//! What the backend leaves behind after a successful transcode, and the
//! image that is made of it.

use crate::error::{BasisuLoaderError, InvariantViolation};
use crate::format::{
    mapped_format, texture_transcode_format_to_bevy_format, TextureTranscodedFormat,
};
use crate::topology::{topology_of, TextureTopology};
use vstd::prelude::*;
use wgpu_types::TextureFormat;

verus! {

/// The output fields that the backend fills in for one image, as its getters
/// report them, with the pixel buffer already copied out of backend memory.
#[derive(Debug, PartialEq, Eq)]
pub struct TranscoderOutput {
    pub width: u32,
    pub height: u32,
    pub levels: u32,
    pub layers: u32,
    pub faces: u32,
    pub is_srgb: bool,
    pub target_format: TextureTranscodedFormat,
    pub dst_buf: Vec<u8>,
}

/// A [`TranscoderOutput`] with its pixel buffer as a sequence of bytes.
pub struct TranscoderOutputView {
    pub width: u32,
    pub height: u32,
    pub levels: u32,
    pub layers: u32,
    pub faces: u32,
    pub is_srgb: bool,
    pub target_format: TextureTranscodedFormat,
    pub dst_buf: Seq<u8>,
}

impl View for TranscoderOutput {
    type V = TranscoderOutputView;

    open spec fn view(&self) -> TranscoderOutputView {
        TranscoderOutputView {
            width: self.width,
            height: self.height,
            levels: self.levels,
            layers: self.layers,
            faces: self.faces,
            is_srgb: self.is_srgb,
            target_format: self.target_format,
            dst_buf: self.dst_buf@,
        }
    }
}

/// A transcoded texture, ready for upload: the pixel buffer, which now
/// belongs to the caller, and what a GPU needs to know to read it.
#[derive(Debug, PartialEq, Eq)]
pub struct TranscodedImage {
    pub data: Vec<u8>,
    pub format: TextureFormat,
    pub is_srgb: bool,
    pub width: u32,
    pub height: u32,
    pub mip_level_count: u32,
    pub array_layer_count: u32,
    pub face_count: u32,
}

/// A [`TranscodedImage`] with its pixel buffer as a sequence of bytes.
pub struct TranscodedImageView {
    pub data: Seq<u8>,
    pub format: TextureFormat,
    pub is_srgb: bool,
    pub width: u32,
    pub height: u32,
    pub mip_level_count: u32,
    pub array_layer_count: u32,
    pub face_count: u32,
}

impl View for TranscodedImage {
    type V = TranscodedImageView;

    open spec fn view(&self) -> TranscodedImageView {
        TranscodedImageView {
            data: self.data@,
            format: self.format,
            is_srgb: self.is_srgb,
            width: self.width,
            height: self.height,
            mip_level_count: self.mip_level_count,
            array_layer_count: self.array_layer_count,
            face_count: self.face_count,
        }
    }
}

/// The image and topology that a backend output stands for.  The pixel
/// bytes and the counts pass through untouched; the format comes from the
/// format table and the topology from the layer and face counts.  Counts
/// without a topology are reported before a format without an entry.
pub open spec fn image_of(output: TranscoderOutputView) -> Result<
    (TranscodedImageView, TextureTopology),
    InvariantViolation,
> {
    match topology_of(output.layers, output.faces, output.width, output.height) {
        Err(violation) => Err(violation),
        Ok(topology) => match mapped_format(output.target_format, output.is_srgb) {
            None => Err(InvariantViolation::UnmappedFormat { code: output.target_format.0 }),
            Some(format) => Ok(
                (
                    TranscodedImageView {
                        data: output.dst_buf,
                        format,
                        is_srgb: output.is_srgb,
                        width: output.width,
                        height: output.height,
                        mip_level_count: output.levels,
                        array_layer_count: output.layers,
                        face_count: output.faces,
                    },
                    topology,
                ),
            ),
        },
    }
}

/// Whether `r` is what [`image_of`] says of `output`.
pub open spec fn is_image_of(
    r: Result<(TranscodedImage, TextureTopology), BasisuLoaderError>,
    output: TranscoderOutputView,
) -> bool {
    match r {
        Ok((image, topology)) => image_of(output) == Ok::<
            (TranscodedImageView, TextureTopology),
            InvariantViolation,
        >((image@, topology)),
        Err(e) => image_of(output) is Err && e == BasisuLoaderError::InvariantViolation(
            image_of(output)->Err_0,
        ),
    }
}

/// Turns the output of the backend into the image and its topology.
pub fn assemble(output: TranscoderOutput) -> (r: Result<
    (TranscodedImage, TextureTopology),
    BasisuLoaderError,
>)
    ensures
        is_image_of(r, output@),
{
    let topology = match TextureTopology::resolve(
        output.layers,
        output.faces,
        output.width,
        output.height,
    ) {
        Ok(topology) => topology,
        Err(e) => {
            return Err(e);
        },
    };
    let format = match texture_transcode_format_to_bevy_format(
        output.target_format,
        output.is_srgb,
    ) {
        Ok(format) => format,
        Err(e) => {
            return Err(e);
        },
    };
    let image = TranscodedImage {
        data: output.dst_buf,
        format,
        is_srgb: output.is_srgb,
        width: output.width,
        height: output.height,
        mip_level_count: output.levels,
        array_layer_count: output.layers,
        face_count: output.faces,
    };
    Ok((image, topology))
}

} // verus!
