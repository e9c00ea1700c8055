//! The shape of a texture: which kind of view it is sampled through and how
//! far it extends, derived from the layer and face counts of its container.

use crate::error::{BasisuLoaderError, InvariantViolation};
use vstd::prelude::*;
use wgpu_types::{Extent3d, TextureViewDimension};

verus! {

/// The view dimension and the extent of a transcoded texture.
#[derive(Clone, Copy, Debug, PartialEq, Eq)]
pub struct TextureTopology {
    pub view_dimension: TextureViewDimension,
    pub extent: Extent3d,
}

/// The kind of view for a container with `layers` array layers and `faces`
/// faces: a lone face is a 2D texture, six faces are a cube, and a positive
/// layer count makes an array of either.  No other face count has a view.
pub open spec fn view_dimension_of(layers: u32, faces: u32) -> Option<TextureViewDimension> {
    if faces == 1 {
        if layers == 0 {
            Some(TextureViewDimension::D2)
        } else {
            Some(TextureViewDimension::D2Array)
        }
    } else if faces == 6 {
        if layers == 0 {
            Some(TextureViewDimension::Cube)
        } else {
            Some(TextureViewDimension::CubeArray)
        }
    } else {
        None
    }
}

/// The third extent of such a container: `max(layers, 1) * faces`.
pub open spec fn depth_or_array_layers_of(layers: u32, faces: u32) -> int {
    (if layers >= 1 {
        layers as int
    } else {
        1int
    }) * faces
}

/// The topology of a container, or the invariant that its counts break: the
/// face count where it is neither 1 nor 6, else the overflow where the third
/// extent leaves 32 bits.
pub open spec fn topology_of(layers: u32, faces: u32, width: u32, height: u32) -> Result<
    TextureTopology,
    InvariantViolation,
> {
    match view_dimension_of(layers, faces) {
        None => Err(InvariantViolation::FaceCount { faces }),
        Some(view_dimension) => if depth_or_array_layers_of(layers, faces) > u32::MAX {
            Err(InvariantViolation::ExtentOverflow { layers, faces })
        } else {
            Ok(
                TextureTopology {
                    view_dimension,
                    extent: Extent3d {
                        width,
                        height,
                        depth_or_array_layers: depth_or_array_layers_of(layers, faces) as u32,
                    },
                },
            )
        },
    }
}

impl TextureTopology {
    /// Derives the topology of a container from its layer count, face count,
    /// width and height.
    pub fn resolve(layers: u32, faces: u32, width: u32, height: u32) -> (r: Result<
        TextureTopology,
        BasisuLoaderError,
    >)
        ensures
            match r {
                Ok(topology) => topology_of(layers, faces, width, height) == Ok::<
                    TextureTopology,
                    InvariantViolation,
                >(topology),
                Err(e) => topology_of(layers, faces, width, height) is Err && e
                    == BasisuLoaderError::InvariantViolation(
                    topology_of(layers, faces, width, height)->Err_0,
                ),
            },
    {
        let view_dimension = if layers == 0 {
            if faces == 1 {
                TextureViewDimension::D2
            } else if faces == 6 {
                TextureViewDimension::Cube
            } else {
                return Err(
                    BasisuLoaderError::InvariantViolation(InvariantViolation::FaceCount { faces }),
                );
            }
        } else if faces == 1 {
            TextureViewDimension::D2Array
        } else if faces == 6 {
            TextureViewDimension::CubeArray
        } else {
            return Err(
                BasisuLoaderError::InvariantViolation(InvariantViolation::FaceCount { faces }),
            );
        };
        let depth: u32 = if layers >= 1 {
            layers
        } else {
            1
        };
        match depth.checked_mul(faces) {
            Some(depth_or_array_layers) => Ok(
                TextureTopology {
                    view_dimension,
                    extent: Extent3d { width, height, depth_or_array_layers },
                },
            ),
            None => Err(
                BasisuLoaderError::InvariantViolation(
                    InvariantViolation::ExtentOverflow { layers, faces },
                ),
            ),
        }
    }
}

} // verus!
