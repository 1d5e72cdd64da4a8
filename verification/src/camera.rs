//! The configuration of the camera.
use crate::corange::{camera, vec3, vec3_zero, Scalar};
use crate::staged::ConfigValue;
use vstd::prelude::*;

verus! {

/// Who moves the camera between frames.
#[derive(Clone, Copy, Debug, PartialEq, Eq, Structural)]
pub enum CameraType {
    /// Nobody: the application places the camera itself.
    Manual,
    /// The orbit controller, which follows the pointer.
    Orbit,
    /// The free controller, which moves with the time elapsed.
    Free,
}

/// Where the camera shall be, what it shall see and who moves it.
#[derive(Clone, Copy, Debug, PartialEq, Eq, Structural)]
pub struct Camera {
    pub position: vec3,
    pub target: vec3,
    pub fov: Scalar,
    pub near_clip: Scalar,
    pub far_clip: Scalar,
    pub movement: CameraType,
}

/// The encoding of 10, each coordinate of the default position.
pub const DEFAULT_COORDINATE_BITS: u32 = 0x4120_0000;

/// The encoding of 512, the default far clipping distance.
pub const DEFAULT_FAR_CLIP_BITS: u32 = 0x4400_0000;

/// The encoding of 0.10, the default near clipping distance.
pub const DEFAULT_NEAR_CLIP_BITS: u32 = 0x3dcc_cccd;

/// The encoding of 0.78, the default field of view.
pub const DEFAULT_FOV_BITS: u32 = 0x3f47_ae14;

impl Camera {
    /// Whether the engine can take the configuration: every number of it is
    /// finite.
    pub open spec fn well_formed(&self) -> bool {
        &&& self.position.finite()
        &&& self.target.finite()
        &&& self.fov.finite()
        &&& self.near_clip.finite()
        &&& self.far_clip.finite()
    }

    /// Whether this is the camera that a program gets if it asks for
    /// nothing: a free camera at (10, 10, 10) that looks at the origin, with
    /// a field of view of 0.78 and clipping distances of 0.10 and 512.
    pub open spec fn is_default(&self) -> bool {
        &&& self.movement is Free
        &&& self.position == (vec3 {
            x: Scalar { bits: DEFAULT_COORDINATE_BITS },
            y: Scalar { bits: DEFAULT_COORDINATE_BITS },
            z: Scalar { bits: DEFAULT_COORDINATE_BITS },
        })
        &&& self.target == (vec3 {
            x: Scalar { bits: 0 },
            y: Scalar { bits: 0 },
            z: Scalar { bits: 0 },
        })
        &&& self.far_clip.bits == DEFAULT_FAR_CLIP_BITS
        &&& self.near_clip.bits == DEFAULT_NEAR_CLIP_BITS
        &&& self.fov.bits == DEFAULT_FOV_BITS
    }

    /// The parameters that the engine's camera gets from the configuration.
    /// Who moves the camera is no parameter of the engine's camera.
    pub open spec fn applied_to_engine(&self) -> camera {
        camera {
            position: self.position,
            target: self.target,
            fov: self.fov,
            near_clip: self.near_clip,
            far_clip: self.far_clip,
        }
    }

    /// Puts the configuration in force on the engine's camera.
    pub fn apply(self, camera: &mut camera)
        ensures
            *final(camera) == self.applied_to_engine(),
    {
        camera.position = self.position;
        camera.target = self.target;
        camera.far_clip = self.far_clip;
        camera.near_clip = self.near_clip;
        camera.fov = self.fov;
    }
}

impl ConfigValue for Camera {
    open spec fn valid(&self) -> bool {
        self.well_formed()
    }

    fn is_valid(&self) -> (ok: bool) {
        self.position.is_finite() && self.target.is_finite() && self.fov.is_finite()
            && self.near_clip.is_finite() && self.far_clip.is_finite()
    }
}

impl Default for Camera {
    /// The default camera, which is well formed.
    fn default() -> (camera: Camera)
        ensures
            camera.is_default(),
            camera.well_formed(),
    {
        let ten = Scalar::from_bits(DEFAULT_COORDINATE_BITS);
        Camera {
            movement: CameraType::Free,
            position: vec3 { x: ten, y: ten, z: ten },
            target: vec3_zero(),
            far_clip: Scalar::from_bits(DEFAULT_FAR_CLIP_BITS),
            near_clip: Scalar::from_bits(DEFAULT_NEAR_CLIP_BITS),
            fov: Scalar::from_bits(DEFAULT_FOV_BITS),
        }
    }
}

} // verus!
