//! The first-person camera.
//!
//! The camera is pure data: an eye position, a yaw and a pitch (the forward
//! direction is always recomputed from the two angles, never stored, so it
//! cannot fall out of step with them), and the aspect ratio of the surface
//! it projects onto. The angles and coordinates are opaque scalar words; the
//! trigonometry and vector arithmetic on them happen in the numeric shell
//! around the library. What the library pins down is which state each update
//! reads and writes: a resize touches the aspect ratio alone, pointer look
//! touches the angles alone, and a movement step either leaves the eye
//! exactly where it was (when the held keys cancel) or replaces it with the
//! displaced eye the shell computed.

use crate::input::MoveIntent;
use crate::scalar::{Scalar, Vec3};
use crate::surface::SurfaceSize;
use vstd::prelude::*;

verus! {

/// The aspect ratio of the rendering surface, kept as the exact
/// width-to-height pair. The quotient is taken by the numeric shell when it
/// builds the projection, so the ratio follows the latest surface size
/// exactly and is independent of any earlier value.
#[derive(Clone, Copy, Debug, PartialEq, Eq, Structural)]
pub struct AspectRatio {
    pub width: u32,
    pub height: u32,
}

/// The aspect ratio a surface size induces.
pub open spec fn aspect_of(size: SurfaceSize) -> AspectRatio {
    AspectRatio { width: size.width, height: size.height }
}

/// A camera in a right-handed world space. The up direction is fixed to the
/// world vertical and is not part of the state.
#[derive(Clone, Copy, Debug, PartialEq, Eq, Structural)]
pub struct Camera {
    /// World-space eye position.
    pub eye: Vec3,
    /// Yaw angle, in radians.
    pub yaw: Scalar,
    /// Pitch angle, in radians.
    pub pitch: Scalar,
    /// Aspect ratio of the rendering surface.
    pub aspect_ratio: AspectRatio,
}

impl Camera {
    /// A camera at `eye` with the given orientation, projecting onto a
    /// surface of the given size.
    pub fn new(eye: Vec3, yaw: Scalar, pitch: Scalar, size: SurfaceSize) -> (c: Camera)
        requires
            size.is_valid(),
        ensures
            c == (Camera { eye, yaw, pitch, aspect_ratio: aspect_of(size) }),
    {
        Camera { eye, yaw, pitch, aspect_ratio: aspect_of_size(size) }
    }

    /// Recomputes the aspect ratio for a new surface size; position and
    /// orientation are untouched. A zero dimension is a contract violation,
    /// never clamped.
    pub fn resize(&mut self, size: SurfaceSize)
        requires
            size.is_valid(),
        ensures
            final(self).aspect_ratio == aspect_of(size),
            final(self).eye == old(self).eye,
            final(self).yaw == old(self).yaw,
            final(self).pitch == old(self).pitch,
    {
        self.aspect_ratio = aspect_of_size(size);
    }

    /// Applies one movement step. `moved_eye` is the eye the numeric shell
    /// computed from the held keys: the combined basis direction normalized,
    /// scaled by the speed constant and the frame time, and added to the
    /// current eye. When the intent is zero the eye stays exactly where it
    /// was, whatever was passed for `moved_eye` — normalizing a zero
    /// direction must never move the camera.
    pub fn update_position(&mut self, intent: &MoveIntent, moved_eye: Vec3)
        ensures
            intent.is_zero() ==> final(self).eye == old(self).eye,
            !intent.is_zero() ==> final(self).eye == moved_eye,
            final(self).yaw == old(self).yaw,
            final(self).pitch == old(self).pitch,
            final(self).aspect_ratio == old(self).aspect_ratio,
    {
        if !intent.no_movement() {
            self.eye = moved_eye;
        }
    }

    /// Sets the orientation to the angles the numeric shell integrated from
    /// a raw pointer delta. Position and aspect ratio are untouched.
    pub fn update_rotation_angles(&mut self, yaw: Scalar, pitch: Scalar)
        ensures
            final(self).yaw == yaw,
            final(self).pitch == pitch,
            final(self).eye == old(self).eye,
            final(self).aspect_ratio == old(self).aspect_ratio,
    {
        self.yaw = yaw;
        self.pitch = pitch;
    }
}

/// Runtime constructor matching [`aspect_of`].
fn aspect_of_size(size: SurfaceSize) -> (a: AspectRatio)
    ensures
        a == aspect_of(size),
{
    AspectRatio { width: size.width, height: size.height }
}

} // verus!
