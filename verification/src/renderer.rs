//! Verified model of the renderer's mutable state.
//!
//! The renderer owns the surface configuration and the camera uniform
//! buffer. The GPU handles themselves — device, queue, pipeline, surface,
//! buffers — live in the unverified shell, which keeps them in step with
//! this model: every write it makes to the live surface configuration or to
//! the camera uniform goes through a method here first, so the contracts
//! below say exactly what the GPU-side state may hold at any point. The
//! `uploaded` field names the camera state from which the matrix currently
//! sitting in the uniform buffer was computed; it is the anchor for the
//! harness's one-frame-latency property.

use crate::camera::Camera;
use crate::surface::{SurfaceConfig, SurfaceSize};
use vstd::prelude::*;

verus! {

/// The renderer's mutable state: the configuration applied to the surface
/// and the camera state held by the uniform buffer.
#[derive(Clone, Copy, Debug, PartialEq, Eq, Structural)]
pub struct Renderer {
    /// The configuration currently applied to the presentation surface.
    pub surface_config: SurfaceConfig,
    /// The camera state whose view-projection matrix the uniform buffer
    /// holds. A render pass always draws with this state.
    pub uploaded: Camera,
}

impl Renderer {
    /// A renderer whose uniform buffer was just created from `camera`'s
    /// current view-projection matrix, with `surface_config` applied.
    pub fn new(camera: &Camera, surface_config: SurfaceConfig) -> (r: Renderer)
        ensures
            r.uploaded == *camera,
            r.surface_config == surface_config,
    {
        Renderer { surface_config, uploaded: *camera }
    }

    /// Records the queued write of a fresh view-projection matrix, computed
    /// from `camera` exactly as it stands now.
    pub fn update_camera_buffer(&mut self, camera: &Camera)
        ensures
            final(self).uploaded == *camera,
            final(self).surface_config == old(self).surface_config,
    {
        self.uploaded = *camera;
    }

    /// Re-applies the surface configuration with new dimensions. Only the
    /// dimensions change; a zero dimension is a contract violation, never
    /// clamped. The shell must push the updated configuration to the live
    /// surface before the next frame is acquired.
    pub fn resize(&mut self, size: SurfaceSize)
        requires
            size.is_valid(),
        ensures
            final(self).surface_config.width == size.width,
            final(self).surface_config.height == size.height,
            final(self).surface_config.format == old(self).surface_config.format,
            final(self).surface_config.present_mode == old(self).surface_config.present_mode,
            final(self).surface_config.frame_latency == old(self).surface_config.frame_latency,
            final(self).uploaded == old(self).uploaded,
    {
        self.surface_config.resize(size);
    }
}

/// Why acquiring the next presentable texture failed.
#[derive(Clone, Copy, Debug, PartialEq, Eq, Structural)]
pub enum SurfaceError {
    /// The acquisition timed out; the next attempt may succeed.
    Timeout,
    /// The surface no longer matches its configuration (for example after an
    /// external resize).
    Outdated,
    /// The swapchain was lost and must be rebuilt from the configuration.
    Lost,
    /// The device is out of memory; the surface is permanently unavailable.
    OutOfMemory,
}

/// What the frame loop does after a frame: carry on with the next frame,
/// re-apply the surface configuration first, or give up.
#[derive(Clone, Copy, Debug, PartialEq, Eq, Structural)]
pub enum FrameDirective {
    /// Request the next redraw.
    Continue,
    /// Re-apply the surface configuration to the live surface, then request
    /// the next redraw.
    Reconfigure,
    /// The environment is gone; stop the application.
    Abort,
}

/// The frame loop's policy for a failed texture acquisition: a timeout is a
/// plain skipped frame, an outdated or lost swapchain is repaired by
/// reconfiguring the surface, and exhausted memory is fatal. The frame loop
/// is the only place that decides between retry and abort.
pub open spec fn surface_error_policy(e: SurfaceError) -> FrameDirective {
    match e {
        SurfaceError::Timeout => FrameDirective::Continue,
        SurfaceError::Outdated => FrameDirective::Reconfigure,
        SurfaceError::Lost => FrameDirective::Reconfigure,
        SurfaceError::OutOfMemory => FrameDirective::Abort,
    }
}

/// Runtime decision matching [`surface_error_policy`].
pub fn classify_surface_error(e: &SurfaceError) -> (d: FrameDirective)
    ensures
        d == surface_error_policy(*e),
{
    match e {
        SurfaceError::Timeout => FrameDirective::Continue,
        SurfaceError::Outdated => FrameDirective::Reconfigure,
        SurfaceError::Lost => FrameDirective::Reconfigure,
        SurfaceError::OutOfMemory => FrameDirective::Abort,
    }
}

} // verus!
