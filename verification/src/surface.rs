//! Presentation-surface configuration.
//!
//! The surface configuration is owned by the renderer and re-applied to the
//! live surface on every resize. Its dimensions must stay positive: resizing
//! to zero is a contract violation and is never silently clamped. The pixel
//! format is chosen from the list the surface supports, preferring the first
//! sRGB entry; presentation runs unthrottled (no vsync) with at most two
//! frames in flight.

use vstd::prelude::*;

verus! {

/// Pixel dimensions of the presentation surface.
#[derive(Clone, Copy, Debug, PartialEq, Eq, Structural)]
pub struct SurfaceSize {
    pub width: u32,
    pub height: u32,
}

impl SurfaceSize {
    /// A surface must have at least one pixel in each direction.
    pub open spec fn is_valid(self) -> bool {
        self.width > 0 && self.height > 0
    }

    /// Runtime test for [`SurfaceSize::is_valid`]; callers outside the
    /// library use it to reject a zero-sized resize before it reaches the
    /// renderer.
    pub fn check_valid(&self) -> (r: bool)
        ensures
            r == self.is_valid(),
    {
        self.width > 0 && self.height > 0
    }
}

/// How presented frames are paced. The harness runs unthrottled.
#[derive(Clone, Copy, Debug, PartialEq, Eq, Structural)]
pub enum PresentMode {
    /// Present in step with the display's refresh.
    AutoVsync,
    /// Present as fast as frames are produced.
    AutoNoVsync,
}

/// The maximum number of frames the presentation engine may hold in flight.
pub const DESIRED_FRAME_LATENCY: u32 = 2;

/// The configuration applied to the presentation surface. The `format` field
/// is an index into the list of formats the surface reported as supported,
/// in the order they were reported.
#[derive(Clone, Copy, Debug, PartialEq, Eq, Structural)]
pub struct SurfaceConfig {
    /// Index of the chosen pixel format in the surface's supported list.
    pub format: usize,
    pub width: u32,
    pub height: u32,
    pub present_mode: PresentMode,
    /// Maximum number of in-flight frames.
    pub frame_latency: u32,
}

impl SurfaceConfig {
    /// The configured dimensions are positive.
    pub open spec fn is_valid(self) -> bool {
        self.width > 0 && self.height > 0
    }

    /// Builds the configuration first applied to the surface: the given
    /// format, the window's current size, unthrottled presentation, and two
    /// frames of latency.
    pub fn new(format: usize, size: SurfaceSize) -> (c: SurfaceConfig)
        requires
            size.is_valid(),
        ensures
            c == (SurfaceConfig {
                format,
                width: size.width,
                height: size.height,
                present_mode: PresentMode::AutoNoVsync,
                frame_latency: DESIRED_FRAME_LATENCY,
            }),
            c.is_valid(),
    {
        SurfaceConfig {
            format,
            width: size.width,
            height: size.height,
            present_mode: PresentMode::AutoNoVsync,
            frame_latency: DESIRED_FRAME_LATENCY,
        }
    }

    /// Records a resize: only the dimensions change, and they stay positive.
    /// A zero dimension is a contract violation, never clamped.
    pub fn resize(&mut self, size: SurfaceSize)
        requires
            size.is_valid(),
        ensures
            final(self).width == size.width,
            final(self).height == size.height,
            final(self).format == old(self).format,
            final(self).present_mode == old(self).present_mode,
            final(self).frame_latency == old(self).frame_latency,
            final(self).is_valid(),
    {
        self.width = size.width;
        self.height = size.height;
    }
}

/// Picks the pixel format for the surface from the supported list, given for
/// each entry whether it is an sRGB format: the first sRGB entry wins, and
/// when there is none the first supported format is kept.
pub fn choose_format(srgb: &Vec<bool>) -> (i: usize)
    requires
        srgb@.len() > 0,
    ensures
        i < srgb@.len(),
        (exists|j: int| 0 <= j < srgb@.len() && srgb@[j]) ==> srgb@[i as int] && (forall|j: int|
            0 <= j < i ==> !srgb@[j]),
        !(exists|j: int| 0 <= j < srgb@.len() && srgb@[j]) ==> i == 0,
{
    let mut k: usize = 0;
    while k < srgb.len()
        invariant
            k <= srgb@.len(),
            forall|j: int| 0 <= j < k ==> !srgb@[j],
        decreases srgb@.len() - k,
    {
        if srgb[k] {
            return k;
        }
        k += 1;
    }
    0
}

} // verus!
