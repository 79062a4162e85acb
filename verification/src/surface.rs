//! Sizes in pixels: of the window, of the presentation surface, and the
//! aspect ratio that the camera takes from them.

use vstd::prelude::*;

verus! {

/// A size in physical pixels, as the window host reports it.
#[derive(Clone, Copy, Debug, PartialEq, Eq, Structural)]
pub struct PhysicalSize {
    pub width: u32,
    pub height: u32,
}

/// The size at which the presentation surface is configured.
#[derive(Clone, Copy, Debug, PartialEq, Eq, Structural)]
pub struct SurfaceConfiguration {
    pub width: u32,
    pub height: u32,
}

/// An aspect ratio, kept exactly: `width` over `height`.
#[derive(Clone, Copy, Debug, PartialEq, Eq, Structural)]
pub struct AspectRatio {
    pub width: u32,
    pub height: u32,
}

/// The larger of `value` and one.
pub open spec fn at_least_one(value: u32) -> u32 {
    if value == 0 {
        1
    } else {
        value
    }
}

impl PhysicalSize {
    /// The surface configuration for a window of this size: each side at
    /// least one pixel, so that no resource of it is empty.
    pub open spec fn surface(self) -> SurfaceConfiguration {
        SurfaceConfiguration {
            width: at_least_one(self.width),
            height: at_least_one(self.height),
        }
    }

    /// The ratio of the sides as they are, without the lower limit of the surface.
    pub open spec fn aspect(self) -> AspectRatio {
        AspectRatio { width: self.width, height: self.height }
    }

    /// Computes [`PhysicalSize::surface`].
    pub fn surface_configuration(&self) -> (config: SurfaceConfiguration)
        ensures
            config == self.surface(),
            config.non_empty(),
    {
        SurfaceConfiguration {
            width: if self.width == 0 {
                1
            } else {
                self.width
            },
            height: if self.height == 0 {
                1
            } else {
                self.height
            },
        }
    }

    /// Computes [`PhysicalSize::aspect`].
    pub fn aspect_ratio(&self) -> (aspect: AspectRatio)
        ensures
            aspect == self.aspect(),
    {
        AspectRatio { width: self.width, height: self.height }
    }
}

impl SurfaceConfiguration {
    /// Both sides are at least one pixel.
    pub open spec fn non_empty(self) -> bool {
        self.width >= 1 && self.height >= 1
    }

    /// The ratio of the surface's sides.
    pub open spec fn aspect(self) -> AspectRatio {
        AspectRatio { width: self.width, height: self.height }
    }

    /// Computes [`SurfaceConfiguration::aspect`].
    pub fn aspect_ratio(&self) -> (aspect: AspectRatio)
        ensures
            aspect == self.aspect(),
    {
        AspectRatio { width: self.width, height: self.height }
    }
}

} // verus!
