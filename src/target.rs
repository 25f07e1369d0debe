//! Render targets: frames and the attachments they are made of.
use vstd::prelude::*;

verus! {

/// Number of color attachment slots in a frame.
pub const MAX_COLOR_TARGETS: usize = 4;

/// A renderable surface known to the device.
pub type SurfaceHandle = u32;

/// A texture object known to the device.
pub type TextureName = u32;

/// What one attachment slot of a frame holds.
#[derive(Clone, Copy, Debug, PartialEq, Eq, Structural)]
pub enum Plane {
    /// Nothing is attached.
    PlaneEmpty,
    /// A renderable surface.
    PlaneSurface(SurfaceHandle),
    /// A texture, with its mip level and layer.
    PlaneTexture(TextureName, u8, u16),
}

/// An attachment point of a frame buffer.
#[derive(Clone, Copy, Debug, PartialEq, Eq, Structural)]
pub enum Target {
    /// Color attachment with the given index.
    TargetColor(u8),
    /// The depth attachment.
    TargetDepth,
    /// The stencil attachment.
    TargetStencil,
}

/// A rectangle in pixels.
#[derive(Clone, Copy, Debug, PartialEq, Eq, Structural)]
pub struct Rect {
    pub x: u16,
    pub y: u16,
    pub w: u16,
    pub h: u16,
}

/// A target description: dimensions plus color, depth and stencil
/// attachments.
#[derive(Clone, Copy, Debug, PartialEq, Eq)]
pub struct Frame {
    pub width: u16,
    pub height: u16,
    pub colors: [Plane; MAX_COLOR_TARGETS],
    pub depth: Plane,
    pub stencil: Plane,
}

impl Frame {
    /// A frame of the given size with nothing attached.
    pub fn new(width: u16, height: u16) -> (r: Frame)
        ensures
            r.width == width,
            r.height == height,
            r.is_default_spec(),
    {
        Frame {
            width,
            height,
            colors: [Plane::PlaneEmpty, Plane::PlaneEmpty, Plane::PlaneEmpty, Plane::PlaneEmpty],
            depth: Plane::PlaneEmpty,
            stencil: Plane::PlaneEmpty,
        }
    }

    /// A frame is the platform's default target when nothing is attached.
    pub open spec fn is_default_spec(&self) -> bool {
        &&& forall|i: int| 0 <= i < MAX_COLOR_TARGETS ==> #[trigger] self.colors@[i] == Plane::PlaneEmpty
        &&& self.depth == Plane::PlaneEmpty
        &&& self.stencil == Plane::PlaneEmpty
    }

    /// Whether this frame stands for the platform-provided target.
    pub fn is_default(&self) -> (r: bool)
        ensures
            r == self.is_default_spec(),
    {
        let mut i: usize = 0;
        while i < MAX_COLOR_TARGETS
            invariant
                i <= MAX_COLOR_TARGETS,
                forall|j: int| 0 <= j < i ==> #[trigger] self.colors@[j] == Plane::PlaneEmpty,
            decreases MAX_COLOR_TARGETS - i,
        {
            if self.colors[i] != Plane::PlaneEmpty {
                return false;
            }
            i = i + 1;
        }
        self.depth == Plane::PlaneEmpty && self.stencil == Plane::PlaneEmpty
    }
}

} // verus!
