//! Fixed-function draw state: a plain value applied on every draw.
use vstd::prelude::*;
use crate::target::Rect;

verus! {

/// Which winding counts as the front of a triangle.
#[derive(Clone, Copy, Debug, PartialEq, Eq, Structural)]
pub enum FrontFace {
    Clockwise,
    CounterClockwise,
}

/// Which faces are culled.
#[derive(Clone, Copy, Debug, PartialEq, Eq, Structural)]
pub enum CullMode {
    CullNothing,
    CullFront,
    CullBack,
}

/// How primitives are rasterized.
#[derive(Clone, Copy, Debug, PartialEq, Eq, Structural)]
pub enum RasterMethod {
    /// Only the vertices.
    Point,
    /// The edges, with a line width in pixels.
    Line(u16),
    /// Filled faces, with the faces to cull.
    Fill(CullMode),
}

/// Rasterizer configuration.
#[derive(Clone, Copy, Debug, PartialEq, Eq, Structural)]
pub struct Primitive {
    pub front_face: FrontFace,
    pub method: RasterMethod,
}

impl Primitive {
    /// The cull mode that the raster method implies.
    pub open spec fn cull_mode_spec(&self) -> CullMode {
        match self.method {
            RasterMethod::Fill(mode) => mode,
            _ => CullMode::CullNothing,
        }
    }

    /// The cull mode that the raster method implies: only filled faces
    /// are ever culled.
    pub fn get_cull_mode(&self) -> (r: CullMode)
        ensures
            r == self.cull_mode_spec(),
    {
        match self.method {
            RasterMethod::Fill(mode) => mode,
            _ => CullMode::CullNothing,
        }
    }
}

/// A comparison function for depth and stencil tests.
#[derive(Clone, Copy, Debug, PartialEq, Eq, Structural)]
pub enum Comparison {
    Never,
    Less,
    LessEqual,
    Equal,
    GreaterEqual,
    Greater,
    NotEqual,
    Always,
}

/// Depth test configuration.
#[derive(Clone, Copy, Debug, PartialEq, Eq, Structural)]
pub struct Depth {
    pub fun: Comparison,
    pub write: bool,
}

/// Stencil test configuration.
#[derive(Clone, Copy, Debug, PartialEq, Eq, Structural)]
pub struct Stencil {
    pub fun: Comparison,
    pub value: u8,
    pub mask_read: u8,
    pub mask_write: u8,
}

/// A blend factor.
#[derive(Clone, Copy, Debug, PartialEq, Eq, Structural)]
pub enum Factor {
    Zero,
    One,
    SourceAlpha,
    OneMinusSourceAlpha,
    DestAlpha,
    OneMinusDestAlpha,
}

/// A blend equation.
#[derive(Clone, Copy, Debug, PartialEq, Eq, Structural)]
pub enum Equation {
    Add,
    Sub,
    RevSub,
    Min,
    Max,
}

/// Blending configuration.
#[derive(Clone, Copy, Debug, PartialEq, Eq, Structural)]
pub struct Blend {
    pub equation: Equation,
    pub source: Factor,
    pub destination: Factor,
}

/// Which color channels are written: bit 0 red, 1 green, 2 blue, 3 alpha.
pub type ColorMask = u8;

/// All channels written.
pub const MASK_ALL: ColorMask = 15;

/// The complete fixed-function state of a draw call.
#[derive(Clone, Copy, Debug, PartialEq, Eq, Structural)]
pub struct DrawState {
    pub primitive: Primitive,
    pub scissor: Option<Rect>,
    pub depth: Option<Depth>,
    pub stencil: Option<Stencil>,
    pub blend: Option<Blend>,
    pub color_mask: ColorMask,
}

impl DrawState {
    /// Counter-clockwise filled faces, no culling, no tests, no blending,
    /// every channel written.
    pub fn new() -> (r: DrawState)
        ensures
            r.primitive == (Primitive {
                front_face: FrontFace::CounterClockwise,
                method: RasterMethod::Fill(CullMode::CullNothing),
            }),
            r.scissor is None,
            r.depth is None,
            r.stencil is None,
            r.blend is None,
            r.color_mask == MASK_ALL,
    {
        DrawState {
            primitive: Primitive {
                front_face: FrontFace::CounterClockwise,
                method: RasterMethod::Fill(CullMode::CullNothing),
            },
            scissor: None,
            depth: None,
            stencil: None,
            blend: None,
            color_mask: MASK_ALL,
        }
    }
}

} // verus!
