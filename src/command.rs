//! The low-level command sequence a renderer records.
use vstd::prelude::*;
use crate::mesh::{AttribType, IndexType, PrimitiveType};
use crate::shade::{
    BufferName, ImageInfo, Location, ProgramName, SamplerName, TextureKind, UniformValue,
};
use crate::state::{Blend, ColorMask, CullMode, Depth, Primitive, Stencil};
use crate::target::{Rect, SurfaceHandle, Target, TextureName};

verus! {

/// A frame buffer object known to the device.
pub type FrameBufferName = u32;

/// A vertex array object known to the device.
pub type ArrayBufferName = u32;

/// What a clear call resets: a packed RGBA8 color, a depth value in
/// fixed point, and a stencil value.
#[derive(Clone, Copy, Debug, PartialEq, Eq, Structural)]
pub struct ClearData {
    pub color: Option<u32>,
    pub depth: Option<u32>,
    pub stencil: Option<u8>,
}

/// One primitive graphics operation.
#[derive(Clone, Debug, PartialEq, Eq)]
pub enum Command {
    SetViewport(Rect),
    Clear(ClearData),
    BindFrameBuffer(FrameBufferName),
    UnbindTarget(Target),
    BindTargetSurface(Target, SurfaceHandle),
    BindTargetTexture(Target, TextureName, u8, u16),
    BindProgram(ProgramName),
    SetPrimitive(Primitive),
    SetScissor(Option<Rect>),
    SetDepthStencil(Option<Depth>, Option<Stencil>, CullMode),
    SetBlend(Option<Blend>),
    SetColorMask(ColorMask),
    BindArrayBuffer(ArrayBufferName),
    /// Attribute slot, buffer, element count, element type, stride, offset.
    BindAttribute(u8, BufferName, u8, AttribType, u8, u32),
    BindUniform(Location, UniformValue),
    /// Program, uniform buffer slot, block index, buffer.
    BindUniformBlock(ProgramName, u8, u8, BufferName),
    /// Texture slot, kind, texture, sampler.
    BindTexture(u8, TextureKind, TextureName, SamplerName),
    BindIndex(BufferName),
    Draw(PrimitiveType, u32, u32),
    DrawIndexed(PrimitiveType, IndexType, u32, u32),
    /// Buffer, bytes, offset in bytes.
    UpdateBuffer(BufferName, Vec<u8>, usize),
    /// Kind, texture, region, bytes.
    UpdateTexture(TextureKind, TextureName, ImageInfo, Vec<u8>),
}

} // verus!
