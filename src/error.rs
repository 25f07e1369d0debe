//! The closed set of failures of binding and drawing.
use vstd::prelude::*;

verus! {

/// A declared parameter for which no value was supplied.
#[derive(Clone, Debug, PartialEq, Eq)]
pub enum ParameterError {
    /// Error from a uniform value.
    ErrorParamUniform(String),
    /// Error from a uniform block.
    ErrorParamBlock(String),
    /// Error from a texture.
    ErrorParamTexture(String),
    /// Error from a sampler.
    ErrorParamSampler(String),
}

/// A mesh that does not fit a program's vertex inputs.
#[derive(Clone, Debug, PartialEq, Eq)]
pub enum MeshError {
    /// A required attribute was missing.
    ErrorAttributeMissing(String),
    /// An attribute's storage type cannot feed the shader input's type.
    ErrorAttributeType,
}

/// An error that can happen when trying to draw.
#[derive(Clone, Debug, PartialEq, Eq)]
pub enum DrawError {
    /// Error with a program.
    ErrorProgram,
    /// Error with the program's parameters.
    ErrorParameter(ParameterError),
    /// Error with the mesh.
    ErrorMesh(MeshError),
    /// Error with the mesh slice.
    ErrorSlice,
}

/// Why a shader stage failed to compile.
#[derive(Clone, Copy, Debug, PartialEq, Eq, Structural)]
pub enum CreateShaderError {
    /// The device does not support the shader model.
    ModelNotSupported,
    /// The compiler rejected the source.
    ShaderCompilationFailed,
}

/// Program linking error.
#[derive(Clone, Debug, PartialEq, Eq)]
pub enum ProgramError {
    /// Unable to compile the vertex shader.
    ErrorVertex(CreateShaderError),
    /// Unable to compile the fragment shader.
    ErrorFragment(CreateShaderError),
    /// Unable to link.
    ErrorLink,
    /// Unable to connect parameters.
    ErrorParameters(ParameterError),
}

} // verus!
