//! Shader-language targets and texture/uniform kinds for GPU processing.
use vstd::prelude::*;

verus! {

/// Target shader language.
#[derive(Debug, Clone, Copy, PartialEq, Eq, Structural)]
pub enum GpuLanguage {
    /// GLSL 1.20 (OpenGL 2.1)
    Glsl120,
    /// GLSL 3.30 (OpenGL 3.3)
    Glsl330,
    /// GLSL 4.00 (OpenGL 4.0)
    Glsl400,
    /// GLSL ES 3.00 (WebGL 2.0)
    GlslEs300,
    /// HLSL Shader Model 5.0
    Hlsl50,
    /// Metal Shading Language
    Metal,
}

/// The version directive that opens a shader in the given language.
pub open spec fn version_directive_of(l: GpuLanguage) -> Seq<char> {
    match l {
        GpuLanguage::Glsl120 => "#version 120"@,
        GpuLanguage::Glsl330 => "#version 330 core"@,
        GpuLanguage::Glsl400 => "#version 400 core"@,
        GpuLanguage::GlslEs300 => "#version 300 es\nprecision highp float;"@,
        GpuLanguage::Hlsl50 => ""@,
        GpuLanguage::Metal => ""@,
    }
}

impl GpuLanguage {
    /// The version directive for this language (empty for HLSL and Metal).
    pub fn version_directive(&self) -> (r: &'static str)
        ensures
            r@ == version_directive_of(*self),
    {
        match self {
            GpuLanguage::Glsl120 => "#version 120",
            GpuLanguage::Glsl330 => "#version 330 core",
            GpuLanguage::Glsl400 => "#version 400 core",
            GpuLanguage::GlslEs300 => "#version 300 es\nprecision highp float;",
            GpuLanguage::Hlsl50 => "",
            GpuLanguage::Metal => "",
        }
    }

    /// Whether this is a GLSL variant.
    pub fn is_glsl(&self) -> (r: bool)
        ensures
            r == (*self == GpuLanguage::Glsl120 || *self == GpuLanguage::Glsl330 || *self
                == GpuLanguage::Glsl400 || *self == GpuLanguage::GlslEs300),
    {
        match self {
            GpuLanguage::Glsl120 | GpuLanguage::Glsl330 | GpuLanguage::Glsl400
            | GpuLanguage::GlslEs300 => true,
            _ => false,
        }
    }
}

/// Texture type for GPU LUTs.
#[derive(Debug, Clone, Copy, PartialEq, Eq, Structural)]
pub enum GpuTextureType {
    /// 1D texture.
    Texture1D,
    /// 2D texture.
    Texture2D,
    /// 3D texture.
    Texture3D,
}

/// Texture interpolation mode.
#[derive(Debug, Clone, Copy, PartialEq, Eq, Structural)]
pub enum GpuInterpolation {
    /// Nearest neighbor.
    Nearest,
    /// Linear interpolation.
    Linear,
}

/// Uniform variable type.
#[derive(Debug, Clone, Copy, PartialEq, Eq, Structural)]
pub enum GpuUniformType {
    /// Single float.
    Float,
    /// 3-component vector.
    Vec3,
    /// 4-component vector.
    Vec4,
    /// 3x3 matrix.
    Mat3,
    /// 4x4 matrix.
    Mat4,
}

} // verus!
