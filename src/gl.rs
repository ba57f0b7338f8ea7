use vstd::prelude::*;

verus! {

/// Capability of blending.
pub const BLEND: u32 = 0x0BE2;
/// Capability of the depth test.
pub const DEPTH_TEST: u32 = 0x0B71;
/// Capability of face culling.
pub const CULL_FACE: u32 = 0x0B44;

pub const FUNC_ADD: u32 = 0x8006;
pub const FUNC_SUBTRACT: u32 = 0x800A;
pub const FUNC_REVERSE_SUBTRACT: u32 = 0x800B;
pub const MIN: u32 = 0x8007;
pub const MAX: u32 = 0x8008;

pub const ZERO: u32 = 0;
pub const ONE: u32 = 1;
pub const SRC_COLOR: u32 = 0x0300;
pub const ONE_MINUS_SRC_COLOR: u32 = 0x0301;
pub const SRC_ALPHA: u32 = 0x0302;
pub const ONE_MINUS_SRC_ALPHA: u32 = 0x0303;
pub const DST_ALPHA: u32 = 0x0304;
pub const ONE_MINUS_DST_ALPHA: u32 = 0x0305;
pub const DST_COLOR: u32 = 0x0306;
pub const ONE_MINUS_DST_COLOR: u32 = 0x0307;
pub const SRC_ALPHA_SATURATE: u32 = 0x0308;

pub const NEVER: u32 = 0x0200;
pub const LESS: u32 = 0x0201;
pub const EQUAL: u32 = 0x0202;
pub const LEQUAL: u32 = 0x0203;
pub const GREATER: u32 = 0x0204;
pub const NOTEQUAL: u32 = 0x0205;
pub const GEQUAL: u32 = 0x0206;
pub const ALWAYS: u32 = 0x0207;

pub const CW: u32 = 0x0900;
pub const CCW: u32 = 0x0901;

pub const FRONT: u32 = 0x0404;
pub const BACK: u32 = 0x0405;
pub const FRONT_AND_BACK: u32 = 0x0408;

pub const TEXTURE0: u32 = 0x84C0;
pub const TEXTURE_2D: u32 = 0x0DE1;

pub const ARRAY_BUFFER: u32 = 0x8892;
pub const ELEMENT_ARRAY_BUFFER: u32 = 0x8893;
pub const UNIFORM_BUFFER: u32 = 0x8A11;
pub const DRAW_FRAMEBUFFER: u32 = 0x8CA9;

pub const INT: u32 = 0x1404;
pub const UNSIGNED_INT: u32 = 0x1405;
pub const FLOAT: u32 = 0x1406;
pub const BOOL: u32 = 0x8B56;
pub const INT_VEC2: u32 = 0x8B53;
pub const INT_VEC3: u32 = 0x8B54;
pub const INT_VEC4: u32 = 0x8B55;
pub const UNSIGNED_INT_VEC2: u32 = 0x8DC6;
pub const UNSIGNED_INT_VEC3: u32 = 0x8DC7;
pub const UNSIGNED_INT_VEC4: u32 = 0x8DC8;
pub const FLOAT_VEC2: u32 = 0x8B50;
pub const FLOAT_VEC3: u32 = 0x8B51;
pub const FLOAT_VEC4: u32 = 0x8B52;
pub const BOOL_VEC2: u32 = 0x8B57;
pub const BOOL_VEC3: u32 = 0x8B58;
pub const BOOL_VEC4: u32 = 0x8B59;
pub const FLOAT_MAT2: u32 = 0x8B5A;
pub const FLOAT_MAT3: u32 = 0x8B5B;
pub const FLOAT_MAT4: u32 = 0x8B5C;
pub const SAMPLER_2D: u32 = 0x8B5E;
pub const SAMPLER_3D: u32 = 0x8B5F;
pub const SAMPLER_CUBE: u32 = 0x8B60;

pub const FRAGMENT_SHADER: u32 = 0x8B30;
pub const VERTEX_SHADER: u32 = 0x8B31;

/// A state-changing driver call, with its raw arguments.
///
/// The pipeline state cache hands these out when a requested change differs
/// from its shadow copy; the caller performs them on the live context.
#[derive(Clone, Copy, Debug, PartialEq, Eq, Structural)]
pub enum GlCall {
    Enable(u32),
    Disable(u32),
    BlendEquation(u32),
    /// Source and destination factors.
    BlendFunc(u32, u32),
    DepthFunc(u32),
    FrontFace(u32),
    CullFace(u32),
    ActiveTexture(u32),
    /// Target and texture object.
    BindTexture(u32, u32),
    /// Target, binding index and buffer object.
    BindBufferBase(u32, u32, u32),
    /// Target and buffer object.
    BindBuffer(u32, u32),
    /// Target and framebuffer object.
    BindFramebuffer(u32, u32),
    BindVertexArray(u32),
    UseProgram(u32),
}

} // verus!
