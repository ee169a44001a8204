//! The catalog of buffer element types and buffer binding targets, with the
//! numeric code that the rendering context knows each of them by.

use vstd::prelude::*;

verus! {

/// Usage hint of a buffer that is written once and drawn from many times.
pub const STATIC_DRAW: u32 = 0x88E4;

/// Draw mode in which each index after the first two closes a triangle with
/// the two before it.
pub const TRIANGLE_STRIP: u32 = 0x0005;

/// Mask bit of the color buffer in a clear.
pub const COLOR_BUFFER_BIT: u32 = 0x4000;

/// Kind of a vertex shader.
pub const VERTEX_SHADER: u32 = 0x8B31;

/// Kind of a fragment shader.
pub const FRAGMENT_SHADER: u32 = 0x8B30;

/// Parameter of a shader that says whether it compiled.
pub const COMPILE_STATUS: u32 = 0x8B81;

/// Parameter of a program that says whether it linked.
pub const LINK_STATUS: u32 = 0x8B82;

/// Scalar element types of a GPU buffer.
#[derive(Copy, Clone, Debug, PartialEq, Eq, Structural)]
pub enum BufferDataType {
    Byte,
    Short,
    UnsignedByte,
    UnsignedShort,
    /// 32-bit float.
    Float,
    HalfFloat,
    Int,
    UnsignedInt,
}

/// Binding points of a GPU buffer.
#[derive(Copy, Clone, Debug, PartialEq, Eq, Structural)]
pub enum BufferTarget {
    ArrayBuffer,
    ElementArrayBuffer,
    CopyReadBuffer,
    CopyWriteBuffer,
    TransformFeedbackBuffer,
    UniformBuffer,
    PixelPackBuffer,
    PixelUnpackBuffer,
}

impl BufferTarget {
    /// The context's constant for this binding point.
    pub open spec fn code(self) -> u32 {
        match self {
            BufferTarget::ArrayBuffer => 0x8892,
            BufferTarget::ElementArrayBuffer => 0x8893,
            BufferTarget::CopyReadBuffer => 0x8F36,
            BufferTarget::CopyWriteBuffer => 0x8F37,
            BufferTarget::TransformFeedbackBuffer => 0x8C8E,
            BufferTarget::UniformBuffer => 0x8A11,
            BufferTarget::PixelPackBuffer => 0x88EB,
            BufferTarget::PixelUnpackBuffer => 0x88EC,
        }
    }

    /// The constant by which the context knows this binding point.
    pub fn websys_code(&self) -> (code: u32)
        ensures
            code == self.code(),
    {
        match self {
            Self::ArrayBuffer => 0x8892,
            Self::ElementArrayBuffer => 0x8893,
            Self::CopyReadBuffer => 0x8F36,
            Self::CopyWriteBuffer => 0x8F37,
            Self::TransformFeedbackBuffer => 0x8C8E,
            Self::UniformBuffer => 0x8A11,
            Self::PixelPackBuffer => 0x88EB,
            Self::PixelUnpackBuffer => 0x88EC,
        }
    }

    /// No two binding points share a code.
    pub proof fn lemma_code_injective(a: BufferTarget, b: BufferTarget)
        requires
            a.code() == b.code(),
        ensures
            a == b,
    {
    }
}

impl BufferDataType {
    /// The context's constant for this element type.
    pub open spec fn code(self) -> u32 {
        match self {
            BufferDataType::Byte => 0x1400,
            BufferDataType::UnsignedByte => 0x1401,
            BufferDataType::Short => 0x1402,
            BufferDataType::UnsignedShort => 0x1403,
            BufferDataType::Int => 0x1404,
            BufferDataType::UnsignedInt => 0x1405,
            BufferDataType::Float => 0x1406,
            BufferDataType::HalfFloat => 0x140B,
        }
    }

    /// Bytes that one element of this type occupies in a buffer.
    pub open spec fn width(self) -> nat {
        match self {
            BufferDataType::Byte | BufferDataType::UnsignedByte => 1,
            BufferDataType::Short | BufferDataType::UnsignedShort | BufferDataType::HalfFloat => 2,
            BufferDataType::Int | BufferDataType::UnsignedInt | BufferDataType::Float => 4,
        }
    }

    /// The constant by which the context knows this element type.
    pub fn websys_code(&self) -> (code: u32)
        ensures
            code == self.code(),
    {
        match self {
            Self::Byte => 0x1400,
            Self::Short => 0x1402,
            Self::UnsignedByte => 0x1401,
            Self::UnsignedShort => 0x1403,
            Self::Float => 0x1406,
            Self::HalfFloat => 0x140B,
            Self::Int => 0x1404,
            Self::UnsignedInt => 0x1405,
        }
    }

    /// Bytes that one element of this type occupies in a buffer.
    pub fn byte_width(&self) -> (width: usize)
        ensures
            width == self.width(),
    {
        match self {
            Self::Byte | Self::UnsignedByte => 1,
            Self::Short | Self::UnsignedShort | Self::HalfFloat => 2,
            Self::Int | Self::UnsignedInt | Self::Float => 4,
        }
    }

    /// No two element types share a code.
    pub proof fn lemma_code_injective(a: BufferDataType, b: BufferDataType)
        requires
            a.code() == b.code(),
        ensures
            a == b,
    {
    }
}

} // verus!
