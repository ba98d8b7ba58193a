//! The closed sets of driver constants the engine uses, with their numeric
//! codes.

use vstd::prelude::*;

verus! {

/// Binding points a buffer object can be attached to.
#[derive(Clone, Copy, Debug, PartialEq, Eq, Hash, Structural)]
pub enum BufferTarget {
    ArrayBuffer,
    CopyReadBuffer,
    CopyWriteBuffer,
    ElementArrayBuffer,
    PixelPackBuffer,
    PixelUnpackBuffer,
    TextureBuffer,
    TransformFeedbackBuffer,
    UniformBuffer,
}

impl BufferTarget {
    /// The driver's numeric name for this binding point.
    pub open spec fn spec_code(self) -> u32 {
        match self {
            BufferTarget::ArrayBuffer => 0x8892,
            BufferTarget::CopyReadBuffer => 0x8F36,
            BufferTarget::CopyWriteBuffer => 0x8F37,
            BufferTarget::ElementArrayBuffer => 0x8893,
            BufferTarget::PixelPackBuffer => 0x88EB,
            BufferTarget::PixelUnpackBuffer => 0x88EC,
            BufferTarget::TextureBuffer => 0x8C2A,
            BufferTarget::TransformFeedbackBuffer => 0x8C8E,
            BufferTarget::UniformBuffer => 0x8A11,
        }
    }

    #[verifier::when_used_as_spec(spec_code)]
    pub fn code(self) -> (c: u32)
        ensures
            c == self.spec_code(),
    {
        match self {
            BufferTarget::ArrayBuffer => 0x8892,
            BufferTarget::CopyReadBuffer => 0x8F36,
            BufferTarget::CopyWriteBuffer => 0x8F37,
            BufferTarget::ElementArrayBuffer => 0x8893,
            BufferTarget::PixelPackBuffer => 0x88EB,
            BufferTarget::PixelUnpackBuffer => 0x88EC,
            BufferTarget::TextureBuffer => 0x8C2A,
            BufferTarget::TransformFeedbackBuffer => 0x8C8E,
            BufferTarget::UniformBuffer => 0x8A11,
        }
    }
}

/// How the contents of a buffer are expected to be used.
#[derive(Clone, Copy, Debug, PartialEq, Eq, Hash, Structural)]
pub enum BufferUsage {
    StreamDraw,
    StreamRead,
    StreamCopy,
    StaticDraw,
    StaticRead,
    StaticCopy,
    DynamicDraw,
    DynamicRead,
    DynamicCopy,
}

impl BufferUsage {
    /// The driver's numeric name for this usage hint.
    pub open spec fn spec_code(self) -> u32 {
        match self {
            BufferUsage::StreamDraw => 0x88E0,
            BufferUsage::StreamRead => 0x88E1,
            BufferUsage::StreamCopy => 0x88E2,
            BufferUsage::StaticDraw => 0x88E4,
            BufferUsage::StaticRead => 0x88E5,
            BufferUsage::StaticCopy => 0x88E6,
            BufferUsage::DynamicDraw => 0x88E8,
            BufferUsage::DynamicRead => 0x88E9,
            BufferUsage::DynamicCopy => 0x88EA,
        }
    }

    #[verifier::when_used_as_spec(spec_code)]
    pub fn code(self) -> (c: u32)
        ensures
            c == self.spec_code(),
    {
        match self {
            BufferUsage::StreamDraw => 0x88E0,
            BufferUsage::StreamRead => 0x88E1,
            BufferUsage::StreamCopy => 0x88E2,
            BufferUsage::StaticDraw => 0x88E4,
            BufferUsage::StaticRead => 0x88E5,
            BufferUsage::StaticCopy => 0x88E6,
            BufferUsage::DynamicDraw => 0x88E8,
            BufferUsage::DynamicRead => 0x88E9,
            BufferUsage::DynamicCopy => 0x88EA,
        }
    }
}

/// Component types of vertex attributes and indices.
#[derive(Clone, Copy, Debug, PartialEq, Eq, Hash, Structural)]
pub enum DataType {
    Byte,
    UnsignedByte,
    Short,
    UnsignedShort,
    Int,
    UnsignedInt,
    HalfFloat,
    Float,
    Double,
    Int2_10_10_10Rev,
    UnsignedInt2_10_10_10Rev,
}

impl DataType {
    /// The driver's numeric name for this component type.
    pub open spec fn spec_code(self) -> u32 {
        match self {
            DataType::Byte => 0x1400,
            DataType::UnsignedByte => 0x1401,
            DataType::Short => 0x1402,
            DataType::UnsignedShort => 0x1403,
            DataType::Int => 0x1404,
            DataType::UnsignedInt => 0x1405,
            DataType::HalfFloat => 0x140B,
            DataType::Float => 0x1406,
            DataType::Double => 0x140A,
            DataType::Int2_10_10_10Rev => 0x8D9F,
            DataType::UnsignedInt2_10_10_10Rev => 0x8368,
        }
    }

    #[verifier::when_used_as_spec(spec_code)]
    pub fn code(self) -> (c: u32)
        ensures
            c == self.spec_code(),
    {
        match self {
            DataType::Byte => 0x1400,
            DataType::UnsignedByte => 0x1401,
            DataType::Short => 0x1402,
            DataType::UnsignedShort => 0x1403,
            DataType::Int => 0x1404,
            DataType::UnsignedInt => 0x1405,
            DataType::HalfFloat => 0x140B,
            DataType::Float => 0x1406,
            DataType::Double => 0x140A,
            DataType::Int2_10_10_10Rev => 0x8D9F,
            DataType::UnsignedInt2_10_10_10Rev => 0x8368,
        }
    }
}

/// The two programmable stages a shader program is linked from.
#[derive(Clone, Copy, Debug, PartialEq, Eq, Hash, Structural)]
pub enum ShaderStage {
    Vertex,
    Fragment,
}

impl ShaderStage {
    /// The driver's numeric name for this stage.
    pub open spec fn spec_code(self) -> u32 {
        match self {
            ShaderStage::Vertex => 0x8B31,
            ShaderStage::Fragment => 0x8B30,
        }
    }

    #[verifier::when_used_as_spec(spec_code)]
    pub fn code(self) -> (c: u32)
        ensures
            c == self.spec_code(),
    {
        match self {
            ShaderStage::Vertex => 0x8B31,
            ShaderStage::Fragment => 0x8B30,
        }
    }
}

/// How the indices of a draw are assembled into primitives.
#[derive(Clone, Copy, Debug, PartialEq, Eq, Hash, Structural)]
pub enum Primitive {
    Points,
    Lines,
    Triangles,
}

impl Primitive {
    /// The driver's numeric name for this primitive kind.
    pub open spec fn spec_code(self) -> u32 {
        match self {
            Primitive::Points => 0x0000,
            Primitive::Lines => 0x0001,
            Primitive::Triangles => 0x0004,
        }
    }

    #[verifier::when_used_as_spec(spec_code)]
    pub fn code(self) -> (c: u32)
        ensures
            c == self.spec_code(),
    {
        match self {
            Primitive::Points => 0x0000,
            Primitive::Lines => 0x0001,
            Primitive::Triangles => 0x0004,
        }
    }
}

} // verus!
