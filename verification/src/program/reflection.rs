//! What a linked program reports of its uniforms, attributes and transform feedback outputs.
//! OpenGL reports types and modes as enumerants, which are turned into the types below.

use vstd::prelude::*;

use crate::gl;

verus! {

/// Information about a uniform (except its name).
#[derive(Debug, Copy, Clone, PartialEq, Eq, Structural)]
pub struct Uniform {
    /// The location of the uniform.
    ///
    /// This is internal information, you probably don't need to use it.
    pub location: i32,
    /// Type of the uniform.
    pub ty: UniformType,
    /// If it is an array, the number of elements.
    pub size: Option<usize>,
}

/// Information about a uniform block (except its name).
#[derive(Debug, Clone)]
pub struct UniformBlock {
    /// The binding point of the uniform.
    ///
    /// This is internal information, you probably don't need to use it.
    pub binding: i32,
    /// Size in bytes of the data in the block.
    pub size: usize,
    /// List of elements in the block.
    pub members: Vec<UniformBlockMember>,
}

/// Information about a uniform inside a block.
#[derive(Debug, Clone)]
pub struct UniformBlockMember {
    /// Name of the member.
    pub name: String,
    /// Offset of the member in the block.
    pub offset: usize,
    /// Type of the uniform.
    pub ty: UniformType,
    /// If it is an array, the number of elements.
    pub size: Option<usize>,
}

/// Information about an attribute of a program (except its name).
#[derive(Debug, Copy, Clone, PartialEq, Eq, Structural)]
pub struct Attribute {
    /// The index of the attribute.
    ///
    /// This is internal information, you probably don't need to use it.
    pub location: i32,
    /// Type of the attribute.
    pub ty: AttributeType,
    /// Number of elements of the attribute.
    pub size: usize,
}

/// Describes the layout of a buffer that can receive transform feedback output.
#[derive(Debug, Clone)]
pub struct TransformFeedbackBuffer {
    /// Slot of this buffer.
    ///
    /// This is internal information, you probably don't need to use it.
    pub id: i32,
    /// List of elements inside the buffer.
    pub elements: Vec<TransformFeedbackVarying>,
    /// Size in bytes between two consecutive elements.
    pub stride: usize,
}

/// Describes a varying that is being output with transform feedback.
#[derive(Debug, Clone)]
pub struct TransformFeedbackVarying {
    /// Name of the variable.
    pub name: String,
    /// Number of bytes between the start of the first element and the start of this one.
    pub offset: usize,
    /// Size in bytes of this value.
    pub size: usize,
    /// Type of the value.
    pub ty: AttributeType,
}

/// Type of transform feedback. Only used with the legacy interface.
#[derive(Debug, Copy, Clone, PartialEq, Eq, Structural)]
pub enum TransformFeedbackMode {
    /// Each value is interleaved in the same buffer.
    Interleaved,
    /// Each value will go in a separate buffer.
    Separate,
}

/// Type of primitives that is being output by transform feedback.
#[derive(Debug, Copy, Clone, PartialEq, Eq, Structural)]
pub enum OutputPrimitives {
    /// Points.
    Points,
    /// Lines.
    Lines,
    /// Triangles.
    Triangles,
}

/// Type of a uniform in a program.
#[derive(Debug, Clone, Copy, PartialEq, Eq, Hash, Structural)]
#[allow(missing_docs)]
pub enum UniformType {
    Float,
    FloatVec2,
    FloatVec3,
    FloatVec4,
    Double,
    DoubleVec2,
    DoubleVec3,
    DoubleVec4,
    Int,
    IntVec2,
    IntVec3,
    IntVec4,
    UnsignedInt,
    UnsignedIntVec2,
    UnsignedIntVec3,
    UnsignedIntVec4,
    Bool,
    BoolVec2,
    BoolVec3,
    BoolVec4,
    FloatMat2,
    FloatMat3,
    FloatMat4,
    FloatMat2x3,
    FloatMat2x4,
    FloatMat3x2,
    FloatMat3x4,
    FloatMat4x2,
    FloatMat4x3,
    DoubleMat2,
    DoubleMat3,
    DoubleMat4,
    DoubleMat2x3,
    DoubleMat2x4,
    DoubleMat3x2,
    DoubleMat3x4,
    DoubleMat4x2,
    DoubleMat4x3,
    Sampler1d,
    Sampler2d,
    Sampler3d,
    SamplerCube,
    Sampler1dShadow,
    Sampler2dShadow,
    Sampler1dArray,
    Sampler2dArray,
    Sampler1dArrayShadow,
    Sampler2dArrayShadow,
    Sampler2dMultisample,
    Sampler2dMultisampleArray,
    SamplerCubeShadow,
    SamplerBuffer,
    Sampler2dRect,
    Sampler2dRectShadow,
    ISampler1d,
    ISampler2d,
    ISampler3d,
    ISamplerCube,
    ISampler1dArray,
    ISampler2dArray,
    ISampler2dMultisample,
    ISampler2dMultisampleArray,
    ISamplerBuffer,
    ISampler2dRect,
    USampler1d,
    USampler2d,
    USampler3d,
    USamplerCube,
    USampler2dArray,
    USampler2dMultisample,
    USampler2dMultisampleArray,
    USamplerBuffer,
    USampler2dRect,
    Image1d,
    Image2d,
    Image3d,
    Image2dRect,
    ImageCube,
    ImageBuffer,
    Image1dArray,
    Image2dArray,
    Image2dMultisample,
    Image2dMultisampleArray,
    IImage1d,
    IImage2d,
    IImage3d,
    IImage2dRect,
    IImageCube,
    IImageBuffer,
    IImage1dArray,
    IImage2dArray,
    IImage2dMultisample,
    IImage2dMultisampleArray,
    UImage1d,
    UImage2d,
    UImage3d,
    UImage2dRect,
    UImageCube,
    UImageBuffer,
    UImage1dArray,
    UImage2dArray,
    UImage2dMultisample,
    UImage2dMultisampleArray,
    AtomicCounterUint,
}

impl UniformType {
    /// The OpenGL enumerant of this uniform type.
    pub open spec fn glenum(self) -> u32 {
        match self {
            UniformType::Float => gl::FLOAT,
            UniformType::FloatVec2 => gl::FLOAT_VEC2,
            UniformType::FloatVec3 => gl::FLOAT_VEC3,
            UniformType::FloatVec4 => gl::FLOAT_VEC4,
            UniformType::Double => gl::DOUBLE,
            UniformType::DoubleVec2 => gl::DOUBLE_VEC2,
            UniformType::DoubleVec3 => gl::DOUBLE_VEC3,
            UniformType::DoubleVec4 => gl::DOUBLE_VEC4,
            UniformType::Int => gl::INT,
            UniformType::IntVec2 => gl::INT_VEC2,
            UniformType::IntVec3 => gl::INT_VEC3,
            UniformType::IntVec4 => gl::INT_VEC4,
            UniformType::UnsignedInt => gl::UNSIGNED_INT,
            UniformType::UnsignedIntVec2 => gl::UNSIGNED_INT_VEC2,
            UniformType::UnsignedIntVec3 => gl::UNSIGNED_INT_VEC3,
            UniformType::UnsignedIntVec4 => gl::UNSIGNED_INT_VEC4,
            UniformType::Bool => gl::BOOL,
            UniformType::BoolVec2 => gl::BOOL_VEC2,
            UniformType::BoolVec3 => gl::BOOL_VEC3,
            UniformType::BoolVec4 => gl::BOOL_VEC4,
            UniformType::FloatMat2 => gl::FLOAT_MAT2,
            UniformType::FloatMat3 => gl::FLOAT_MAT3,
            UniformType::FloatMat4 => gl::FLOAT_MAT4,
            UniformType::FloatMat2x3 => gl::FLOAT_MAT2x3,
            UniformType::FloatMat2x4 => gl::FLOAT_MAT2x4,
            UniformType::FloatMat3x2 => gl::FLOAT_MAT3x2,
            UniformType::FloatMat3x4 => gl::FLOAT_MAT3x4,
            UniformType::FloatMat4x2 => gl::FLOAT_MAT4x2,
            UniformType::FloatMat4x3 => gl::FLOAT_MAT4x3,
            UniformType::DoubleMat2 => gl::DOUBLE_MAT2,
            UniformType::DoubleMat3 => gl::DOUBLE_MAT3,
            UniformType::DoubleMat4 => gl::DOUBLE_MAT4,
            UniformType::DoubleMat2x3 => gl::DOUBLE_MAT2x3,
            UniformType::DoubleMat2x4 => gl::DOUBLE_MAT2x4,
            UniformType::DoubleMat3x2 => gl::DOUBLE_MAT3x2,
            UniformType::DoubleMat3x4 => gl::DOUBLE_MAT3x4,
            UniformType::DoubleMat4x2 => gl::DOUBLE_MAT4x2,
            UniformType::DoubleMat4x3 => gl::DOUBLE_MAT4x3,
            UniformType::Sampler1d => gl::SAMPLER_1D,
            UniformType::Sampler2d => gl::SAMPLER_2D,
            UniformType::Sampler3d => gl::SAMPLER_3D,
            UniformType::SamplerCube => gl::SAMPLER_CUBE,
            UniformType::Sampler1dShadow => gl::SAMPLER_1D_SHADOW,
            UniformType::Sampler2dShadow => gl::SAMPLER_2D_SHADOW,
            UniformType::Sampler1dArray => gl::SAMPLER_1D_ARRAY,
            UniformType::Sampler2dArray => gl::SAMPLER_2D_ARRAY,
            UniformType::Sampler1dArrayShadow => gl::SAMPLER_1D_ARRAY_SHADOW,
            UniformType::Sampler2dArrayShadow => gl::SAMPLER_2D_ARRAY_SHADOW,
            UniformType::Sampler2dMultisample => gl::SAMPLER_2D_MULTISAMPLE,
            UniformType::Sampler2dMultisampleArray => gl::SAMPLER_2D_MULTISAMPLE_ARRAY,
            UniformType::SamplerCubeShadow => gl::SAMPLER_CUBE_SHADOW,
            UniformType::SamplerBuffer => gl::SAMPLER_BUFFER,
            UniformType::Sampler2dRect => gl::SAMPLER_2D_RECT,
            UniformType::Sampler2dRectShadow => gl::SAMPLER_2D_RECT_SHADOW,
            UniformType::ISampler1d => gl::INT_SAMPLER_1D,
            UniformType::ISampler2d => gl::INT_SAMPLER_2D,
            UniformType::ISampler3d => gl::INT_SAMPLER_3D,
            UniformType::ISamplerCube => gl::INT_SAMPLER_CUBE,
            UniformType::ISampler1dArray => gl::INT_SAMPLER_1D_ARRAY,
            UniformType::ISampler2dArray => gl::INT_SAMPLER_2D_ARRAY,
            UniformType::ISampler2dMultisample => gl::INT_SAMPLER_2D_MULTISAMPLE,
            UniformType::ISampler2dMultisampleArray => gl::INT_SAMPLER_2D_MULTISAMPLE_ARRAY,
            UniformType::ISamplerBuffer => gl::INT_SAMPLER_BUFFER,
            UniformType::ISampler2dRect => gl::INT_SAMPLER_2D_RECT,
            UniformType::USampler1d => gl::UNSIGNED_INT_SAMPLER_1D,
            UniformType::USampler2d => gl::UNSIGNED_INT_SAMPLER_2D,
            UniformType::USampler3d => gl::UNSIGNED_INT_SAMPLER_3D,
            UniformType::USamplerCube => gl::UNSIGNED_INT_SAMPLER_CUBE,
            UniformType::USampler2dArray => gl::UNSIGNED_INT_SAMPLER_2D_ARRAY,
            UniformType::USampler2dMultisample => gl::UNSIGNED_INT_SAMPLER_2D_MULTISAMPLE,
            UniformType::USampler2dMultisampleArray => gl::UNSIGNED_INT_SAMPLER_2D_MULTISAMPLE_ARRAY,
            UniformType::USamplerBuffer => gl::UNSIGNED_INT_SAMPLER_BUFFER,
            UniformType::USampler2dRect => gl::UNSIGNED_INT_SAMPLER_2D_RECT,
            UniformType::Image1d => gl::IMAGE_1D,
            UniformType::Image2d => gl::IMAGE_2D,
            UniformType::Image3d => gl::IMAGE_3D,
            UniformType::Image2dRect => gl::IMAGE_2D_RECT,
            UniformType::ImageCube => gl::IMAGE_CUBE,
            UniformType::ImageBuffer => gl::IMAGE_BUFFER,
            UniformType::Image1dArray => gl::IMAGE_1D_ARRAY,
            UniformType::Image2dArray => gl::IMAGE_2D_ARRAY,
            UniformType::Image2dMultisample => gl::IMAGE_2D_MULTISAMPLE,
            UniformType::Image2dMultisampleArray => gl::IMAGE_2D_MULTISAMPLE_ARRAY,
            UniformType::IImage1d => gl::INT_IMAGE_1D,
            UniformType::IImage2d => gl::INT_IMAGE_2D,
            UniformType::IImage3d => gl::INT_IMAGE_3D,
            UniformType::IImage2dRect => gl::INT_IMAGE_2D_RECT,
            UniformType::IImageCube => gl::INT_IMAGE_CUBE,
            UniformType::IImageBuffer => gl::INT_IMAGE_BUFFER,
            UniformType::IImage1dArray => gl::INT_IMAGE_1D_ARRAY,
            UniformType::IImage2dArray => gl::INT_IMAGE_2D_ARRAY,
            UniformType::IImage2dMultisample => gl::INT_IMAGE_2D_MULTISAMPLE,
            UniformType::IImage2dMultisampleArray => gl::INT_IMAGE_2D_MULTISAMPLE_ARRAY,
            UniformType::UImage1d => gl::UNSIGNED_INT_IMAGE_1D,
            UniformType::UImage2d => gl::UNSIGNED_INT_IMAGE_2D,
            UniformType::UImage3d => gl::UNSIGNED_INT_IMAGE_3D,
            UniformType::UImage2dRect => gl::UNSIGNED_INT_IMAGE_2D_RECT,
            UniformType::UImageCube => gl::UNSIGNED_INT_IMAGE_CUBE,
            UniformType::UImageBuffer => gl::UNSIGNED_INT_IMAGE_BUFFER,
            UniformType::UImage1dArray => gl::UNSIGNED_INT_IMAGE_1D_ARRAY,
            UniformType::UImage2dArray => gl::UNSIGNED_INT_IMAGE_2D_ARRAY,
            UniformType::UImage2dMultisample => gl::UNSIGNED_INT_IMAGE_2D_MULTISAMPLE,
            UniformType::UImage2dMultisampleArray => gl::UNSIGNED_INT_IMAGE_2D_MULTISAMPLE_ARRAY,
            UniformType::AtomicCounterUint => gl::UNSIGNED_INT_ATOMIC_COUNTER,
        }
    }
}
/// The UniformType that the OpenGL enumerant `ty` stands for, if any.
pub open spec fn uniform_type_of(ty: u32) -> Option<UniformType> {
    if ty == gl::FLOAT {
        Some(UniformType::Float)
    }     else if ty == gl::FLOAT_VEC2 {
        Some(UniformType::FloatVec2)
    }     else if ty == gl::FLOAT_VEC3 {
        Some(UniformType::FloatVec3)
    }     else if ty == gl::FLOAT_VEC4 {
        Some(UniformType::FloatVec4)
    }     else if ty == gl::DOUBLE {
        Some(UniformType::Double)
    }     else if ty == gl::DOUBLE_VEC2 {
        Some(UniformType::DoubleVec2)
    }     else if ty == gl::DOUBLE_VEC3 {
        Some(UniformType::DoubleVec3)
    }     else if ty == gl::DOUBLE_VEC4 {
        Some(UniformType::DoubleVec4)
    }     else if ty == gl::INT {
        Some(UniformType::Int)
    }     else if ty == gl::INT_VEC2 {
        Some(UniformType::IntVec2)
    }     else if ty == gl::INT_VEC3 {
        Some(UniformType::IntVec3)
    }     else if ty == gl::INT_VEC4 {
        Some(UniformType::IntVec4)
    }     else if ty == gl::UNSIGNED_INT {
        Some(UniformType::UnsignedInt)
    }     else if ty == gl::UNSIGNED_INT_VEC2 {
        Some(UniformType::UnsignedIntVec2)
    }     else if ty == gl::UNSIGNED_INT_VEC3 {
        Some(UniformType::UnsignedIntVec3)
    }     else if ty == gl::UNSIGNED_INT_VEC4 {
        Some(UniformType::UnsignedIntVec4)
    }     else if ty == gl::BOOL {
        Some(UniformType::Bool)
    }     else if ty == gl::BOOL_VEC2 {
        Some(UniformType::BoolVec2)
    }     else if ty == gl::BOOL_VEC3 {
        Some(UniformType::BoolVec3)
    }     else if ty == gl::BOOL_VEC4 {
        Some(UniformType::BoolVec4)
    }     else if ty == gl::FLOAT_MAT2 {
        Some(UniformType::FloatMat2)
    }     else if ty == gl::FLOAT_MAT3 {
        Some(UniformType::FloatMat3)
    }     else if ty == gl::FLOAT_MAT4 {
        Some(UniformType::FloatMat4)
    }     else if ty == gl::FLOAT_MAT2x3 {
        Some(UniformType::FloatMat2x3)
    }     else if ty == gl::FLOAT_MAT2x4 {
        Some(UniformType::FloatMat2x4)
    }     else if ty == gl::FLOAT_MAT3x2 {
        Some(UniformType::FloatMat3x2)
    }     else if ty == gl::FLOAT_MAT3x4 {
        Some(UniformType::FloatMat3x4)
    }     else if ty == gl::FLOAT_MAT4x2 {
        Some(UniformType::FloatMat4x2)
    }     else if ty == gl::FLOAT_MAT4x3 {
        Some(UniformType::FloatMat4x3)
    }     else if ty == gl::DOUBLE_MAT2 {
        Some(UniformType::DoubleMat2)
    }     else if ty == gl::DOUBLE_MAT3 {
        Some(UniformType::DoubleMat3)
    }     else if ty == gl::DOUBLE_MAT4 {
        Some(UniformType::DoubleMat4)
    }     else if ty == gl::DOUBLE_MAT2x3 {
        Some(UniformType::DoubleMat2x3)
    }     else if ty == gl::DOUBLE_MAT2x4 {
        Some(UniformType::DoubleMat2x4)
    }     else if ty == gl::DOUBLE_MAT3x2 {
        Some(UniformType::DoubleMat3x2)
    }     else if ty == gl::DOUBLE_MAT3x4 {
        Some(UniformType::DoubleMat3x4)
    }     else if ty == gl::DOUBLE_MAT4x2 {
        Some(UniformType::DoubleMat4x2)
    }     else if ty == gl::DOUBLE_MAT4x3 {
        Some(UniformType::DoubleMat4x3)
    }     else if ty == gl::SAMPLER_1D {
        Some(UniformType::Sampler1d)
    }     else if ty == gl::SAMPLER_2D {
        Some(UniformType::Sampler2d)
    }     else if ty == gl::SAMPLER_3D {
        Some(UniformType::Sampler3d)
    }     else if ty == gl::SAMPLER_CUBE {
        Some(UniformType::SamplerCube)
    }     else if ty == gl::SAMPLER_1D_SHADOW {
        Some(UniformType::Sampler1dShadow)
    }     else if ty == gl::SAMPLER_2D_SHADOW {
        Some(UniformType::Sampler2dShadow)
    }     else if ty == gl::SAMPLER_1D_ARRAY {
        Some(UniformType::Sampler1dArray)
    }     else if ty == gl::SAMPLER_2D_ARRAY {
        Some(UniformType::Sampler2dArray)
    }     else if ty == gl::SAMPLER_1D_ARRAY_SHADOW {
        Some(UniformType::Sampler1dArrayShadow)
    }     else if ty == gl::SAMPLER_2D_ARRAY_SHADOW {
        Some(UniformType::Sampler2dArrayShadow)
    }     else if ty == gl::SAMPLER_2D_MULTISAMPLE {
        Some(UniformType::Sampler2dMultisample)
    }     else if ty == gl::SAMPLER_2D_MULTISAMPLE_ARRAY {
        Some(UniformType::Sampler2dMultisampleArray)
    }     else if ty == gl::SAMPLER_CUBE_SHADOW {
        Some(UniformType::SamplerCubeShadow)
    }     else if ty == gl::SAMPLER_BUFFER {
        Some(UniformType::SamplerBuffer)
    }     else if ty == gl::SAMPLER_2D_RECT {
        Some(UniformType::Sampler2dRect)
    }     else if ty == gl::SAMPLER_2D_RECT_SHADOW {
        Some(UniformType::Sampler2dRectShadow)
    }     else if ty == gl::INT_SAMPLER_1D {
        Some(UniformType::ISampler1d)
    }     else if ty == gl::INT_SAMPLER_2D {
        Some(UniformType::ISampler2d)
    }     else if ty == gl::INT_SAMPLER_3D {
        Some(UniformType::ISampler3d)
    }     else if ty == gl::INT_SAMPLER_CUBE {
        Some(UniformType::ISamplerCube)
    }     else if ty == gl::INT_SAMPLER_1D_ARRAY {
        Some(UniformType::ISampler1dArray)
    }     else if ty == gl::INT_SAMPLER_2D_ARRAY {
        Some(UniformType::ISampler2dArray)
    }     else if ty == gl::INT_SAMPLER_2D_MULTISAMPLE {
        Some(UniformType::ISampler2dMultisample)
    }     else if ty == gl::INT_SAMPLER_2D_MULTISAMPLE_ARRAY {
        Some(UniformType::ISampler2dMultisampleArray)
    }     else if ty == gl::INT_SAMPLER_BUFFER {
        Some(UniformType::ISamplerBuffer)
    }     else if ty == gl::INT_SAMPLER_2D_RECT {
        Some(UniformType::ISampler2dRect)
    }     else if ty == gl::UNSIGNED_INT_SAMPLER_1D {
        Some(UniformType::USampler1d)
    }     else if ty == gl::UNSIGNED_INT_SAMPLER_2D {
        Some(UniformType::USampler2d)
    }     else if ty == gl::UNSIGNED_INT_SAMPLER_3D {
        Some(UniformType::USampler3d)
    }     else if ty == gl::UNSIGNED_INT_SAMPLER_CUBE {
        Some(UniformType::USamplerCube)
    }     else if ty == gl::UNSIGNED_INT_SAMPLER_1D_ARRAY {
        Some(UniformType::USampler2dArray)
    }     else if ty == gl::UNSIGNED_INT_SAMPLER_2D_ARRAY {
        Some(UniformType::USampler2dArray)
    }     else if ty == gl::UNSIGNED_INT_SAMPLER_2D_MULTISAMPLE {
        Some(UniformType::USampler2dMultisample)
    }     else if ty == gl::UNSIGNED_INT_SAMPLER_2D_MULTISAMPLE_ARRAY {
        Some(UniformType::USampler2dMultisampleArray)
    }     else if ty == gl::UNSIGNED_INT_SAMPLER_BUFFER {
        Some(UniformType::USamplerBuffer)
    }     else if ty == gl::UNSIGNED_INT_SAMPLER_2D_RECT {
        Some(UniformType::USampler2dRect)
    }     else if ty == gl::IMAGE_1D {
        Some(UniformType::Image1d)
    }     else if ty == gl::IMAGE_2D {
        Some(UniformType::Image2d)
    }     else if ty == gl::IMAGE_3D {
        Some(UniformType::Image3d)
    }     else if ty == gl::IMAGE_2D_RECT {
        Some(UniformType::Image2dRect)
    }     else if ty == gl::IMAGE_CUBE {
        Some(UniformType::ImageCube)
    }     else if ty == gl::IMAGE_BUFFER {
        Some(UniformType::ImageBuffer)
    }     else if ty == gl::IMAGE_1D_ARRAY {
        Some(UniformType::Image1dArray)
    }     else if ty == gl::IMAGE_2D_ARRAY {
        Some(UniformType::Image2dArray)
    }     else if ty == gl::IMAGE_2D_MULTISAMPLE {
        Some(UniformType::Image2dMultisample)
    }     else if ty == gl::IMAGE_2D_MULTISAMPLE_ARRAY {
        Some(UniformType::Image2dMultisampleArray)
    }     else if ty == gl::INT_IMAGE_1D {
        Some(UniformType::IImage1d)
    }     else if ty == gl::INT_IMAGE_2D {
        Some(UniformType::IImage2d)
    }     else if ty == gl::INT_IMAGE_3D {
        Some(UniformType::IImage3d)
    }     else if ty == gl::INT_IMAGE_2D_RECT {
        Some(UniformType::IImage2dRect)
    }     else if ty == gl::INT_IMAGE_CUBE {
        Some(UniformType::IImageCube)
    }     else if ty == gl::INT_IMAGE_BUFFER {
        Some(UniformType::IImageBuffer)
    }     else if ty == gl::INT_IMAGE_1D_ARRAY {
        Some(UniformType::IImage1dArray)
    }     else if ty == gl::INT_IMAGE_2D_ARRAY {
        Some(UniformType::IImage2dArray)
    }     else if ty == gl::INT_IMAGE_2D_MULTISAMPLE {
        Some(UniformType::IImage2dMultisample)
    }     else if ty == gl::INT_IMAGE_2D_MULTISAMPLE_ARRAY {
        Some(UniformType::IImage2dMultisampleArray)
    }     else if ty == gl::UNSIGNED_INT_IMAGE_1D {
        Some(UniformType::UImage1d)
    }     else if ty == gl::UNSIGNED_INT_IMAGE_2D {
        Some(UniformType::UImage2d)
    }     else if ty == gl::UNSIGNED_INT_IMAGE_3D {
        Some(UniformType::UImage3d)
    }     else if ty == gl::UNSIGNED_INT_IMAGE_2D_RECT {
        Some(UniformType::UImage2dRect)
    }     else if ty == gl::UNSIGNED_INT_IMAGE_CUBE {
        Some(UniformType::UImageCube)
    }     else if ty == gl::UNSIGNED_INT_IMAGE_BUFFER {
        Some(UniformType::UImageBuffer)
    }     else if ty == gl::UNSIGNED_INT_IMAGE_1D_ARRAY {
        Some(UniformType::UImage1dArray)
    }     else if ty == gl::UNSIGNED_INT_IMAGE_2D_ARRAY {
        Some(UniformType::UImage2dArray)
    }     else if ty == gl::UNSIGNED_INT_IMAGE_2D_MULTISAMPLE {
        Some(UniformType::UImage2dMultisample)
    }     else if ty == gl::UNSIGNED_INT_IMAGE_2D_MULTISAMPLE_ARRAY {
        Some(UniformType::UImage2dMultisampleArray)
    }     else if ty == gl::UNSIGNED_INT_ATOMIC_COUNTER {
        Some(UniformType::AtomicCounterUint)
    } else {
        None
    }
}

/// Reading back the enumerant of the uniform type found for an enumerant gives that enumerant:
/// each uniform type is found for the enumerant of its own GLSL type. The one exception is
/// `UNSIGNED_INT_SAMPLER_1D_ARRAY`, which is read as `USampler2dArray`.
pub proof fn lemma_uniform_type_names_its_enumerant(ty: u32)
    requires
        uniform_type_of(ty) is Some,
        ty != gl::UNSIGNED_INT_SAMPLER_1D_ARRAY,
    ensures
        uniform_type_of(ty).unwrap().glenum() == ty,
{
}

/// Every uniform type is found for its own enumerant.
pub proof fn lemma_uniform_type_of_glenum(t: UniformType)
    ensures
        uniform_type_of(t.glenum()) == Some(t),
{
}

/// Returns the type of uniform that an OpenGL enumerant stands for; the enumerant must be one of
/// the uniform types.
pub fn glenum_to_uniform_type(ty: u32) -> (r: UniformType)
    requires
        uniform_type_of(ty) is Some,
    ensures
        uniform_type_of(ty) == Some(r),
{
    if ty == gl::FLOAT {
        UniformType::Float
    }     else if ty == gl::FLOAT_VEC2 {
        UniformType::FloatVec2
    }     else if ty == gl::FLOAT_VEC3 {
        UniformType::FloatVec3
    }     else if ty == gl::FLOAT_VEC4 {
        UniformType::FloatVec4
    }     else if ty == gl::DOUBLE {
        UniformType::Double
    }     else if ty == gl::DOUBLE_VEC2 {
        UniformType::DoubleVec2
    }     else if ty == gl::DOUBLE_VEC3 {
        UniformType::DoubleVec3
    }     else if ty == gl::DOUBLE_VEC4 {
        UniformType::DoubleVec4
    }     else if ty == gl::INT {
        UniformType::Int
    }     else if ty == gl::INT_VEC2 {
        UniformType::IntVec2
    }     else if ty == gl::INT_VEC3 {
        UniformType::IntVec3
    }     else if ty == gl::INT_VEC4 {
        UniformType::IntVec4
    }     else if ty == gl::UNSIGNED_INT {
        UniformType::UnsignedInt
    }     else if ty == gl::UNSIGNED_INT_VEC2 {
        UniformType::UnsignedIntVec2
    }     else if ty == gl::UNSIGNED_INT_VEC3 {
        UniformType::UnsignedIntVec3
    }     else if ty == gl::UNSIGNED_INT_VEC4 {
        UniformType::UnsignedIntVec4
    }     else if ty == gl::BOOL {
        UniformType::Bool
    }     else if ty == gl::BOOL_VEC2 {
        UniformType::BoolVec2
    }     else if ty == gl::BOOL_VEC3 {
        UniformType::BoolVec3
    }     else if ty == gl::BOOL_VEC4 {
        UniformType::BoolVec4
    }     else if ty == gl::FLOAT_MAT2 {
        UniformType::FloatMat2
    }     else if ty == gl::FLOAT_MAT3 {
        UniformType::FloatMat3
    }     else if ty == gl::FLOAT_MAT4 {
        UniformType::FloatMat4
    }     else if ty == gl::FLOAT_MAT2x3 {
        UniformType::FloatMat2x3
    }     else if ty == gl::FLOAT_MAT2x4 {
        UniformType::FloatMat2x4
    }     else if ty == gl::FLOAT_MAT3x2 {
        UniformType::FloatMat3x2
    }     else if ty == gl::FLOAT_MAT3x4 {
        UniformType::FloatMat3x4
    }     else if ty == gl::FLOAT_MAT4x2 {
        UniformType::FloatMat4x2
    }     else if ty == gl::FLOAT_MAT4x3 {
        UniformType::FloatMat4x3
    }     else if ty == gl::DOUBLE_MAT2 {
        UniformType::DoubleMat2
    }     else if ty == gl::DOUBLE_MAT3 {
        UniformType::DoubleMat3
    }     else if ty == gl::DOUBLE_MAT4 {
        UniformType::DoubleMat4
    }     else if ty == gl::DOUBLE_MAT2x3 {
        UniformType::DoubleMat2x3
    }     else if ty == gl::DOUBLE_MAT2x4 {
        UniformType::DoubleMat2x4
    }     else if ty == gl::DOUBLE_MAT3x2 {
        UniformType::DoubleMat3x2
    }     else if ty == gl::DOUBLE_MAT3x4 {
        UniformType::DoubleMat3x4
    }     else if ty == gl::DOUBLE_MAT4x2 {
        UniformType::DoubleMat4x2
    }     else if ty == gl::DOUBLE_MAT4x3 {
        UniformType::DoubleMat4x3
    }     else if ty == gl::SAMPLER_1D {
        UniformType::Sampler1d
    }     else if ty == gl::SAMPLER_2D {
        UniformType::Sampler2d
    }     else if ty == gl::SAMPLER_3D {
        UniformType::Sampler3d
    }     else if ty == gl::SAMPLER_CUBE {
        UniformType::SamplerCube
    }     else if ty == gl::SAMPLER_1D_SHADOW {
        UniformType::Sampler1dShadow
    }     else if ty == gl::SAMPLER_2D_SHADOW {
        UniformType::Sampler2dShadow
    }     else if ty == gl::SAMPLER_1D_ARRAY {
        UniformType::Sampler1dArray
    }     else if ty == gl::SAMPLER_2D_ARRAY {
        UniformType::Sampler2dArray
    }     else if ty == gl::SAMPLER_1D_ARRAY_SHADOW {
        UniformType::Sampler1dArrayShadow
    }     else if ty == gl::SAMPLER_2D_ARRAY_SHADOW {
        UniformType::Sampler2dArrayShadow
    }     else if ty == gl::SAMPLER_2D_MULTISAMPLE {
        UniformType::Sampler2dMultisample
    }     else if ty == gl::SAMPLER_2D_MULTISAMPLE_ARRAY {
        UniformType::Sampler2dMultisampleArray
    }     else if ty == gl::SAMPLER_CUBE_SHADOW {
        UniformType::SamplerCubeShadow
    }     else if ty == gl::SAMPLER_BUFFER {
        UniformType::SamplerBuffer
    }     else if ty == gl::SAMPLER_2D_RECT {
        UniformType::Sampler2dRect
    }     else if ty == gl::SAMPLER_2D_RECT_SHADOW {
        UniformType::Sampler2dRectShadow
    }     else if ty == gl::INT_SAMPLER_1D {
        UniformType::ISampler1d
    }     else if ty == gl::INT_SAMPLER_2D {
        UniformType::ISampler2d
    }     else if ty == gl::INT_SAMPLER_3D {
        UniformType::ISampler3d
    }     else if ty == gl::INT_SAMPLER_CUBE {
        UniformType::ISamplerCube
    }     else if ty == gl::INT_SAMPLER_1D_ARRAY {
        UniformType::ISampler1dArray
    }     else if ty == gl::INT_SAMPLER_2D_ARRAY {
        UniformType::ISampler2dArray
    }     else if ty == gl::INT_SAMPLER_2D_MULTISAMPLE {
        UniformType::ISampler2dMultisample
    }     else if ty == gl::INT_SAMPLER_2D_MULTISAMPLE_ARRAY {
        UniformType::ISampler2dMultisampleArray
    }     else if ty == gl::INT_SAMPLER_BUFFER {
        UniformType::ISamplerBuffer
    }     else if ty == gl::INT_SAMPLER_2D_RECT {
        UniformType::ISampler2dRect
    }     else if ty == gl::UNSIGNED_INT_SAMPLER_1D {
        UniformType::USampler1d
    }     else if ty == gl::UNSIGNED_INT_SAMPLER_2D {
        UniformType::USampler2d
    }     else if ty == gl::UNSIGNED_INT_SAMPLER_3D {
        UniformType::USampler3d
    }     else if ty == gl::UNSIGNED_INT_SAMPLER_CUBE {
        UniformType::USamplerCube
    }     else if ty == gl::UNSIGNED_INT_SAMPLER_1D_ARRAY {
        UniformType::USampler2dArray
    }     else if ty == gl::UNSIGNED_INT_SAMPLER_2D_ARRAY {
        UniformType::USampler2dArray
    }     else if ty == gl::UNSIGNED_INT_SAMPLER_2D_MULTISAMPLE {
        UniformType::USampler2dMultisample
    }     else if ty == gl::UNSIGNED_INT_SAMPLER_2D_MULTISAMPLE_ARRAY {
        UniformType::USampler2dMultisampleArray
    }     else if ty == gl::UNSIGNED_INT_SAMPLER_BUFFER {
        UniformType::USamplerBuffer
    }     else if ty == gl::UNSIGNED_INT_SAMPLER_2D_RECT {
        UniformType::USampler2dRect
    }     else if ty == gl::IMAGE_1D {
        UniformType::Image1d
    }     else if ty == gl::IMAGE_2D {
        UniformType::Image2d
    }     else if ty == gl::IMAGE_3D {
        UniformType::Image3d
    }     else if ty == gl::IMAGE_2D_RECT {
        UniformType::Image2dRect
    }     else if ty == gl::IMAGE_CUBE {
        UniformType::ImageCube
    }     else if ty == gl::IMAGE_BUFFER {
        UniformType::ImageBuffer
    }     else if ty == gl::IMAGE_1D_ARRAY {
        UniformType::Image1dArray
    }     else if ty == gl::IMAGE_2D_ARRAY {
        UniformType::Image2dArray
    }     else if ty == gl::IMAGE_2D_MULTISAMPLE {
        UniformType::Image2dMultisample
    }     else if ty == gl::IMAGE_2D_MULTISAMPLE_ARRAY {
        UniformType::Image2dMultisampleArray
    }     else if ty == gl::INT_IMAGE_1D {
        UniformType::IImage1d
    }     else if ty == gl::INT_IMAGE_2D {
        UniformType::IImage2d
    }     else if ty == gl::INT_IMAGE_3D {
        UniformType::IImage3d
    }     else if ty == gl::INT_IMAGE_2D_RECT {
        UniformType::IImage2dRect
    }     else if ty == gl::INT_IMAGE_CUBE {
        UniformType::IImageCube
    }     else if ty == gl::INT_IMAGE_BUFFER {
        UniformType::IImageBuffer
    }     else if ty == gl::INT_IMAGE_1D_ARRAY {
        UniformType::IImage1dArray
    }     else if ty == gl::INT_IMAGE_2D_ARRAY {
        UniformType::IImage2dArray
    }     else if ty == gl::INT_IMAGE_2D_MULTISAMPLE {
        UniformType::IImage2dMultisample
    }     else if ty == gl::INT_IMAGE_2D_MULTISAMPLE_ARRAY {
        UniformType::IImage2dMultisampleArray
    }     else if ty == gl::UNSIGNED_INT_IMAGE_1D {
        UniformType::UImage1d
    }     else if ty == gl::UNSIGNED_INT_IMAGE_2D {
        UniformType::UImage2d
    }     else if ty == gl::UNSIGNED_INT_IMAGE_3D {
        UniformType::UImage3d
    }     else if ty == gl::UNSIGNED_INT_IMAGE_2D_RECT {
        UniformType::UImage2dRect
    }     else if ty == gl::UNSIGNED_INT_IMAGE_CUBE {
        UniformType::UImageCube
    }     else if ty == gl::UNSIGNED_INT_IMAGE_BUFFER {
        UniformType::UImageBuffer
    }     else if ty == gl::UNSIGNED_INT_IMAGE_1D_ARRAY {
        UniformType::UImage1dArray
    }     else if ty == gl::UNSIGNED_INT_IMAGE_2D_ARRAY {
        UniformType::UImage2dArray
    }     else if ty == gl::UNSIGNED_INT_IMAGE_2D_MULTISAMPLE {
        UniformType::UImage2dMultisample
    }     else if ty == gl::UNSIGNED_INT_IMAGE_2D_MULTISAMPLE_ARRAY {
        UniformType::UImage2dMultisampleArray
    }     else if ty == gl::UNSIGNED_INT_ATOMIC_COUNTER {
        UniformType::AtomicCounterUint
    } else {
        UniformType::AtomicCounterUint
    }
}

/// Type of an attribute of a program.
#[derive(Debug, Clone, Copy, PartialEq, Eq, Hash, Structural)]
#[allow(missing_docs)]
pub enum AttributeType {
    F32,
    F32F32,
    F32F32F32,
    F32F32F32F32,
    I32,
    I32I32,
    I32I32I32,
    I32I32I32I32,
    U32,
    U32U32,
    U32U32U32,
    U32U32U32U32,
    F32x2x2,
    F32x3x3,
    F32x4x4,
    F32x2x3,
    F32x2x4,
    F32x3x2,
    F32x3x4,
    F32x4x2,
    F32x4x3,
}

impl AttributeType {
    /// The OpenGL enumerant of this attribute type.
    pub open spec fn glenum(self) -> u32 {
        match self {
            AttributeType::F32 => gl::FLOAT,
            AttributeType::F32F32 => gl::FLOAT_VEC2,
            AttributeType::F32F32F32 => gl::FLOAT_VEC3,
            AttributeType::F32F32F32F32 => gl::FLOAT_VEC4,
            AttributeType::I32 => gl::INT,
            AttributeType::I32I32 => gl::INT_VEC2,
            AttributeType::I32I32I32 => gl::INT_VEC3,
            AttributeType::I32I32I32I32 => gl::INT_VEC4,
            AttributeType::U32 => gl::UNSIGNED_INT,
            AttributeType::U32U32 => gl::UNSIGNED_INT_VEC2,
            AttributeType::U32U32U32 => gl::UNSIGNED_INT_VEC3,
            AttributeType::U32U32U32U32 => gl::UNSIGNED_INT_VEC4,
            AttributeType::F32x2x2 => gl::FLOAT_MAT2,
            AttributeType::F32x3x3 => gl::FLOAT_MAT3,
            AttributeType::F32x4x4 => gl::FLOAT_MAT4,
            AttributeType::F32x2x3 => gl::FLOAT_MAT2x3,
            AttributeType::F32x2x4 => gl::FLOAT_MAT2x4,
            AttributeType::F32x3x2 => gl::FLOAT_MAT3x2,
            AttributeType::F32x3x4 => gl::FLOAT_MAT3x4,
            AttributeType::F32x4x2 => gl::FLOAT_MAT4x2,
            AttributeType::F32x4x3 => gl::FLOAT_MAT4x3,
        }
    }
}

/// The AttributeType that the OpenGL enumerant `ty` stands for, if any.
pub open spec fn attribute_type_of(ty: u32) -> Option<AttributeType> {
    if ty == gl::FLOAT {
        Some(AttributeType::F32)
    }     else if ty == gl::FLOAT_VEC2 {
        Some(AttributeType::F32F32)
    }     else if ty == gl::FLOAT_VEC3 {
        Some(AttributeType::F32F32F32)
    }     else if ty == gl::FLOAT_VEC4 {
        Some(AttributeType::F32F32F32F32)
    }     else if ty == gl::INT {
        Some(AttributeType::I32)
    }     else if ty == gl::INT_VEC2 {
        Some(AttributeType::I32I32)
    }     else if ty == gl::INT_VEC3 {
        Some(AttributeType::I32I32I32)
    }     else if ty == gl::INT_VEC4 {
        Some(AttributeType::I32I32I32I32)
    }     else if ty == gl::UNSIGNED_INT {
        Some(AttributeType::U32)
    }     else if ty == gl::UNSIGNED_INT_VEC2 {
        Some(AttributeType::U32U32)
    }     else if ty == gl::UNSIGNED_INT_VEC2_EXT {
        Some(AttributeType::U32U32)
    }     else if ty == gl::UNSIGNED_INT_VEC3 {
        Some(AttributeType::U32U32U32)
    }     else if ty == gl::UNSIGNED_INT_VEC3_EXT {
        Some(AttributeType::U32U32U32)
    }     else if ty == gl::UNSIGNED_INT_VEC4 {
        Some(AttributeType::U32U32U32U32)
    }     else if ty == gl::UNSIGNED_INT_VEC4_EXT {
        Some(AttributeType::U32U32U32U32)
    }     else if ty == gl::FLOAT_MAT2 {
        Some(AttributeType::F32x2x2)
    }     else if ty == gl::FLOAT_MAT3 {
        Some(AttributeType::F32x3x3)
    }     else if ty == gl::FLOAT_MAT4 {
        Some(AttributeType::F32x4x4)
    }     else if ty == gl::FLOAT_MAT2x3 {
        Some(AttributeType::F32x2x3)
    }     else if ty == gl::FLOAT_MAT2x4 {
        Some(AttributeType::F32x2x4)
    }     else if ty == gl::FLOAT_MAT3x2 {
        Some(AttributeType::F32x3x2)
    }     else if ty == gl::FLOAT_MAT3x4 {
        Some(AttributeType::F32x3x4)
    }     else if ty == gl::FLOAT_MAT4x2 {
        Some(AttributeType::F32x4x2)
    }     else if ty == gl::FLOAT_MAT4x3 {
        Some(AttributeType::F32x4x3)
    } else {
        None
    }
}

/// Reading back the enumerant of the attribute type found for an enumerant gives that
/// enumerant: each attribute type is found for the enumerant of its own GLSL type.
pub proof fn lemma_attribute_type_names_its_enumerant(ty: u32)
    requires
        attribute_type_of(ty) is Some,
    ensures
        attribute_type_of(ty).unwrap().glenum() == ty,
{
}

/// Every attribute type is found for its own enumerant.
pub proof fn lemma_attribute_type_of_glenum(t: AttributeType)
    ensures
        attribute_type_of(t.glenum()) == Some(t),
{
}

/// Returns the type of attribute that an OpenGL enumerant stands for; the enumerant must be one
/// of the attribute types.
pub fn glenum_to_attribute_type(ty: u32) -> (r: AttributeType)
    requires
        attribute_type_of(ty) is Some,
    ensures
        attribute_type_of(ty) == Some(r),
{
    if ty == gl::FLOAT {
        AttributeType::F32
    }     else if ty == gl::FLOAT_VEC2 {
        AttributeType::F32F32
    }     else if ty == gl::FLOAT_VEC3 {
        AttributeType::F32F32F32
    }     else if ty == gl::FLOAT_VEC4 {
        AttributeType::F32F32F32F32
    }     else if ty == gl::INT {
        AttributeType::I32
    }     else if ty == gl::INT_VEC2 {
        AttributeType::I32I32
    }     else if ty == gl::INT_VEC3 {
        AttributeType::I32I32I32
    }     else if ty == gl::INT_VEC4 {
        AttributeType::I32I32I32I32
    }     else if ty == gl::UNSIGNED_INT {
        AttributeType::U32
    }     else if ty == gl::UNSIGNED_INT_VEC2 {
        AttributeType::U32U32
    }     else if ty == gl::UNSIGNED_INT_VEC2_EXT {
        AttributeType::U32U32
    }     else if ty == gl::UNSIGNED_INT_VEC3 {
        AttributeType::U32U32U32
    }     else if ty == gl::UNSIGNED_INT_VEC3_EXT {
        AttributeType::U32U32U32
    }     else if ty == gl::UNSIGNED_INT_VEC4 {
        AttributeType::U32U32U32U32
    }     else if ty == gl::UNSIGNED_INT_VEC4_EXT {
        AttributeType::U32U32U32U32
    }     else if ty == gl::FLOAT_MAT2 {
        AttributeType::F32x2x2
    }     else if ty == gl::FLOAT_MAT3 {
        AttributeType::F32x3x3
    }     else if ty == gl::FLOAT_MAT4 {
        AttributeType::F32x4x4
    }     else if ty == gl::FLOAT_MAT2x3 {
        AttributeType::F32x2x3
    }     else if ty == gl::FLOAT_MAT2x4 {
        AttributeType::F32x2x4
    }     else if ty == gl::FLOAT_MAT3x2 {
        AttributeType::F32x3x2
    }     else if ty == gl::FLOAT_MAT3x4 {
        AttributeType::F32x3x4
    }     else if ty == gl::FLOAT_MAT4x2 {
        AttributeType::F32x4x2
    }     else if ty == gl::FLOAT_MAT4x3 {
        AttributeType::F32x4x3
    } else {
        AttributeType::F32x4x3
    }
}

/// The transform feedback mode that the OpenGL enumerant `value` stands for, if any.
pub open spec fn transform_feedback_mode_of(value: u32) -> Option<TransformFeedbackMode> {
    if value == gl::INTERLEAVED_ATTRIBS {
        Some(TransformFeedbackMode::Interleaved)
    } else if value == gl::SEPARATE_ATTRIBS {
        Some(TransformFeedbackMode::Separate)
    } else {
        None
    }
}

/// Returns the transform feedback mode that an OpenGL enumerant stands for; the enumerant
/// must be `INTERLEAVED_ATTRIBS` or `SEPARATE_ATTRIBS`.
pub fn glenum_to_transform_feedback_mode(value: u32) -> (r: TransformFeedbackMode)
    requires
        transform_feedback_mode_of(value) is Some,
    ensures
        transform_feedback_mode_of(value) == Some(r),
{
    if value == gl::INTERLEAVED_ATTRIBS {
        TransformFeedbackMode::Interleaved
    } else {
        TransformFeedbackMode::Separate
    }
}

/// The primitives that a geometry shader outputs, from the value of its
/// `GEOMETRY_OUTPUT_TYPE`, if it is one of the three output types.
pub open spec fn geometry_output_of(value: u32) -> Option<OutputPrimitives> {
    if value == gl::POINTS {
        Some(OutputPrimitives::Points)
    } else if value == gl::LINE_STRIP {
        Some(OutputPrimitives::Lines)
    } else if value == gl::TRIANGLE_STRIP {
        Some(OutputPrimitives::Triangles)
    } else {
        None
    }
}

/// Returns the primitives that a geometry shader outputs, from the value of its
/// `GEOMETRY_OUTPUT_TYPE`.
pub fn geometry_output_primitives(value: u32) -> (r: OutputPrimitives)
    requires
        geometry_output_of(value) is Some,
    ensures
        geometry_output_of(value) == Some(r),
{
    if value == gl::POINTS {
        OutputPrimitives::Points
    } else if value == gl::LINE_STRIP {
        OutputPrimitives::Lines
    } else {
        OutputPrimitives::Triangles
    }
}

/// The primitives that a tessellation evaluation shader outputs, from the value of its
/// `TESS_GEN_MODE`, if they can be represented (quads cannot).
pub open spec fn tess_eval_output_of(value: u32) -> Option<OutputPrimitives> {
    if value == gl::TRIANGLES {
        Some(OutputPrimitives::Triangles)
    } else if value == gl::ISOLINES {
        Some(OutputPrimitives::Lines)
    } else {
        None
    }
}

/// Returns the primitives that a tessellation evaluation shader outputs, from the value of its
/// `TESS_GEN_MODE`, which must be `TRIANGLES` or `ISOLINES`.
pub fn tess_eval_output_primitives(value: u32) -> (r: OutputPrimitives)
    requires
        tess_eval_output_of(value) is Some,
    ensures
        tess_eval_output_of(value) == Some(r),
{
    if value == gl::TRIANGLES {
        OutputPrimitives::Triangles
    } else {
        OutputPrimitives::Lines
    }
}

impl OutputPrimitives {
    /// The number of vertices of one primitive.
    pub open spec fn vertices_per_primitive(self) -> nat {
        match self {
            OutputPrimitives::Points => 1,
            OutputPrimitives::Lines => 2,
            OutputPrimitives::Triangles => 3,
        }
    }
}

/// The number of vertices of one primitive of each primitive enumerant that a geometry or
/// tessellation evaluation shader outputs; `None` for any other enumerant.
pub open spec fn primitive_enum_vertices(value: u32) -> Option<nat> {
    if value == gl::POINTS {
        Some(1)
    } else if value == gl::LINE_STRIP || value == gl::ISOLINES {
        Some(2)
    } else if value == gl::TRIANGLE_STRIP || value == gl::TRIANGLES {
        Some(3)
    } else {
        None
    }
}

/// The primitives read from a geometry shader's output type or from a tessellation evaluation
/// shader's mode are those of the enumerant: points, lines or triangles alike; and the
/// transform feedback mode read from an enumerant is the one it names.
pub proof fn lemma_output_primitives_match_enumerant(value: u32)
    ensures
        geometry_output_of(value) matches Some(p) ==> primitive_enum_vertices(value) == Some(
            p.vertices_per_primitive(),
        ),
        tess_eval_output_of(value) matches Some(p) ==> primitive_enum_vertices(value) == Some(
            p.vertices_per_primitive(),
        ),
        transform_feedback_mode_of(value) == Some(TransformFeedbackMode::Interleaved) <==> value
            == gl::INTERLEAVED_ATTRIBS,
        transform_feedback_mode_of(value) == Some(TransformFeedbackMode::Separate) <==> value
            == gl::SEPARATE_ATTRIBS,
{
}

/// The size of a uniform from the number of elements that the backend reports for it: `None`
/// for a single value, the number of elements for an array.
pub fn uniform_size(data_size: i32) -> (r: Option<usize>)
    ensures
        r == (if data_size == 1 {
            None
        } else {
            Some(data_size as usize)
        }),
{
    if data_size == 1 {
        None
    } else {
        Some(data_size as usize)
    }
}

} // verus!
