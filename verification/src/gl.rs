//! Numeric values of the OpenGL enumerants used by this crate.

#![allow(non_upper_case_globals)]

use vstd::prelude::*;

verus! {

pub const BACK: u32 = 0x0405;
pub const BGR: u32 = 0x80E0;
pub const BGRA: u32 = 0x80E1;
pub const BOOL: u32 = 0x8B56;
pub const BOOL_VEC2: u32 = 0x8B57;
pub const BOOL_VEC3: u32 = 0x8B58;
pub const BOOL_VEC4: u32 = 0x8B59;
pub const BYTE: u32 = 0x1400;
pub const COLOR_ATTACHMENT0: u32 = 0x8CE0;
pub const COLOR_BUFFER_BIT: u32 = 0x00004000;
pub const COMPRESSED_RED: u32 = 0x8225;
pub const COMPRESSED_RED_RGTC1: u32 = 0x8DBB;
pub const COMPRESSED_RG: u32 = 0x8226;
pub const COMPRESSED_RGB: u32 = 0x84ED;
pub const COMPRESSED_RGBA: u32 = 0x84EE;
pub const COMPRESSED_RGBA_BPTC_UNORM: u32 = 0x8E8C;
pub const COMPRESSED_RGBA_S3TC_DXT1_EXT: u32 = 0x83F1;
pub const COMPRESSED_RGBA_S3TC_DXT3_EXT: u32 = 0x83F2;
pub const COMPRESSED_RGBA_S3TC_DXT5_EXT: u32 = 0x83F3;
pub const COMPRESSED_RGB_BPTC_SIGNED_FLOAT: u32 = 0x8E8E;
pub const COMPRESSED_RGB_BPTC_UNSIGNED_FLOAT: u32 = 0x8E8F;
pub const COMPRESSED_RGB_S3TC_DXT1_EXT: u32 = 0x83F0;
pub const COMPRESSED_RG_RGTC2: u32 = 0x8DBD;
pub const COMPRESSED_SIGNED_RED_RGTC1: u32 = 0x8DBC;
pub const COMPRESSED_SIGNED_RG_RGTC2: u32 = 0x8DBE;
pub const COMPRESSED_SRGB: u32 = 0x8C48;
pub const COMPRESSED_SRGB_ALPHA: u32 = 0x8C49;
pub const COMPRESSED_SRGB_ALPHA_BPTC_UNORM: u32 = 0x8E8D;
pub const COMPRESSED_SRGB_ALPHA_S3TC_DXT1_EXT: u32 = 0x8C4D;
pub const COMPRESSED_SRGB_ALPHA_S3TC_DXT3_EXT: u32 = 0x8C4E;
pub const COMPRESSED_SRGB_ALPHA_S3TC_DXT5_EXT: u32 = 0x8C4F;
pub const COMPRESSED_SRGB_S3TC_DXT1_EXT: u32 = 0x8C4C;
pub const COMPUTE_SHADER: u32 = 0x91B9;
pub const CONTEXT_LOST: u32 = 0x0507;
pub const DEPTH24_STENCIL8: u32 = 0x88F0;
pub const DEPTH24_STENCIL8_EXT: u32 = 0x88F0;
pub const DEPTH24_STENCIL8_OES: u32 = 0x88F0;
pub const DEPTH32F_STENCIL8: u32 = 0x8CAD;
pub const DEPTH_BUFFER_BIT: u32 = 0x00000100;
pub const DEPTH_COMPONENT: u32 = 0x1902;
pub const DEPTH_COMPONENT16: u32 = 0x81A5;
pub const DEPTH_COMPONENT24: u32 = 0x81A6;
pub const DEPTH_COMPONENT32: u32 = 0x81A7;
pub const DEPTH_COMPONENT32F: u32 = 0x8CAC;
pub const DEPTH_STENCIL: u32 = 0x84F9;
pub const DEPTH_STENCIL_EXT: u32 = 0x84F9;
pub const DEPTH_STENCIL_OES: u32 = 0x84F9;
pub const DOUBLE: u32 = 0x140A;
pub const DOUBLE_MAT2: u32 = 0x8F46;
pub const DOUBLE_MAT2x3: u32 = 0x8F49;
pub const DOUBLE_MAT2x4: u32 = 0x8F4A;
pub const DOUBLE_MAT3: u32 = 0x8F47;
pub const DOUBLE_MAT3x2: u32 = 0x8F4B;
pub const DOUBLE_MAT3x4: u32 = 0x8F4C;
pub const DOUBLE_MAT4: u32 = 0x8F48;
pub const DOUBLE_MAT4x2: u32 = 0x8F4D;
pub const DOUBLE_MAT4x3: u32 = 0x8F4E;
pub const DOUBLE_VEC2: u32 = 0x8FFC;
pub const DOUBLE_VEC3: u32 = 0x8FFD;
pub const DOUBLE_VEC4: u32 = 0x8FFE;
pub const DRAW_FRAMEBUFFER: u32 = 0x8CA9;
pub const FLOAT: u32 = 0x1406;
pub const FLOAT_MAT2: u32 = 0x8B5A;
pub const FLOAT_MAT2x3: u32 = 0x8B65;
pub const FLOAT_MAT2x4: u32 = 0x8B66;
pub const FLOAT_MAT3: u32 = 0x8B5B;
pub const FLOAT_MAT3x2: u32 = 0x8B67;
pub const FLOAT_MAT3x4: u32 = 0x8B68;
pub const FLOAT_MAT4: u32 = 0x8B5C;
pub const FLOAT_MAT4x2: u32 = 0x8B69;
pub const FLOAT_MAT4x3: u32 = 0x8B6A;
pub const FLOAT_VEC2: u32 = 0x8B50;
pub const FLOAT_VEC3: u32 = 0x8B51;
pub const FLOAT_VEC4: u32 = 0x8B52;
pub const FRAGMENT_SHADER: u32 = 0x8B30;
pub const FRAMEBUFFER: u32 = 0x8D40;
pub const FRAMEBUFFER_EXT: u32 = 0x8D40;
pub const GEOMETRY_SHADER: u32 = 0x8DD9;
pub const HALF_FLOAT: u32 = 0x140B;
pub const IMAGE_1D: u32 = 0x904C;
pub const IMAGE_1D_ARRAY: u32 = 0x9052;
pub const IMAGE_2D: u32 = 0x904D;
pub const IMAGE_2D_ARRAY: u32 = 0x9053;
pub const IMAGE_2D_MULTISAMPLE: u32 = 0x9055;
pub const IMAGE_2D_MULTISAMPLE_ARRAY: u32 = 0x9056;
pub const IMAGE_2D_RECT: u32 = 0x904F;
pub const IMAGE_3D: u32 = 0x904E;
pub const IMAGE_BUFFER: u32 = 0x9051;
pub const IMAGE_CUBE: u32 = 0x9050;
pub const INT: u32 = 0x1404;
pub const INTERLEAVED_ATTRIBS: u32 = 0x8C8C;
pub const INTERLEAVED_ATTRIBS_EXT: u32 = 0x8C8C;
pub const INT_IMAGE_1D: u32 = 0x9057;
pub const INT_IMAGE_1D_ARRAY: u32 = 0x905D;
pub const INT_IMAGE_2D: u32 = 0x9058;
pub const INT_IMAGE_2D_ARRAY: u32 = 0x905E;
pub const INT_IMAGE_2D_MULTISAMPLE: u32 = 0x9060;
pub const INT_IMAGE_2D_MULTISAMPLE_ARRAY: u32 = 0x9061;
pub const INT_IMAGE_2D_RECT: u32 = 0x905A;
pub const INT_IMAGE_3D: u32 = 0x9059;
pub const INT_IMAGE_BUFFER: u32 = 0x905C;
pub const INT_IMAGE_CUBE: u32 = 0x905B;
pub const INT_SAMPLER_1D: u32 = 0x8DC9;
pub const INT_SAMPLER_1D_ARRAY: u32 = 0x8DCE;
pub const INT_SAMPLER_2D: u32 = 0x8DCA;
pub const INT_SAMPLER_2D_ARRAY: u32 = 0x8DCF;
pub const INT_SAMPLER_2D_MULTISAMPLE: u32 = 0x9109;
pub const INT_SAMPLER_2D_MULTISAMPLE_ARRAY: u32 = 0x910C;
pub const INT_SAMPLER_2D_RECT: u32 = 0x8DCD;
pub const INT_SAMPLER_3D: u32 = 0x8DCB;
pub const INT_SAMPLER_BUFFER: u32 = 0x8DD0;
pub const INT_SAMPLER_CUBE: u32 = 0x8DCC;
pub const INT_VEC2: u32 = 0x8B53;
pub const INT_VEC3: u32 = 0x8B54;
pub const INT_VEC4: u32 = 0x8B55;
pub const INVALID_ENUM: u32 = 0x0500;
pub const INVALID_FRAMEBUFFER_OPERATION: u32 = 0x0506;
pub const INVALID_OPERATION: u32 = 0x0502;
pub const INVALID_VALUE: u32 = 0x0501;
pub const ISOLINES: u32 = 0x8E7A;
pub const LAYOUT_COLOR_ATTACHMENT_EXT: u32 = 0x958E;
pub const LAYOUT_DEPTH_ATTACHMENT_STENCIL_READ_ONLY_EXT: u32 = 0x9531;
pub const LAYOUT_DEPTH_STENCIL_ATTACHMENT_EXT: u32 = 0x958F;
pub const LAYOUT_DEPTH_STENCIL_READ_ONLY_EXT: u32 = 0x9590;
pub const LAYOUT_GENERAL_EXT: u32 = 0x958D;
pub const LAYOUT_SHADER_READ_ONLY_EXT: u32 = 0x9591;
pub const LAYOUT_TRANSFER_DST_EXT: u32 = 0x9593;
pub const LAYOUT_TRANSFER_SRC_EXT: u32 = 0x9592;
pub const LINES: u32 = 0x0001;
pub const LINES_ADJACENCY: u32 = 0x000A;
pub const LINE_LOOP: u32 = 0x0002;
pub const LINE_STRIP: u32 = 0x0003;
pub const LINE_STRIP_ADJACENCY: u32 = 0x000B;
pub const NONE: u32 = 0;
pub const NO_ERROR: u32 = 0;
pub const OUT_OF_MEMORY: u32 = 0x0505;
pub const PATCHES: u32 = 0x000E;
pub const POINTS: u32 = 0x0000;
pub const R11F_G11F_B10F: u32 = 0x8C3A;
pub const R16: u32 = 0x822A;
pub const R16F: u32 = 0x822D;
pub const R16I: u32 = 0x8233;
pub const R16UI: u32 = 0x8234;
pub const R16_SNORM: u32 = 0x8F98;
pub const R32F: u32 = 0x822E;
pub const R32I: u32 = 0x8235;
pub const R32UI: u32 = 0x8236;
pub const R3_G3_B2: u32 = 0x2A10;
pub const R8: u32 = 0x8229;
pub const R8I: u32 = 0x8231;
pub const R8UI: u32 = 0x8232;
pub const R8_SNORM: u32 = 0x8F94;
pub const RED: u32 = 0x1903;
pub const RED_INTEGER: u32 = 0x8D94;
pub const RG: u32 = 0x8227;
pub const RG16: u32 = 0x822C;
pub const RG16F: u32 = 0x822F;
pub const RG16I: u32 = 0x8239;
pub const RG16UI: u32 = 0x823A;
pub const RG16_SNORM: u32 = 0x8F99;
pub const RG32F: u32 = 0x8230;
pub const RG32I: u32 = 0x823B;
pub const RG32UI: u32 = 0x823C;
pub const RG8: u32 = 0x822B;
pub const RG8I: u32 = 0x8237;
pub const RG8UI: u32 = 0x8238;
pub const RG8_SNORM: u32 = 0x8F95;
pub const RGB: u32 = 0x1907;
pub const RGB10: u32 = 0x8052;
pub const RGB10_A2: u32 = 0x8059;
pub const RGB10_A2UI: u32 = 0x906F;
pub const RGB12: u32 = 0x8053;
pub const RGB16: u32 = 0x8054;
pub const RGB16F: u32 = 0x881B;
pub const RGB16I: u32 = 0x8D89;
pub const RGB16UI: u32 = 0x8D77;
pub const RGB16_SNORM: u32 = 0x8F9A;
pub const RGB32F: u32 = 0x8815;
pub const RGB32I: u32 = 0x8D83;
pub const RGB32I_EXT: u32 = 0x8D83;
pub const RGB32UI: u32 = 0x8D71;
pub const RGB32UI_EXT: u32 = 0x8D71;
pub const RGB4: u32 = 0x804F;
pub const RGB5: u32 = 0x8050;
pub const RGB565: u32 = 0x8D62;
pub const RGB5_A1: u32 = 0x8057;
pub const RGB8: u32 = 0x8051;
pub const RGB8I: u32 = 0x8D8F;
pub const RGB8UI: u32 = 0x8D7D;
pub const RGB8_OES: u32 = 0x8051;
pub const RGB8_SNORM: u32 = 0x8F96;
pub const RGB9_E5: u32 = 0x8C3D;
pub const RGBA: u32 = 0x1908;
pub const RGBA12: u32 = 0x805A;
pub const RGBA16: u32 = 0x805B;
pub const RGBA16F: u32 = 0x881A;
pub const RGBA16I: u32 = 0x8D88;
pub const RGBA16UI: u32 = 0x8D76;
pub const RGBA16_SNORM: u32 = 0x8F9B;
pub const RGBA2: u32 = 0x8055;
pub const RGBA32F: u32 = 0x8814;
pub const RGBA32I: u32 = 0x8D82;
pub const RGBA32I_EXT: u32 = 0x8D82;
pub const RGBA32UI: u32 = 0x8D70;
pub const RGBA32UI_EXT: u32 = 0x8D70;
pub const RGBA4: u32 = 0x8056;
pub const RGBA8: u32 = 0x8058;
pub const RGBA8I: u32 = 0x8D8E;
pub const RGBA8UI: u32 = 0x8D7C;
pub const RGBA8_OES: u32 = 0x8058;
pub const RGBA8_SNORM: u32 = 0x8F97;
pub const RGBA_INTEGER: u32 = 0x8D99;
pub const RGB_INTEGER: u32 = 0x8D98;
pub const RG_INTEGER: u32 = 0x8228;
pub const SAMPLER_1D: u32 = 0x8B5D;
pub const SAMPLER_1D_ARRAY: u32 = 0x8DC0;
pub const SAMPLER_1D_ARRAY_SHADOW: u32 = 0x8DC3;
pub const SAMPLER_1D_SHADOW: u32 = 0x8B61;
pub const SAMPLER_2D: u32 = 0x8B5E;
pub const SAMPLER_2D_ARRAY: u32 = 0x8DC1;
pub const SAMPLER_2D_ARRAY_SHADOW: u32 = 0x8DC4;
pub const SAMPLER_2D_MULTISAMPLE: u32 = 0x9108;
pub const SAMPLER_2D_MULTISAMPLE_ARRAY: u32 = 0x910B;
pub const SAMPLER_2D_RECT: u32 = 0x8B63;
pub const SAMPLER_2D_RECT_SHADOW: u32 = 0x8B64;
pub const SAMPLER_2D_SHADOW: u32 = 0x8B62;
pub const SAMPLER_3D: u32 = 0x8B5F;
pub const SAMPLER_BUFFER: u32 = 0x8DC2;
pub const SAMPLER_CUBE: u32 = 0x8B60;
pub const SAMPLER_CUBE_SHADOW: u32 = 0x8DC5;
pub const SEPARATE_ATTRIBS: u32 = 0x8C8D;
pub const SEPARATE_ATTRIBS_EXT: u32 = 0x8C8D;
pub const SHORT: u32 = 0x1402;
pub const SRGB8: u32 = 0x8C41;
pub const SRGB8_ALPHA8: u32 = 0x8C43;
pub const STACK_OVERFLOW: u32 = 0x0503;
pub const STACK_UNDERFLOW: u32 = 0x0504;
pub const STENCIL_BUFFER_BIT: u32 = 0x00000400;
pub const STENCIL_INDEX1: u32 = 0x8D46;
pub const STENCIL_INDEX16: u32 = 0x8D49;
pub const STENCIL_INDEX4: u32 = 0x8D47;
pub const STENCIL_INDEX8: u32 = 0x8D48;
pub const TESS_CONTROL_SHADER: u32 = 0x8E88;
pub const TESS_EVALUATION_SHADER: u32 = 0x8E87;
pub const TEXTURE_1D: u32 = 0x0DE0;
pub const TEXTURE_1D_ARRAY: u32 = 0x8C18;
pub const TEXTURE_2D: u32 = 0x0DE1;
pub const TEXTURE_2D_ARRAY: u32 = 0x8C1A;
pub const TEXTURE_2D_MULTISAMPLE: u32 = 0x9100;
pub const TEXTURE_2D_MULTISAMPLE_ARRAY: u32 = 0x9102;
pub const TEXTURE_3D: u32 = 0x806F;
pub const TEXTURE_CUBE_MAP: u32 = 0x8513;
pub const TEXTURE_CUBE_MAP_ARRAY: u32 = 0x9009;
pub const TEXTURE_CUBE_MAP_POSITIVE_X: u32 = 0x8515;
pub const TEXTURE_RECTANGLE: u32 = 0x84F5;
pub const TRIANGLES: u32 = 0x0004;
pub const TRIANGLES_ADJACENCY: u32 = 0x000C;
pub const TRIANGLE_FAN: u32 = 0x0006;
pub const TRIANGLE_STRIP: u32 = 0x0005;
pub const TRIANGLE_STRIP_ADJACENCY: u32 = 0x000D;
pub const UNSIGNED_BYTE: u32 = 0x1401;
pub const UNSIGNED_BYTE_3_3_2: u32 = 0x8032;
pub const UNSIGNED_INT: u32 = 0x1405;
pub const UNSIGNED_INT_10_10_10_2: u32 = 0x8036;
pub const UNSIGNED_INT_ATOMIC_COUNTER: u32 = 0x92DB;
pub const UNSIGNED_INT_IMAGE_1D: u32 = 0x9062;
pub const UNSIGNED_INT_IMAGE_1D_ARRAY: u32 = 0x9068;
pub const UNSIGNED_INT_IMAGE_2D: u32 = 0x9063;
pub const UNSIGNED_INT_IMAGE_2D_ARRAY: u32 = 0x9069;
pub const UNSIGNED_INT_IMAGE_2D_MULTISAMPLE: u32 = 0x906B;
pub const UNSIGNED_INT_IMAGE_2D_MULTISAMPLE_ARRAY: u32 = 0x906C;
pub const UNSIGNED_INT_IMAGE_2D_RECT: u32 = 0x9065;
pub const UNSIGNED_INT_IMAGE_3D: u32 = 0x9064;
pub const UNSIGNED_INT_IMAGE_BUFFER: u32 = 0x9067;
pub const UNSIGNED_INT_IMAGE_CUBE: u32 = 0x9066;
pub const UNSIGNED_INT_SAMPLER_1D: u32 = 0x8DD1;
pub const UNSIGNED_INT_SAMPLER_1D_ARRAY: u32 = 0x8DD6;
pub const UNSIGNED_INT_SAMPLER_2D: u32 = 0x8DD2;
pub const UNSIGNED_INT_SAMPLER_2D_ARRAY: u32 = 0x8DD7;
pub const UNSIGNED_INT_SAMPLER_2D_MULTISAMPLE: u32 = 0x910A;
pub const UNSIGNED_INT_SAMPLER_2D_MULTISAMPLE_ARRAY: u32 = 0x910D;
pub const UNSIGNED_INT_SAMPLER_2D_RECT: u32 = 0x8DD5;
pub const UNSIGNED_INT_SAMPLER_3D: u32 = 0x8DD3;
pub const UNSIGNED_INT_SAMPLER_BUFFER: u32 = 0x8DD8;
pub const UNSIGNED_INT_SAMPLER_CUBE: u32 = 0x8DD4;
pub const UNSIGNED_INT_VEC2: u32 = 0x8DC6;
pub const UNSIGNED_INT_VEC2_EXT: u32 = 0x8DC6;
pub const UNSIGNED_INT_VEC3: u32 = 0x8DC7;
pub const UNSIGNED_INT_VEC3_EXT: u32 = 0x8DC7;
pub const UNSIGNED_INT_VEC4: u32 = 0x8DC8;
pub const UNSIGNED_INT_VEC4_EXT: u32 = 0x8DC8;
pub const UNSIGNED_SHORT: u32 = 0x1403;
pub const UNSIGNED_SHORT_4_4_4_4: u32 = 0x8033;
pub const UNSIGNED_SHORT_5_5_5_1: u32 = 0x8034;
pub const UNSIGNED_SHORT_5_6_5: u32 = 0x8363;
pub const VERTEX_SHADER: u32 = 0x8B31;

} // verus!
