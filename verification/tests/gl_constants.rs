use glium::gl as consts;

#[test]
fn enumerants_match_the_opengl_registry() {
    assert_eq!(consts::INVALID_OPERATION, gl::INVALID_OPERATION);
    assert_eq!(consts::INVALID_VALUE, gl::INVALID_VALUE);
    assert_eq!(consts::NO_ERROR, gl::NO_ERROR);
    assert_eq!(consts::INVALID_ENUM, gl::INVALID_ENUM);
    assert_eq!(consts::INVALID_FRAMEBUFFER_OPERATION, gl::INVALID_FRAMEBUFFER_OPERATION);
    assert_eq!(consts::OUT_OF_MEMORY, gl::OUT_OF_MEMORY);
    assert_eq!(consts::STACK_UNDERFLOW, gl::STACK_UNDERFLOW);
    assert_eq!(consts::STACK_OVERFLOW, gl::STACK_OVERFLOW);
    assert_eq!(consts::CONTEXT_LOST, gl::CONTEXT_LOST);
    assert_eq!(consts::BACK, gl::BACK);
    assert_eq!(consts::BGR, gl::BGR);
    assert_eq!(consts::BGRA, gl::BGRA);
    assert_eq!(consts::BOOL, gl::BOOL);
    assert_eq!(consts::BOOL_VEC2, gl::BOOL_VEC2);
    assert_eq!(consts::BOOL_VEC3, gl::BOOL_VEC3);
    assert_eq!(consts::BOOL_VEC4, gl::BOOL_VEC4);
    assert_eq!(consts::BYTE, gl::BYTE);
    assert_eq!(consts::COLOR_ATTACHMENT0, gl::COLOR_ATTACHMENT0);
    assert_eq!(consts::COMPRESSED_RED, gl::COMPRESSED_RED);
    assert_eq!(consts::COMPRESSED_RED_RGTC1, gl::COMPRESSED_RED_RGTC1);
    assert_eq!(consts::COMPRESSED_RG, gl::COMPRESSED_RG);
    assert_eq!(consts::COMPRESSED_RGB, gl::COMPRESSED_RGB);
    assert_eq!(consts::COMPRESSED_RGBA, gl::COMPRESSED_RGBA);
    assert_eq!(consts::COMPRESSED_RGBA_BPTC_UNORM, gl::COMPRESSED_RGBA_BPTC_UNORM);
    assert_eq!(consts::COMPRESSED_RGB_BPTC_SIGNED_FLOAT, gl::COMPRESSED_RGB_BPTC_SIGNED_FLOAT);
    assert_eq!(consts::COMPRESSED_RGB_BPTC_UNSIGNED_FLOAT, gl::COMPRESSED_RGB_BPTC_UNSIGNED_FLOAT);
    assert_eq!(consts::COMPRESSED_RG_RGTC2, gl::COMPRESSED_RG_RGTC2);
    assert_eq!(consts::COMPRESSED_SIGNED_RED_RGTC1, gl::COMPRESSED_SIGNED_RED_RGTC1);
    assert_eq!(consts::COMPRESSED_SIGNED_RG_RGTC2, gl::COMPRESSED_SIGNED_RG_RGTC2);
    assert_eq!(consts::COMPRESSED_SRGB, gl::COMPRESSED_SRGB);
    assert_eq!(consts::COMPRESSED_SRGB_ALPHA, gl::COMPRESSED_SRGB_ALPHA);
    assert_eq!(consts::COMPRESSED_SRGB_ALPHA_BPTC_UNORM, gl::COMPRESSED_SRGB_ALPHA_BPTC_UNORM);
    assert_eq!(consts::COMPUTE_SHADER, gl::COMPUTE_SHADER);
    assert_eq!(consts::DEPTH24_STENCIL8, gl::DEPTH24_STENCIL8);
    assert_eq!(consts::DEPTH32F_STENCIL8, gl::DEPTH32F_STENCIL8);
    assert_eq!(consts::DEPTH_COMPONENT, gl::DEPTH_COMPONENT);
    assert_eq!(consts::DEPTH_COMPONENT16, gl::DEPTH_COMPONENT16);
    assert_eq!(consts::DEPTH_COMPONENT24, gl::DEPTH_COMPONENT24);
    assert_eq!(consts::DEPTH_COMPONENT32, gl::DEPTH_COMPONENT32);
    assert_eq!(consts::DEPTH_COMPONENT32F, gl::DEPTH_COMPONENT32F);
    assert_eq!(consts::DEPTH_STENCIL, gl::DEPTH_STENCIL);
    assert_eq!(consts::DOUBLE, gl::DOUBLE);
    assert_eq!(consts::DOUBLE_MAT2, gl::DOUBLE_MAT2);
    assert_eq!(consts::DOUBLE_MAT2x3, gl::DOUBLE_MAT2x3);
    assert_eq!(consts::DOUBLE_MAT2x4, gl::DOUBLE_MAT2x4);
    assert_eq!(consts::DOUBLE_MAT3, gl::DOUBLE_MAT3);
    assert_eq!(consts::DOUBLE_MAT3x2, gl::DOUBLE_MAT3x2);
    assert_eq!(consts::DOUBLE_MAT3x4, gl::DOUBLE_MAT3x4);
    assert_eq!(consts::DOUBLE_MAT4, gl::DOUBLE_MAT4);
    assert_eq!(consts::DOUBLE_MAT4x2, gl::DOUBLE_MAT4x2);
    assert_eq!(consts::DOUBLE_MAT4x3, gl::DOUBLE_MAT4x3);
    assert_eq!(consts::DOUBLE_VEC2, gl::DOUBLE_VEC2);
    assert_eq!(consts::DOUBLE_VEC3, gl::DOUBLE_VEC3);
    assert_eq!(consts::DOUBLE_VEC4, gl::DOUBLE_VEC4);
    assert_eq!(consts::DRAW_FRAMEBUFFER, gl::DRAW_FRAMEBUFFER);
    assert_eq!(consts::FLOAT, gl::FLOAT);
    assert_eq!(consts::FLOAT_MAT2, gl::FLOAT_MAT2);
    assert_eq!(consts::FLOAT_MAT2x3, gl::FLOAT_MAT2x3);
    assert_eq!(consts::FLOAT_MAT2x4, gl::FLOAT_MAT2x4);
    assert_eq!(consts::FLOAT_MAT3, gl::FLOAT_MAT3);
    assert_eq!(consts::FLOAT_MAT3x2, gl::FLOAT_MAT3x2);
    assert_eq!(consts::FLOAT_MAT3x4, gl::FLOAT_MAT3x4);
    assert_eq!(consts::FLOAT_MAT4, gl::FLOAT_MAT4);
    assert_eq!(consts::FLOAT_MAT4x2, gl::FLOAT_MAT4x2);
    assert_eq!(consts::FLOAT_MAT4x3, gl::FLOAT_MAT4x3);
    assert_eq!(consts::FLOAT_VEC2, gl::FLOAT_VEC2);
    assert_eq!(consts::FLOAT_VEC3, gl::FLOAT_VEC3);
    assert_eq!(consts::FLOAT_VEC4, gl::FLOAT_VEC4);
    assert_eq!(consts::FRAGMENT_SHADER, gl::FRAGMENT_SHADER);
    assert_eq!(consts::FRAMEBUFFER, gl::FRAMEBUFFER);
    assert_eq!(consts::GEOMETRY_SHADER, gl::GEOMETRY_SHADER);
    assert_eq!(consts::HALF_FLOAT, gl::HALF_FLOAT);
    assert_eq!(consts::IMAGE_1D, gl::IMAGE_1D);
    assert_eq!(consts::IMAGE_1D_ARRAY, gl::IMAGE_1D_ARRAY);
    assert_eq!(consts::IMAGE_2D, gl::IMAGE_2D);
    assert_eq!(consts::IMAGE_2D_ARRAY, gl::IMAGE_2D_ARRAY);
    assert_eq!(consts::IMAGE_2D_MULTISAMPLE, gl::IMAGE_2D_MULTISAMPLE);
    assert_eq!(consts::IMAGE_2D_MULTISAMPLE_ARRAY, gl::IMAGE_2D_MULTISAMPLE_ARRAY);
    assert_eq!(consts::IMAGE_2D_RECT, gl::IMAGE_2D_RECT);
    assert_eq!(consts::IMAGE_3D, gl::IMAGE_3D);
    assert_eq!(consts::IMAGE_BUFFER, gl::IMAGE_BUFFER);
    assert_eq!(consts::IMAGE_CUBE, gl::IMAGE_CUBE);
    assert_eq!(consts::INT, gl::INT);
    assert_eq!(consts::INTERLEAVED_ATTRIBS, gl::INTERLEAVED_ATTRIBS);
    assert_eq!(consts::INT_IMAGE_1D, gl::INT_IMAGE_1D);
    assert_eq!(consts::INT_IMAGE_1D_ARRAY, gl::INT_IMAGE_1D_ARRAY);
    assert_eq!(consts::INT_IMAGE_2D, gl::INT_IMAGE_2D);
    assert_eq!(consts::INT_IMAGE_2D_ARRAY, gl::INT_IMAGE_2D_ARRAY);
    assert_eq!(consts::INT_IMAGE_2D_MULTISAMPLE, gl::INT_IMAGE_2D_MULTISAMPLE);
    assert_eq!(consts::INT_IMAGE_2D_MULTISAMPLE_ARRAY, gl::INT_IMAGE_2D_MULTISAMPLE_ARRAY);
    assert_eq!(consts::INT_IMAGE_2D_RECT, gl::INT_IMAGE_2D_RECT);
    assert_eq!(consts::INT_IMAGE_3D, gl::INT_IMAGE_3D);
    assert_eq!(consts::INT_IMAGE_BUFFER, gl::INT_IMAGE_BUFFER);
    assert_eq!(consts::INT_IMAGE_CUBE, gl::INT_IMAGE_CUBE);
    assert_eq!(consts::INT_SAMPLER_1D, gl::INT_SAMPLER_1D);
    assert_eq!(consts::INT_SAMPLER_1D_ARRAY, gl::INT_SAMPLER_1D_ARRAY);
    assert_eq!(consts::INT_SAMPLER_2D, gl::INT_SAMPLER_2D);
    assert_eq!(consts::INT_SAMPLER_2D_ARRAY, gl::INT_SAMPLER_2D_ARRAY);
    assert_eq!(consts::INT_SAMPLER_2D_MULTISAMPLE, gl::INT_SAMPLER_2D_MULTISAMPLE);
    assert_eq!(consts::INT_SAMPLER_2D_MULTISAMPLE_ARRAY, gl::INT_SAMPLER_2D_MULTISAMPLE_ARRAY);
    assert_eq!(consts::INT_SAMPLER_2D_RECT, gl::INT_SAMPLER_2D_RECT);
    assert_eq!(consts::INT_SAMPLER_3D, gl::INT_SAMPLER_3D);
    assert_eq!(consts::INT_SAMPLER_BUFFER, gl::INT_SAMPLER_BUFFER);
    assert_eq!(consts::INT_SAMPLER_CUBE, gl::INT_SAMPLER_CUBE);
    assert_eq!(consts::INT_VEC2, gl::INT_VEC2);
    assert_eq!(consts::INT_VEC3, gl::INT_VEC3);
    assert_eq!(consts::INT_VEC4, gl::INT_VEC4);
    assert_eq!(consts::ISOLINES, gl::ISOLINES);
    assert_eq!(consts::LINES, gl::LINES);
    assert_eq!(consts::LINES_ADJACENCY, gl::LINES_ADJACENCY);
    assert_eq!(consts::LINE_LOOP, gl::LINE_LOOP);
    assert_eq!(consts::LINE_STRIP, gl::LINE_STRIP);
    assert_eq!(consts::LINE_STRIP_ADJACENCY, gl::LINE_STRIP_ADJACENCY);
    assert_eq!(consts::NONE, gl::NONE);
    assert_eq!(consts::PATCHES, gl::PATCHES);
    assert_eq!(consts::POINTS, gl::POINTS);
    assert_eq!(consts::R11F_G11F_B10F, gl::R11F_G11F_B10F);
    assert_eq!(consts::R16, gl::R16);
    assert_eq!(consts::R16F, gl::R16F);
    assert_eq!(consts::R16I, gl::R16I);
    assert_eq!(consts::R16UI, gl::R16UI);
    assert_eq!(consts::R16_SNORM, gl::R16_SNORM);
    assert_eq!(consts::R32F, gl::R32F);
    assert_eq!(consts::R32I, gl::R32I);
    assert_eq!(consts::R32UI, gl::R32UI);
    assert_eq!(consts::R3_G3_B2, gl::R3_G3_B2);
    assert_eq!(consts::R8, gl::R8);
    assert_eq!(consts::R8I, gl::R8I);
    assert_eq!(consts::R8UI, gl::R8UI);
    assert_eq!(consts::R8_SNORM, gl::R8_SNORM);
    assert_eq!(consts::RED, gl::RED);
    assert_eq!(consts::RED_INTEGER, gl::RED_INTEGER);
    assert_eq!(consts::RG, gl::RG);
    assert_eq!(consts::RG16, gl::RG16);
    assert_eq!(consts::RG16F, gl::RG16F);
    assert_eq!(consts::RG16I, gl::RG16I);
    assert_eq!(consts::RG16UI, gl::RG16UI);
    assert_eq!(consts::RG16_SNORM, gl::RG16_SNORM);
    assert_eq!(consts::RG32F, gl::RG32F);
    assert_eq!(consts::RG32I, gl::RG32I);
    assert_eq!(consts::RG32UI, gl::RG32UI);
    assert_eq!(consts::RG8, gl::RG8);
    assert_eq!(consts::RG8I, gl::RG8I);
    assert_eq!(consts::RG8UI, gl::RG8UI);
    assert_eq!(consts::RG8_SNORM, gl::RG8_SNORM);
    assert_eq!(consts::RGB, gl::RGB);
    assert_eq!(consts::RGB10, gl::RGB10);
    assert_eq!(consts::RGB10_A2, gl::RGB10_A2);
    assert_eq!(consts::RGB10_A2UI, gl::RGB10_A2UI);
    assert_eq!(consts::RGB12, gl::RGB12);
    assert_eq!(consts::RGB16, gl::RGB16);
    assert_eq!(consts::RGB16F, gl::RGB16F);
    assert_eq!(consts::RGB16I, gl::RGB16I);
    assert_eq!(consts::RGB16UI, gl::RGB16UI);
    assert_eq!(consts::RGB16_SNORM, gl::RGB16_SNORM);
    assert_eq!(consts::RGB32F, gl::RGB32F);
    assert_eq!(consts::RGB32I, gl::RGB32I);
    assert_eq!(consts::RGB32UI, gl::RGB32UI);
    assert_eq!(consts::RGB4, gl::RGB4);
    assert_eq!(consts::RGB5, gl::RGB5);
    assert_eq!(consts::RGB565, gl::RGB565);
    assert_eq!(consts::RGB5_A1, gl::RGB5_A1);
    assert_eq!(consts::RGB8, gl::RGB8);
    assert_eq!(consts::RGB8I, gl::RGB8I);
    assert_eq!(consts::RGB8UI, gl::RGB8UI);
    assert_eq!(consts::RGB8_SNORM, gl::RGB8_SNORM);
    assert_eq!(consts::RGB9_E5, gl::RGB9_E5);
    assert_eq!(consts::RGBA, gl::RGBA);
    assert_eq!(consts::RGBA12, gl::RGBA12);
    assert_eq!(consts::RGBA16, gl::RGBA16);
    assert_eq!(consts::RGBA16F, gl::RGBA16F);
    assert_eq!(consts::RGBA16I, gl::RGBA16I);
    assert_eq!(consts::RGBA16UI, gl::RGBA16UI);
    assert_eq!(consts::RGBA16_SNORM, gl::RGBA16_SNORM);
    assert_eq!(consts::RGBA2, gl::RGBA2);
    assert_eq!(consts::RGBA32F, gl::RGBA32F);
    assert_eq!(consts::RGBA32I, gl::RGBA32I);
    assert_eq!(consts::RGBA32UI, gl::RGBA32UI);
    assert_eq!(consts::RGBA4, gl::RGBA4);
    assert_eq!(consts::RGBA8, gl::RGBA8);
    assert_eq!(consts::RGBA8I, gl::RGBA8I);
    assert_eq!(consts::RGBA8UI, gl::RGBA8UI);
    assert_eq!(consts::RGBA8_SNORM, gl::RGBA8_SNORM);
    assert_eq!(consts::RGBA_INTEGER, gl::RGBA_INTEGER);
    assert_eq!(consts::RGB_INTEGER, gl::RGB_INTEGER);
    assert_eq!(consts::RG_INTEGER, gl::RG_INTEGER);
    assert_eq!(consts::SAMPLER_1D, gl::SAMPLER_1D);
    assert_eq!(consts::SAMPLER_1D_ARRAY, gl::SAMPLER_1D_ARRAY);
    assert_eq!(consts::SAMPLER_1D_ARRAY_SHADOW, gl::SAMPLER_1D_ARRAY_SHADOW);
    assert_eq!(consts::SAMPLER_1D_SHADOW, gl::SAMPLER_1D_SHADOW);
    assert_eq!(consts::SAMPLER_2D, gl::SAMPLER_2D);
    assert_eq!(consts::SAMPLER_2D_ARRAY, gl::SAMPLER_2D_ARRAY);
    assert_eq!(consts::SAMPLER_2D_ARRAY_SHADOW, gl::SAMPLER_2D_ARRAY_SHADOW);
    assert_eq!(consts::SAMPLER_2D_MULTISAMPLE, gl::SAMPLER_2D_MULTISAMPLE);
    assert_eq!(consts::SAMPLER_2D_MULTISAMPLE_ARRAY, gl::SAMPLER_2D_MULTISAMPLE_ARRAY);
    assert_eq!(consts::SAMPLER_2D_RECT, gl::SAMPLER_2D_RECT);
    assert_eq!(consts::SAMPLER_2D_RECT_SHADOW, gl::SAMPLER_2D_RECT_SHADOW);
    assert_eq!(consts::SAMPLER_2D_SHADOW, gl::SAMPLER_2D_SHADOW);
    assert_eq!(consts::SAMPLER_3D, gl::SAMPLER_3D);
    assert_eq!(consts::SAMPLER_BUFFER, gl::SAMPLER_BUFFER);
    assert_eq!(consts::SAMPLER_CUBE, gl::SAMPLER_CUBE);
    assert_eq!(consts::SAMPLER_CUBE_SHADOW, gl::SAMPLER_CUBE_SHADOW);
    assert_eq!(consts::SEPARATE_ATTRIBS, gl::SEPARATE_ATTRIBS);
    assert_eq!(consts::SHORT, gl::SHORT);
    assert_eq!(consts::SRGB8, gl::SRGB8);
    assert_eq!(consts::SRGB8_ALPHA8, gl::SRGB8_ALPHA8);
    assert_eq!(consts::STENCIL_INDEX1, gl::STENCIL_INDEX1);
    assert_eq!(consts::STENCIL_INDEX16, gl::STENCIL_INDEX16);
    assert_eq!(consts::STENCIL_INDEX4, gl::STENCIL_INDEX4);
    assert_eq!(consts::STENCIL_INDEX8, gl::STENCIL_INDEX8);
    assert_eq!(consts::TESS_CONTROL_SHADER, gl::TESS_CONTROL_SHADER);
    assert_eq!(consts::TESS_EVALUATION_SHADER, gl::TESS_EVALUATION_SHADER);
    assert_eq!(consts::TEXTURE_1D, gl::TEXTURE_1D);
    assert_eq!(consts::TEXTURE_1D_ARRAY, gl::TEXTURE_1D_ARRAY);
    assert_eq!(consts::TEXTURE_2D, gl::TEXTURE_2D);
    assert_eq!(consts::TEXTURE_2D_ARRAY, gl::TEXTURE_2D_ARRAY);
    assert_eq!(consts::TEXTURE_2D_MULTISAMPLE, gl::TEXTURE_2D_MULTISAMPLE);
    assert_eq!(consts::TEXTURE_2D_MULTISAMPLE_ARRAY, gl::TEXTURE_2D_MULTISAMPLE_ARRAY);
    assert_eq!(consts::TEXTURE_3D, gl::TEXTURE_3D);
    assert_eq!(consts::TEXTURE_CUBE_MAP, gl::TEXTURE_CUBE_MAP);
    assert_eq!(consts::TEXTURE_CUBE_MAP_ARRAY, gl::TEXTURE_CUBE_MAP_ARRAY);
    assert_eq!(consts::TEXTURE_CUBE_MAP_POSITIVE_X, gl::TEXTURE_CUBE_MAP_POSITIVE_X);
    assert_eq!(consts::TEXTURE_RECTANGLE, gl::TEXTURE_RECTANGLE);
    assert_eq!(consts::TRIANGLES, gl::TRIANGLES);
    assert_eq!(consts::TRIANGLES_ADJACENCY, gl::TRIANGLES_ADJACENCY);
    assert_eq!(consts::TRIANGLE_FAN, gl::TRIANGLE_FAN);
    assert_eq!(consts::TRIANGLE_STRIP, gl::TRIANGLE_STRIP);
    assert_eq!(consts::TRIANGLE_STRIP_ADJACENCY, gl::TRIANGLE_STRIP_ADJACENCY);
    assert_eq!(consts::UNSIGNED_BYTE, gl::UNSIGNED_BYTE);
    assert_eq!(consts::UNSIGNED_BYTE_3_3_2, gl::UNSIGNED_BYTE_3_3_2);
    assert_eq!(consts::UNSIGNED_INT, gl::UNSIGNED_INT);
    assert_eq!(consts::UNSIGNED_INT_10_10_10_2, gl::UNSIGNED_INT_10_10_10_2);
    assert_eq!(consts::UNSIGNED_INT_ATOMIC_COUNTER, gl::UNSIGNED_INT_ATOMIC_COUNTER);
    assert_eq!(consts::UNSIGNED_INT_IMAGE_1D, gl::UNSIGNED_INT_IMAGE_1D);
    assert_eq!(consts::UNSIGNED_INT_IMAGE_1D_ARRAY, gl::UNSIGNED_INT_IMAGE_1D_ARRAY);
    assert_eq!(consts::UNSIGNED_INT_IMAGE_2D, gl::UNSIGNED_INT_IMAGE_2D);
    assert_eq!(consts::UNSIGNED_INT_IMAGE_2D_ARRAY, gl::UNSIGNED_INT_IMAGE_2D_ARRAY);
    assert_eq!(consts::UNSIGNED_INT_IMAGE_2D_MULTISAMPLE, gl::UNSIGNED_INT_IMAGE_2D_MULTISAMPLE);
    assert_eq!(consts::UNSIGNED_INT_IMAGE_2D_MULTISAMPLE_ARRAY, gl::UNSIGNED_INT_IMAGE_2D_MULTISAMPLE_ARRAY);
    assert_eq!(consts::UNSIGNED_INT_IMAGE_2D_RECT, gl::UNSIGNED_INT_IMAGE_2D_RECT);
    assert_eq!(consts::UNSIGNED_INT_IMAGE_3D, gl::UNSIGNED_INT_IMAGE_3D);
    assert_eq!(consts::UNSIGNED_INT_IMAGE_BUFFER, gl::UNSIGNED_INT_IMAGE_BUFFER);
    assert_eq!(consts::UNSIGNED_INT_IMAGE_CUBE, gl::UNSIGNED_INT_IMAGE_CUBE);
    assert_eq!(consts::UNSIGNED_INT_SAMPLER_1D, gl::UNSIGNED_INT_SAMPLER_1D);
    assert_eq!(consts::UNSIGNED_INT_SAMPLER_1D_ARRAY, gl::UNSIGNED_INT_SAMPLER_1D_ARRAY);
    assert_eq!(consts::UNSIGNED_INT_SAMPLER_2D, gl::UNSIGNED_INT_SAMPLER_2D);
    assert_eq!(consts::UNSIGNED_INT_SAMPLER_2D_ARRAY, gl::UNSIGNED_INT_SAMPLER_2D_ARRAY);
    assert_eq!(consts::UNSIGNED_INT_SAMPLER_2D_MULTISAMPLE, gl::UNSIGNED_INT_SAMPLER_2D_MULTISAMPLE);
    assert_eq!(consts::UNSIGNED_INT_SAMPLER_2D_MULTISAMPLE_ARRAY, gl::UNSIGNED_INT_SAMPLER_2D_MULTISAMPLE_ARRAY);
    assert_eq!(consts::UNSIGNED_INT_SAMPLER_2D_RECT, gl::UNSIGNED_INT_SAMPLER_2D_RECT);
    assert_eq!(consts::UNSIGNED_INT_SAMPLER_3D, gl::UNSIGNED_INT_SAMPLER_3D);
    assert_eq!(consts::UNSIGNED_INT_SAMPLER_BUFFER, gl::UNSIGNED_INT_SAMPLER_BUFFER);
    assert_eq!(consts::UNSIGNED_INT_SAMPLER_CUBE, gl::UNSIGNED_INT_SAMPLER_CUBE);
    assert_eq!(consts::UNSIGNED_INT_VEC2, gl::UNSIGNED_INT_VEC2);
    assert_eq!(consts::UNSIGNED_INT_VEC3, gl::UNSIGNED_INT_VEC3);
    assert_eq!(consts::UNSIGNED_INT_VEC4, gl::UNSIGNED_INT_VEC4);
    assert_eq!(consts::UNSIGNED_SHORT, gl::UNSIGNED_SHORT);
    assert_eq!(consts::UNSIGNED_SHORT_4_4_4_4, gl::UNSIGNED_SHORT_4_4_4_4);
    assert_eq!(consts::UNSIGNED_SHORT_5_5_5_1, gl::UNSIGNED_SHORT_5_5_5_1);
    assert_eq!(consts::UNSIGNED_SHORT_5_6_5, gl::UNSIGNED_SHORT_5_6_5);
    assert_eq!(consts::VERTEX_SHADER, gl::VERTEX_SHADER);
}
