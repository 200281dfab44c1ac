//! GL enum values that the parameter tables and the buffer rules compare with.
use vstd::prelude::*;

verus! {

pub const ACTIVE_TEXTURE: u32 = 0x84E0;
pub const ALPHA_BITS: u32 = 0x0D55;
pub const BLEND_DST_ALPHA: u32 = 0x80CA;
pub const BLEND_DST_RGB: u32 = 0x80C8;
pub const BLEND_EQUATION_ALPHA: u32 = 0x883D;
pub const BLEND_EQUATION_RGB: u32 = 0x8009;
pub const BLEND_SRC_ALPHA: u32 = 0x80CB;
pub const BLEND_SRC_RGB: u32 = 0x80C9;
pub const BLUE_BITS: u32 = 0x0D54;
pub const CULL_FACE_MODE: u32 = 0x0B45;
pub const DEPTH_BITS: u32 = 0x0D56;
pub const DEPTH_FUNC: u32 = 0x0B74;
pub const FRONT_FACE: u32 = 0x0B46;
pub const GREEN_BITS: u32 = 0x0D53;
pub const MAX_COMBINED_TEXTURE_IMAGE_UNITS: u32 = 0x8B4D;
pub const MAX_CUBE_MAP_TEXTURE_SIZE: u32 = 0x851C;
pub const MAX_RENDERBUFFER_SIZE: u32 = 0x84E8;
pub const MAX_TEXTURE_IMAGE_UNITS: u32 = 0x8872;
pub const MAX_TEXTURE_SIZE: u32 = 0x0D33;
pub const MAX_VERTEX_ATTRIBS: u32 = 0x8869;
pub const MAX_VERTEX_TEXTURE_IMAGE_UNITS: u32 = 0x8B4C;
pub const PACK_ALIGNMENT: u32 = 0x0D05;
pub const RED_BITS: u32 = 0x0D52;
pub const SAMPLE_BUFFERS: u32 = 0x80A8;
pub const SAMPLES: u32 = 0x80A9;
pub const STENCIL_BACK_FAIL: u32 = 0x8801;
pub const STENCIL_BACK_FUNC: u32 = 0x8800;
pub const STENCIL_BACK_PASS_DEPTH_FAIL: u32 = 0x8802;
pub const STENCIL_BACK_PASS_DEPTH_PASS: u32 = 0x8803;
pub const STENCIL_BACK_REF: u32 = 0x8CA3;
pub const STENCIL_BACK_VALUE_MASK: u32 = 0x8CA4;
pub const STENCIL_BACK_WRITEMASK: u32 = 0x8CA5;
pub const STENCIL_BITS: u32 = 0x0D57;
pub const STENCIL_CLEAR_VALUE: u32 = 0x0B91;
pub const STENCIL_FAIL: u32 = 0x0B94;
pub const STENCIL_FUNC: u32 = 0x0B92;
pub const STENCIL_PASS_DEPTH_FAIL: u32 = 0x0B95;
pub const STENCIL_PASS_DEPTH_PASS: u32 = 0x0B96;
pub const STENCIL_REF: u32 = 0x0B97;
pub const STENCIL_VALUE_MASK: u32 = 0x0B93;
pub const STENCIL_WRITEMASK: u32 = 0x0B98;
pub const SUBPIXEL_BITS: u32 = 0x0D50;
pub const UNPACK_ALIGNMENT: u32 = 0x0CF5;
pub const BLEND: u32 = 0x0BE2;
pub const CULL_FACE: u32 = 0x0B44;
pub const DEPTH_TEST: u32 = 0x0B71;
pub const DEPTH_WRITEMASK: u32 = 0x0B72;
pub const DITHER: u32 = 0x0BD0;
pub const POLYGON_OFFSET_FILL: u32 = 0x8037;
pub const SAMPLE_COVERAGE_INVERT: u32 = 0x80AB;
pub const STENCIL_TEST: u32 = 0x0B90;
pub const DEPTH_CLEAR_VALUE: u32 = 0x0B73;
pub const LINE_WIDTH: u32 = 0x0B21;
pub const POLYGON_OFFSET_FACTOR: u32 = 0x8038;
pub const POLYGON_OFFSET_UNITS: u32 = 0x2A00;
pub const SAMPLE_COVERAGE_VALUE: u32 = 0x80AA;
pub const VERSION: u32 = 0x1F02;
pub const RENDERER: u32 = 0x1F01;
pub const VENDOR: u32 = 0x1F00;
pub const SHADING_LANGUAGE_VERSION: u32 = 0x8B8C;
pub const VERTEX_ATTRIB_ARRAY_ENABLED: u32 = 0x8622;
pub const VERTEX_ATTRIB_ARRAY_NORMALIZED: u32 = 0x886A;
pub const VERTEX_ATTRIB_ARRAY_SIZE: u32 = 0x8623;
pub const VERTEX_ATTRIB_ARRAY_STRIDE: u32 = 0x8624;
pub const VERTEX_ATTRIB_ARRAY_TYPE: u32 = 0x8625;
pub const CURRENT_VERTEX_ATTRIB: u32 = 0x8626;
pub const VERTEX_ATTRIB_ARRAY_POINTER: u32 = 0x8645;
pub const BUFFER_SIZE: u32 = 0x8764;
pub const BUFFER_USAGE: u32 = 0x8765;
pub const DELETE_STATUS: u32 = 0x8B80;
pub const LINK_STATUS: u32 = 0x8B82;
pub const VALIDATE_STATUS: u32 = 0x8B83;
pub const ATTACHED_SHADERS: u32 = 0x8B85;
pub const ACTIVE_ATTRIBUTES: u32 = 0x8B89;
pub const ACTIVE_UNIFORMS: u32 = 0x8B86;
pub const SHADER_TYPE: u32 = 0x8B4F;
pub const COMPILE_STATUS: u32 = 0x8B81;
pub const LOW_FLOAT: u32 = 0x8DF0;
pub const MEDIUM_FLOAT: u32 = 0x8DF1;
pub const HIGH_FLOAT: u32 = 0x8DF2;
pub const LOW_INT: u32 = 0x8DF3;
pub const MEDIUM_INT: u32 = 0x8DF4;
pub const HIGH_INT: u32 = 0x8DF5;
pub const COPY_READ_BUFFER: u32 = 0x8F36;
pub const COPY_WRITE_BUFFER: u32 = 0x8F37;
pub const TRANSFORM_FEEDBACK_BUFFER: u32 = 0x8C8E;
pub const ELEMENT_ARRAY_BUFFER: u32 = 0x8893;
pub const ARRAY_BUFFER: u32 = 0x8892;
pub const ALIASED_LINE_WIDTH_RANGE: u32 = 0x846E;
pub const DEPTH_RANGE: u32 = 0x0B70;
pub const ARRAY_BUFFER_BINDING: u32 = 0x8894;
pub const ELEMENT_ARRAY_BUFFER_BINDING: u32 = 0x8895;
pub const FRAMEBUFFER_BINDING: u32 = 0x8CA6;
pub const RENDERBUFFER_BINDING: u32 = 0x8CA7;
pub const CURRENT_PROGRAM: u32 = 0x8B8D;
pub const TEXTURE_BINDING_2D: u32 = 0x8069;
pub const TEXTURE_BINDING_CUBE_MAP: u32 = 0x8514;
pub const COLOR_WRITEMASK: u32 = 0x0C23;
pub const COMPRESSED_TEXTURE_FORMATS: u32 = 0x86A3;
pub const MAX_VIEWPORT_DIMS: u32 = 0x0D3A;
pub const SCISSOR_BOX: u32 = 0x0C10;
pub const COLOR_CLEAR_VALUE: u32 = 0x0C22;
pub const VIEWPORT: u32 = 0x0BA2;
pub const EXTENSIONS: u32 = 0x1F03;

} // verus!
