//! The closed tables that decide how a state query is answered: which
//! parameter ids are recognised, what kind of value each yields, and how the
//! driver's sentinel results are normalised before they reach the caller.
//! The host reads the value from the driver only once a table has said `Ok`.
use crate::gl;
use vstd::prelude::*;

verus! {

/// Errors that a query reports on its own reply channel.
#[derive(Clone, Copy, Debug, PartialEq, Eq, Structural)]
pub enum WebGLError {
    InvalidEnum,
    InvalidFramebufferOperation,
    InvalidOperation,
    InvalidValue,
    OutOfMemory,
    ContextLost,
}

pub type WebGLResult<T> = Result<T, WebGLError>;

/// The kind of value a recognised parameter yields. A string parameter has
/// a fixed answer, which the table gives.
#[derive(Clone, Copy, Debug, PartialEq, Eq)]
pub enum ParameterKind {
    Int,
    Bool,
    Float,
    FloatArray,
    Text(&'static str),
}

pub const VERSION_STRING: &'static str = "WebGL 1.0";
pub const RENDERER_STRING: &'static str = "Mozilla/Servo";
pub const SHADING_LANGUAGE_VERSION_STRING: &'static str = "WebGL GLSL ES 1.0";

/// Parameters read with the driver's integer getter.
pub open spec fn int_parameters() -> Set<u32> {
    set![
        gl::ACTIVE_TEXTURE, gl::ALPHA_BITS, gl::BLEND_DST_ALPHA, gl::BLEND_DST_RGB,
        gl::BLEND_EQUATION_ALPHA, gl::BLEND_EQUATION_RGB, gl::BLEND_SRC_ALPHA, gl::BLEND_SRC_RGB,
        gl::BLUE_BITS, gl::CULL_FACE_MODE, gl::DEPTH_BITS, gl::DEPTH_FUNC, gl::FRONT_FACE,
        gl::GREEN_BITS, gl::MAX_COMBINED_TEXTURE_IMAGE_UNITS, gl::MAX_CUBE_MAP_TEXTURE_SIZE,
        gl::MAX_RENDERBUFFER_SIZE, gl::MAX_TEXTURE_IMAGE_UNITS, gl::MAX_TEXTURE_SIZE,
        gl::MAX_VERTEX_ATTRIBS, gl::MAX_VERTEX_TEXTURE_IMAGE_UNITS, gl::PACK_ALIGNMENT,
        gl::RED_BITS, gl::SAMPLE_BUFFERS, gl::SAMPLES, gl::STENCIL_BACK_FAIL,
        gl::STENCIL_BACK_FUNC, gl::STENCIL_BACK_PASS_DEPTH_FAIL, gl::STENCIL_BACK_PASS_DEPTH_PASS,
        gl::STENCIL_BACK_REF, gl::STENCIL_BACK_VALUE_MASK, gl::STENCIL_BACK_WRITEMASK,
        gl::STENCIL_BITS, gl::STENCIL_CLEAR_VALUE, gl::STENCIL_FAIL, gl::STENCIL_FUNC,
        gl::STENCIL_PASS_DEPTH_FAIL, gl::STENCIL_PASS_DEPTH_PASS, gl::STENCIL_REF,
        gl::STENCIL_VALUE_MASK, gl::STENCIL_WRITEMASK, gl::SUBPIXEL_BITS, gl::UNPACK_ALIGNMENT
    ]
}

/// Parameters read with the driver's boolean getter.
pub open spec fn bool_parameters() -> Set<u32> {
    set![
        gl::BLEND, gl::CULL_FACE, gl::DEPTH_TEST, gl::DEPTH_WRITEMASK, gl::DITHER,
        gl::POLYGON_OFFSET_FILL, gl::SAMPLE_COVERAGE_INVERT, gl::STENCIL_TEST
    ]
}

/// Parameters read with the driver's float getter.
pub open spec fn float_parameters() -> Set<u32> {
    set![
        gl::DEPTH_CLEAR_VALUE, gl::LINE_WIDTH, gl::POLYGON_OFFSET_FACTOR,
        gl::POLYGON_OFFSET_UNITS, gl::SAMPLE_COVERAGE_VALUE
    ]
}

/// Parameters answered with a fixed string.
pub open spec fn text_parameters() -> Set<u32> {
    set![gl::VERSION, gl::RENDERER, gl::VENDOR, gl::SHADING_LANGUAGE_VERSION]
}

pub open spec fn recognized_parameters() -> Set<u32> {
    int_parameters() + bool_parameters() + float_parameters() + text_parameters()
}

/// The fixed answer of a string parameter.
pub open spec fn parameter_text(param_id: u32) -> &'static str {
    if param_id == gl::VERSION {
        VERSION_STRING
    } else if param_id == gl::SHADING_LANGUAGE_VERSION {
        SHADING_LANGUAGE_VERSION_STRING
    } else {
        RENDERER_STRING
    }
}

/// Namespace of the decisions taken while a command is translated.
pub struct WebGLImpl;

impl WebGLImpl {
    /// The table of `GetParameter`: each recognised id yields exactly one kind
    /// of value; any other id is `InvalidEnum`.
    pub fn parameter(param_id: u32) -> (r: WebGLResult<ParameterKind>)
        ensures
            int_parameters().contains(param_id) ==> r == Ok::<ParameterKind, WebGLError>(ParameterKind::Int),
            bool_parameters().contains(param_id) ==> r == Ok::<ParameterKind, WebGLError>(ParameterKind::Bool),
            float_parameters().contains(param_id) ==> r == Ok::<ParameterKind, WebGLError>(ParameterKind::Float),
            text_parameters().contains(param_id) ==> r == Ok::<ParameterKind, WebGLError>(
                ParameterKind::Text(parameter_text(param_id))),
            !recognized_parameters().contains(param_id) ==> r == Err::<ParameterKind, WebGLError>(WebGLError::InvalidEnum),
    {
        match param_id {
            gl::ACTIVE_TEXTURE | gl::ALPHA_BITS | gl::BLEND_DST_ALPHA | gl::BLEND_DST_RGB
            | gl::BLEND_EQUATION_ALPHA | gl::BLEND_EQUATION_RGB | gl::BLEND_SRC_ALPHA
            | gl::BLEND_SRC_RGB | gl::BLUE_BITS | gl::CULL_FACE_MODE | gl::DEPTH_BITS
            | gl::DEPTH_FUNC | gl::FRONT_FACE | gl::GREEN_BITS
            | gl::MAX_COMBINED_TEXTURE_IMAGE_UNITS | gl::MAX_CUBE_MAP_TEXTURE_SIZE
            | gl::MAX_RENDERBUFFER_SIZE | gl::MAX_TEXTURE_IMAGE_UNITS | gl::MAX_TEXTURE_SIZE
            | gl::MAX_VERTEX_ATTRIBS | gl::MAX_VERTEX_TEXTURE_IMAGE_UNITS | gl::PACK_ALIGNMENT
            | gl::RED_BITS | gl::SAMPLE_BUFFERS | gl::SAMPLES | gl::STENCIL_BACK_FAIL
            | gl::STENCIL_BACK_FUNC | gl::STENCIL_BACK_PASS_DEPTH_FAIL
            | gl::STENCIL_BACK_PASS_DEPTH_PASS | gl::STENCIL_BACK_REF
            | gl::STENCIL_BACK_VALUE_MASK | gl::STENCIL_BACK_WRITEMASK | gl::STENCIL_BITS
            | gl::STENCIL_CLEAR_VALUE | gl::STENCIL_FAIL | gl::STENCIL_FUNC
            | gl::STENCIL_PASS_DEPTH_FAIL | gl::STENCIL_PASS_DEPTH_PASS | gl::STENCIL_REF
            | gl::STENCIL_VALUE_MASK | gl::STENCIL_WRITEMASK | gl::SUBPIXEL_BITS
            | gl::UNPACK_ALIGNMENT => Ok(ParameterKind::Int),
            gl::BLEND | gl::CULL_FACE | gl::DEPTH_TEST | gl::DEPTH_WRITEMASK | gl::DITHER
            | gl::POLYGON_OFFSET_FILL | gl::SAMPLE_COVERAGE_INVERT
            | gl::STENCIL_TEST => Ok(ParameterKind::Bool),
            gl::DEPTH_CLEAR_VALUE | gl::LINE_WIDTH | gl::POLYGON_OFFSET_FACTOR
            | gl::POLYGON_OFFSET_UNITS | gl::SAMPLE_COVERAGE_VALUE => Ok(ParameterKind::Float),
            gl::VERSION => Ok(ParameterKind::Text(VERSION_STRING)),
            gl::RENDERER | gl::VENDOR => Ok(ParameterKind::Text(RENDERER_STRING)),
            gl::SHADING_LANGUAGE_VERSION => Ok(ParameterKind::Text(SHADING_LANGUAGE_VERSION_STRING)),
            _ => Err(WebGLError::InvalidEnum),
        }
    }

    /// The table of `GetVertexAttrib`. `max_vertex_attribs` is what the driver
    /// reports for `MAX_VERTEX_ATTRIBS`; an index at or past it (compared as
    /// unsigned) is `InvalidValue`, checked before the name.
    pub fn vertex_attrib(index: u32, max_vertex_attribs: i32, pname: u32) -> (r: WebGLResult<ParameterKind>)
        ensures
            r == (if index >= max_vertex_attribs as u32 {
                Err::<ParameterKind, WebGLError>(WebGLError::InvalidValue)
            } else if pname == gl::VERTEX_ATTRIB_ARRAY_ENABLED || pname == gl::VERTEX_ATTRIB_ARRAY_NORMALIZED {
                Ok(ParameterKind::Bool)
            } else if pname == gl::VERTEX_ATTRIB_ARRAY_SIZE || pname == gl::VERTEX_ATTRIB_ARRAY_STRIDE
                || pname == gl::VERTEX_ATTRIB_ARRAY_TYPE {
                Ok(ParameterKind::Int)
            } else if pname == gl::CURRENT_VERTEX_ATTRIB {
                Ok(ParameterKind::FloatArray)
            } else {
                Err(WebGLError::InvalidEnum)
            }),
    {
        if index >= max_vertex_attribs as u32 {
            return Err(WebGLError::InvalidValue);
        }
        match pname {
            gl::VERTEX_ATTRIB_ARRAY_ENABLED | gl::VERTEX_ATTRIB_ARRAY_NORMALIZED => Ok(ParameterKind::Bool),
            gl::VERTEX_ATTRIB_ARRAY_SIZE | gl::VERTEX_ATTRIB_ARRAY_STRIDE
            | gl::VERTEX_ATTRIB_ARRAY_TYPE => Ok(ParameterKind::Int),
            gl::CURRENT_VERTEX_ATTRIB => Ok(ParameterKind::FloatArray),
            _ => Err(WebGLError::InvalidEnum),
        }
    }

    /// The table of `GetVertexAttribOffset`: only the pointer is readable.
    pub fn vertex_attrib_offset(pname: u32) -> (r: WebGLResult<()>)
        ensures
            r == (if pname == gl::VERTEX_ATTRIB_ARRAY_POINTER {
                Ok::<(), WebGLError>(())
            } else {
                Err(WebGLError::InvalidEnum)
            }),
    {
        if pname == gl::VERTEX_ATTRIB_ARRAY_POINTER {
            Ok(())
        } else {
            Err(WebGLError::InvalidEnum)
        }
    }

    /// The table of `GetBufferParameter`: size and usage, both integers.
    pub fn buffer_parameter(param_id: u32) -> (r: WebGLResult<ParameterKind>)
        ensures
            r == (if param_id == gl::BUFFER_SIZE || param_id == gl::BUFFER_USAGE {
                Ok::<ParameterKind, WebGLError>(ParameterKind::Int)
            } else {
                Err(WebGLError::InvalidEnum)
            }),
    {
        match param_id {
            gl::BUFFER_SIZE | gl::BUFFER_USAGE => Ok(ParameterKind::Int),
            _ => Err(WebGLError::InvalidEnum),
        }
    }

    /// The table of `GetProgramParameter`: three status flags and three counts.
    pub fn program_parameter(param_id: u32) -> (r: WebGLResult<ParameterKind>)
        ensures
            r == (if param_id == gl::DELETE_STATUS || param_id == gl::LINK_STATUS
                || param_id == gl::VALIDATE_STATUS {
                Ok::<ParameterKind, WebGLError>(ParameterKind::Bool)
            } else if param_id == gl::ATTACHED_SHADERS || param_id == gl::ACTIVE_ATTRIBUTES
                || param_id == gl::ACTIVE_UNIFORMS {
                Ok(ParameterKind::Int)
            } else {
                Err(WebGLError::InvalidEnum)
            }),
    {
        match param_id {
            gl::DELETE_STATUS | gl::LINK_STATUS | gl::VALIDATE_STATUS => Ok(ParameterKind::Bool),
            gl::ATTACHED_SHADERS | gl::ACTIVE_ATTRIBUTES | gl::ACTIVE_UNIFORMS => Ok(ParameterKind::Int),
            _ => Err(WebGLError::InvalidEnum),
        }
    }

    /// The table of `GetShaderParameter`: the type, and two status flags.
    pub fn shader_parameter(param_id: u32) -> (r: WebGLResult<ParameterKind>)
        ensures
            r == (if param_id == gl::SHADER_TYPE {
                Ok::<ParameterKind, WebGLError>(ParameterKind::Int)
            } else if param_id == gl::DELETE_STATUS || param_id == gl::COMPILE_STATUS {
                Ok(ParameterKind::Bool)
            } else {
                Err(WebGLError::InvalidEnum)
            }),
    {
        match param_id {
            gl::SHADER_TYPE => Ok(ParameterKind::Int),
            gl::DELETE_STATUS | gl::COMPILE_STATUS => Ok(ParameterKind::Bool),
            _ => Err(WebGLError::InvalidEnum),
        }
    }

    /// The table of `GetShaderPrecisionFormat`: the six precision types.
    pub fn shader_precision_format(precision_type: u32) -> (r: WebGLResult<()>)
        ensures
            r == (if precision_type == gl::LOW_FLOAT || precision_type == gl::MEDIUM_FLOAT
                || precision_type == gl::HIGH_FLOAT || precision_type == gl::LOW_INT
                || precision_type == gl::MEDIUM_INT || precision_type == gl::HIGH_INT {
                Ok::<(), WebGLError>(())
            } else {
                Err(WebGLError::InvalidEnum)
            }),
    {
        match precision_type {
            gl::LOW_FLOAT | gl::MEDIUM_FLOAT | gl::HIGH_FLOAT | gl::LOW_INT | gl::MEDIUM_INT
            | gl::HIGH_INT => Ok(()),
            _ => Err(WebGLError::InvalidEnum),
        }
    }

    /// Checks the index of `GetActiveAttrib` against the program's
    /// `ACTIVE_ATTRIBUTES` count (compared as unsigned).
    pub fn active_attrib(index: u32, active_attributes: i32) -> (r: WebGLResult<()>)
        ensures
            r == (if index >= active_attributes as u32 {
                Err::<(), WebGLError>(WebGLError::InvalidValue)
            } else {
                Ok(())
            }),
    {
        if index >= active_attributes as u32 {
            Err(WebGLError::InvalidValue)
        } else {
            Ok(())
        }
    }

    /// Checks the index of `GetActiveUniform` against the program's
    /// `ACTIVE_UNIFORMS` count (compared as unsigned).
    pub fn active_uniform(index: u32, active_uniforms: i32) -> (r: WebGLResult<()>)
        ensures
            r == (if index >= active_uniforms as u32 {
                Err::<(), WebGLError>(WebGLError::InvalidValue)
            } else {
                Ok(())
            }),
    {
        Self::active_attrib(index, active_uniforms)
    }

    /// An attribute location as the caller sees it: the driver's -1 means
    /// that there is none.
    pub fn attrib_location(location: i32) -> (r: Option<i32>)
        ensures
            r == (if location == -1 { None } else { Some(location) }),
    {
        if location == -1 {
            None
        } else {
            Some(location)
        }
    }

    /// A uniform location as the caller sees it: the driver's -1 means that
    /// there is none.
    pub fn uniform_location(location: i32) -> (r: Option<i32>)
        ensures
            r == (if location == -1 { None } else { Some(location) }),
    {
        Self::attrib_location(location)
    }

    /// A newly generated object name as the caller sees it: the driver's 0
    /// means that no object was created.
    pub fn created_object(name: u32) -> (r: Option<u32>)
        ensures
            r == (if name == 0 { None } else { Some(name) }),
    {
        if name == 0 {
            None
        } else {
            Some(name)
        }
    }

    /// The object name handed to a bind or attach call: no object is 0.
    pub fn object_or_zero(object: Option<u32>) -> (r: u32)
        ensures
            r == (match object {
                Some(name) => name,
                None => 0,
            }),
    {
        match object {
            Some(name) => name,
            None => 0,
        }
    }
}

} // verus!
