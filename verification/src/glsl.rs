//! Shaders as GLSL text, for hosts that cannot take the binary form.
//!
//! The text is written by `naga`. Its writer may panic on modules that a
//! guest has made up, so it is run by the host, which can contain that. The
//! library says what to ask of the writer and what to make of its answer.

use vstd::prelude::*;
use crate::error::ResourceError;
use crate::reflect::ShaderStage;

verus! {

/// What is done about an index that may be out of bounds.
#[derive(Clone, Copy, Debug, PartialEq, Eq, Structural)]
pub enum BoundsPolicy {
    /// It is replaced by one that is in bounds.
    Restrict,
    /// A read gives zero and a write does nothing.
    ReadZeroSkipWrite,
    /// Nothing.
    Unchecked,
}

/// The vertex and the fragment stage of a shader as GLSL text.
#[derive(Clone, Debug, PartialEq, Eq)]
pub struct GlslShaders {
    pub vertex: String,
    pub fragment: String,
}

/// The version of GLSL that is written: GLSL ES 3.00.
pub const GLSL_VERSION: u16 = 300;

/// What is asked of the writer: one entry point of a module as GLSL ES of a
/// version, for WebGL or not, with one policy for every kind of access.
#[derive(Clone, Debug, PartialEq, Eq)]
pub struct GlslRequest {
    pub version: u16,
    pub is_webgl: bool,
    pub stage: ShaderStage,
    pub entry_point: String,
    pub policy: BoundsPolicy,
}

/// What is asked of the writer, as a mathematical value.
pub struct GlslRequestView {
    pub version: u16,
    pub is_webgl: bool,
    pub stage: ShaderStage,
    pub entry_point: Seq<char>,
    pub policy: BoundsPolicy,
}

impl View for GlslRequest {
    type V = GlslRequestView;

    open spec fn view(&self) -> GlslRequestView {
        GlslRequestView {
            version: self.version,
            is_webgl: self.is_webgl,
            stage: self.stage,
            entry_point: self.entry_point@,
            policy: self.policy,
        }
    }
}

/// What is asked of the writer for an entry point of a stage: GLSL ES 3.00
/// for WebGL. Nothing is asked for a compute entry point.
pub open spec fn request_for(
    stage: ShaderStage,
    entry_point: Seq<char>,
    policy: BoundsPolicy,
) -> Option<GlslRequestView> {
    if stage is Compute {
        None
    } else {
        Some(
            GlslRequestView { version: GLSL_VERSION, is_webgl: true, stage, entry_point, policy },
        )
    }
}

/// The name of the entry point that is written for a stage: `vs_main` for
/// vertices, `fs_main` for fragments. There is none for compute.
pub open spec fn stage_entry_point_name(stage: ShaderStage) -> Option<Seq<char>> {
    match stage {
        ShaderStage::Vertex => Some("vs_main"@),
        ShaderStage::Fragment => Some("fs_main"@),
        ShaderStage::Compute => None,
    }
}

/// What is asked of the writer for an entry point of a stage. Nothing is
/// asked for a compute entry point.
pub fn translate_request(stage: ShaderStage, entry_point: &str, policy: BoundsPolicy) -> (request:
    Option<GlslRequest>)
    ensures
        match request {
            Some(request) => request_for(stage, entry_point@, policy) == Some(request@),
            None => request_for(stage, entry_point@, policy) is None,
        },
{
    match stage {
        ShaderStage::Compute => None,
        _ => Some(
            GlslRequest {
                version: GLSL_VERSION,
                is_webgl: true,
                stage,
                entry_point: entry_point.to_owned(),
                policy,
            },
        ),
    }
}

/// The text of one entry point of a shader, given what the writer answered
/// to the request for it: its text, or nothing where it reported an error,
/// panicked or was not asked. What the writer wrote is the text. A shader
/// that it could not write is invalid, and so is every compute entry point,
/// whatever was written for it.
pub fn translate_to_glsl(shader_stage: ShaderStage, written: Option<String>) -> (result: Result<
    String,
    ResourceError,
>)
    ensures
        match result {
            Ok(text) => written == Some(text) && !(shader_stage is Compute),
            Err(e) => e == ResourceError::ShaderInvalid && (written is None
                || shader_stage is Compute),
        },
{
    match written {
        Some(text) => match shader_stage {
            ShaderStage::Compute => Err(ResourceError::ShaderInvalid),
            _ => Ok(text),
        },
        None => Err(ResourceError::ShaderInvalid),
    }
}

/// The entry point that is written for a stage: `vs_main` for vertices,
/// `fs_main` for fragments. There is none for compute.
pub fn stage_entry_point(stage: ShaderStage) -> (name: Option<&'static str>)
    ensures
        match name {
            Some(name) => stage_entry_point_name(stage) == Some(name@),
            None => stage_entry_point_name(stage) is None,
        },
{
    match stage {
        ShaderStage::Vertex => Some("vs_main"),
        ShaderStage::Fragment => Some("fs_main"),
        ShaderStage::Compute => None,
    }
}

/// What is asked of the writer for the entry point of a stage when both
/// stages of a shader are written: the entry point of that stage, with no
/// bounds checks added. Nothing is asked for compute.
pub fn stage_request(stage: ShaderStage) -> (request: Option<GlslRequest>)
    ensures
        match request {
            Some(request) => stage_entry_point_name(stage) matches Some(name) && request_for(
                stage,
                name,
                BoundsPolicy::Unchecked,
            ) == Some(request@),
            None => stage is Compute,
        },
{
    match stage_entry_point(stage) {
        Some(name) => translate_request(stage, name, BoundsPolicy::Unchecked),
        None => None,
    }
}

/// The vertex and the fragment stage of a shader as GLSL text, given what
/// the writer answered to the requests for the two stages. There are none
/// where the shader did not parse or validate, so that nothing could be
/// asked, or where a stage could not be written.
pub fn shaders(vertex: Option<String>, fragment: Option<String>) -> (result: Result<
    GlslShaders,
    ResourceError,
>)
    ensures
        match result {
            Ok(texts) => vertex == Some(texts.vertex) && fragment == Some(texts.fragment),
            Err(e) => e == ResourceError::ShaderInvalid && (vertex is None || fragment is None),
        },
{
    let vertex = match translate_to_glsl(ShaderStage::Vertex, vertex) {
        Ok(text) => text,
        Err(e) => {
            return Err(e);
        },
    };
    let fragment = match translate_to_glsl(ShaderStage::Fragment, fragment) {
        Ok(text) => text,
        Err(e) => {
            return Err(e);
        },
    };
    Ok(GlslShaders { vertex, fragment })
}

} // verus!
