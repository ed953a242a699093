//! The entry points that a guest may call.
//!
//! Each takes integers only: addresses in guest memory, handles, counts.
//! What an address refers to is read out of guest memory with bounds checks
//! before anything else happens. A call that cannot be carried out changes
//! nothing; where it returns a handle it returns 0, which is never a handle.
//! Shader bytes are the one thing that the host works on before the call: it
//! parses and validates them, because parser and validator may panic on what
//! a guest wrote, and only the host can contain that.
//! The rendering context is not looked at: a session has one.

#![allow(non_snake_case)]

use vstd::prelude::*;
use crate::command::{GpuCommand, GpuCommandView};
use crate::error::MarshalError;
use crate::gpu::{
    commit_frame, create_buffer, create_pipeline, draw, end_pass, pass_ensure, shader_create,
    shader_refusal, uniforms_apply,
};
use crate::marshal::{
    attributes_read, bytes_written, in_bounds, read_attributes, read_span, read_string, span_read,
    write_bytes,
    string_read, BufferSlice, ExternPipelineInfo, Span, BUFFER_SLICE_SIZE, PIPELINE_INFO_SIZE,
    SPAN_SIZE, WINDOW_STATE_SIZE,
};
use crate::shader::{le_words, shader_of, ValidatedModule};
use crate::system::{
    buffer_kind_of, PipelineInfo, PipelineInfoView, PipelineShaderInfo, PipelineShaderInfoView,
    System, NO_HANDLE,
};

verus! {

/// The handle of the one window.
pub const WINDOW: u32 = 1;

/// The handle of the one rendering context.
pub const RENDERING_CONTEXT: u32 = 1;

/// The bytes that a span record at `address` names.
pub open spec fn span_bytes_at(memory: Seq<u8>, address: u32) -> Result<Seq<u8>, MarshalError> {
    if in_bounds(memory.len(), address as int, SPAN_SIZE as int) {
        span_read(memory, Span::decode(memory, address as int), 1)
    } else {
        Err(MarshalError::OutOfBounds)
    }
}

/// The text that a span record at `address` names.
pub open spec fn text_at(memory: Seq<u8>, address: u32) -> Result<Seq<char>, MarshalError> {
    if in_bounds(memory.len(), address as int, SPAN_SIZE as int) {
        string_read(memory, Span::decode(memory, address as int))
    } else {
        Err(MarshalError::OutOfBounds)
    }
}

/// The contents and the item size that a buffer slice record at `address`
/// names.
pub open spec fn buffer_slice_at(memory: Seq<u8>, address: u32) -> Result<
    (Seq<u8>, usize),
    MarshalError,
> {
    if in_bounds(memory.len(), address as int, BUFFER_SLICE_SIZE as int) {
        let slice = BufferSlice::decode(memory, address as int);
        match span_read(memory, slice.span(), 1) {
            Ok(contents) => Ok((contents, slice.item_size as usize)),
            Err(e) => Err(e),
        }
    } else {
        Err(MarshalError::OutOfBounds)
    }
}

/// The pipeline request that a record at `address` names.
pub open spec fn pipeline_info_at(memory: Seq<u8>, address: u32) -> Result<
    PipelineInfoView,
    MarshalError,
> {
    if in_bounds(memory.len(), address as int, PIPELINE_INFO_SIZE as int) {
        let info = ExternPipelineInfo::decode(memory, address as int);
        match attributes_read(memory, info.attributes) {
            Err(e) => Err(e),
            Ok(attributes) => match string_read(memory, info.fragment.entry_point) {
                Err(e) => Err(e),
                Ok(fragment_entry) => match string_read(memory, info.vertex.entry_point) {
                    Err(e) => Err(e),
                    Ok(vertex_entry) => Ok(
                        PipelineInfoView {
                            attributes,
                            fragment: PipelineShaderInfoView {
                                entry_point: fragment_entry,
                                shader: info.fragment.shader,
                            },
                            vertex: PipelineShaderInfoView {
                                entry_point: vertex_entry,
                                shader: info.vertex.shader,
                            },
                        },
                    ),
                },
            },
        }
    } else {
        Err(MarshalError::OutOfBounds)
    }
}

/// Reads the span record at `address` and copies the bytes that it names.
pub fn read_span_at(memory: &[u8], address: u32) -> (result: Result<Vec<u8>, MarshalError>)
    ensures
        match result {
            Ok(bytes) => span_bytes_at(memory@, address) == Ok::<Seq<u8>, MarshalError>(bytes@),
            Err(e) => span_bytes_at(memory@, address) == Err::<Seq<u8>, MarshalError>(e),
        },
{
    match Span::read(memory, address) {
        Ok(span) => read_span(memory, span, 1),
        Err(e) => Err(e),
    }
}

/// Reads the span record at `address` and the text that it names.
pub fn read_text_at(memory: &[u8], address: u32) -> (result: Result<String, MarshalError>)
    ensures
        match result {
            Ok(text) => text_at(memory@, address) == Ok::<Seq<char>, MarshalError>(text@),
            Err(e) => text_at(memory@, address) == Err::<Seq<char>, MarshalError>(e),
        },
{
    match Span::read(memory, address) {
        Ok(span) => read_string(memory, span),
        Err(e) => Err(e),
    }
}

/// Reads the pipeline request at `address` with everything that it names.
pub fn read_pipeline_info_at(memory: &[u8], address: u32) -> (result: Result<
    PipelineInfo,
    MarshalError,
>)
    ensures
        match result {
            Ok(info) => pipeline_info_at(memory@, address) == Ok::<PipelineInfoView, MarshalError>(
                info@,
            ),
            Err(e) => pipeline_info_at(memory@, address) == Err::<PipelineInfoView, MarshalError>(
                e,
            ),
        },
{
    let info = match ExternPipelineInfo::read(memory, address) {
        Ok(info) => info,
        Err(e) => {
            return Err(e);
        },
    };
    let attributes = match read_attributes(memory, info.attributes) {
        Ok(attributes) => attributes,
        Err(e) => {
            return Err(e);
        },
    };
    let fragment_entry = match read_string(memory, info.fragment.entry_point) {
        Ok(text) => text,
        Err(e) => {
            return Err(e);
        },
    };
    let vertex_entry = match read_string(memory, info.vertex.entry_point) {
        Ok(text) => text,
        Err(e) => {
            return Err(e);
        },
    };
    Ok(
        PipelineInfo {
            attributes,
            fragment: PipelineShaderInfo {
                entry_point: fragment_entry,
                shader: info.fragment.shader,
            },
            vertex: PipelineShaderInfo { entry_point: vertex_entry, shader: info.vertex.shader },
        },
    )
}

/// The version of the interface that this runtime offers.
pub const CRATE_VERSION: i32 = 0;

/// The version of the interface that this runtime offers.
pub fn taca_crate_version() -> (version: i32)
    ensures
        version == CRATE_VERSION,
{
    CRATE_VERSION
}

/// The window. There is one.
pub fn taca_Window_get(system: &System) -> (window: u32)
    ensures
        window == WINDOW,
{
    WINDOW
}

/// The rendering context of the window. There is one.
pub fn taca_Window_newRenderingContext(system: &System, window: u32) -> (context: u32)
    ensures
        context == RENDERING_CONTEXT,
{
    RENDERING_CONTEXT
}

/// Creates a buffer from the slice record at `slice` and gives its handle.
/// `typ` is 0 for a vertex buffer and 1 for an index buffer. Gives 0, and
/// changes nothing, where the record or its bytes are out of bounds, where
/// `typ` is neither, or where the table is full.
pub fn taca_RenderingContext_newBuffer(
    system: &mut System,
    memory: &[u8],
    context: u32,
    typ: u32,
    usage: u32,
    slice: u32,
) -> (handle: u32)
    ensures
        match buffer_slice_at(memory@, slice) {
            Ok((contents, item_size)) => if buffer_kind_of(typ) is Some && old(
                system,
            )@.buffers.len() < u32::MAX {
                &&& handle == old(system)@.buffers.len() + 1
                &&& final(system)@ == old(system)@.create_buffer(
                    contents,
                    buffer_kind_of(typ).unwrap(),
                    item_size,
                )
            } else {
                handle == NO_HANDLE && final(system)@ == old(system)@
            },
            Err(_) => handle == NO_HANDLE && final(system)@ == old(system)@,
        },
{
    let record = match BufferSlice::read(memory, slice) {
        Ok(record) => record,
        Err(_) => {
            return NO_HANDLE;
        },
    };
    let contents = match read_span(memory, Span { ptr: record.ptr, len: record.size }, 1) {
        Ok(contents) => contents,
        Err(_) => {
            return NO_HANDLE;
        },
    };
    create_buffer(system, contents.as_slice(), typ, usage, record.item_size as usize)
}

/// Creates a shader from the bytes that the span record at `bytes` names and
/// gives its handle. `validated` is what the host made of those bytes: the
/// module, parsed and validated, or nothing where either failed or the bytes
/// could not be read. Gives 0, and changes nothing, where the record or its
/// bytes are out of bounds, where the bytes are no valid shader, or where the
/// table is full.
pub fn taca_RenderingContext_newShader(
    system: &mut System,
    memory: &[u8],
    context: u32,
    bytes: u32,
    validated: Option<ValidatedModule>,
) -> (handle: u32)
    ensures
        match span_bytes_at(memory@, bytes) {
            Ok(source) => if shader_refusal(old(system)@, source, validated) is None {
                &&& handle == old(system)@.shaders.len() + 1
                &&& final(system)@ == old(system)@.create_shader(
                    shader_of(validated.unwrap()),
                    le_words(source),
                )
            } else {
                handle == NO_HANDLE && final(system)@ == old(system)@
            },
            Err(_) => handle == NO_HANDLE && final(system)@ == old(system)@,
        },
{
    let source = match read_span_at(memory, bytes) {
        Ok(source) => source,
        Err(_) => {
            return NO_HANDLE;
        },
    };
    match shader_create(system, source.as_slice(), validated) {
        Ok(handle) => handle,
        Err(_) => NO_HANDLE,
    }
}

/// Keeps the pipeline request at `info` and gives its handle. Gives 0, and
/// changes nothing, where the record or anything that it names is out of
/// bounds, where an entry point name is not UTF-8, or where the table is full.
pub fn taca_RenderingContext_newPipeline(
    system: &mut System,
    memory: &[u8],
    context: u32,
    info: u32,
) -> (handle: u32)
    ensures
        match pipeline_info_at(memory@, info) {
            Ok(request) => if old(system)@.pipelines.len() < u32::MAX {
                &&& handle == old(system)@.pipelines.len() + 1
                &&& final(system)@ == old(system)@.create_pipeline(request)
            } else {
                handle == NO_HANDLE && final(system)@ == old(system)@
            },
            Err(_) => handle == NO_HANDLE && final(system)@ == old(system)@,
        },
{
    let request = match read_pipeline_info_at(memory, info) {
        Ok(request) => request,
        Err(_) => {
            return NO_HANDLE;
        },
    };
    create_pipeline(system, request)
}

/// Accepted and not acted on: buffers are bound by kind when a draw asks for
/// them, not by the handles that a guest names.
pub fn taca_RenderingContext_applyBindings(system: &mut System, context: u32, bindings: u32)
    ensures
        final(system)@ == old(system)@,
{
}

/// Accepted and not acted on: the one pipeline of the session is bound when
/// a draw asks for it, whatever handle a guest names.
pub fn taca_RenderingContext_applyPipeline(system: &mut System, context: u32, pipeline: u32)
    ensures
        final(system)@ == old(system)@,
{
}

/// Applies the uniform bytes that the span record at `bytes` names. Changes
/// nothing where the record or its bytes are out of bounds.
pub fn taca_RenderingContext_applyUniforms(
    system: &mut System,
    memory: &[u8],
    context: u32,
    bytes: u32,
)
    ensures
        final(system)@ == (match span_bytes_at(memory@, bytes) {
            Ok(uniforms) => old(system)@.uniforms_apply(uniforms),
            Err(_) => old(system)@,
        }),
{
    match read_span_at(memory, bytes) {
        Ok(uniforms) => {
            uniforms_apply(system, uniforms.as_slice());
        },
        Err(_) => {},
    }
}

/// Makes sure that there is a frame with an open pass.
pub fn taca_RenderingContext_beginPass(system: &mut System, context: u32)
    ensures
        final(system)@ == old(system)@.pass_ensure(),
{
    pass_ensure(system);
}

/// Closes the open pass, if there is one.
pub fn taca_RenderingContext_endPass(system: &mut System, context: u32)
    ensures
        final(system)@ == old(system)@.end_pass(),
{
    end_pass(system);
}

/// Asks for a draw of `item_count` items from `item_begin` on, `instance_count`
/// times. A draw that cannot be made for want of a pipeline or of buffers is
/// left out, and the guest is not told.
pub fn taca_RenderingContext_draw(
    system: &mut System,
    context: u32,
    item_begin: u32,
    item_count: u32,
    instance_count: u32,
)
    ensures
        final(system)@ == old(system)@.draw(item_begin, item_count, instance_count),
{
    let _ = draw(system, item_begin, item_count, instance_count);
}

/// Commits the frame, if there is one.
pub fn taca_RenderingContext_commitFrame(system: &mut System, context: u32)
    ensures
        final(system)@ == old(system)@.commit_frame(),
{
    commit_frame(system);
}

/// Prints the text that the span record at `text` names. Nothing is printed
/// where the record or its bytes are out of bounds, or the bytes not UTF-8.
pub fn taca_Window_print(system: &mut System, memory: &[u8], text: u32)
    ensures
        final(system)@ == (match text_at(memory@, text) {
            Ok(line) => old(system)@.emit(GpuCommandView::Print { text: line }),
            Err(_) => old(system)@,
        }),
{
    match read_text_at(memory, text) {
        Ok(line) => {
            system.emit(GpuCommand::Print { text: line });
        },
        Err(_) => {},
    }
}

/// Gives the window the title that the span record at `text` names. The
/// title stays where the record or its bytes are out of bounds, or the bytes
/// not UTF-8.
pub fn taca_Window_setTitle(system: &mut System, memory: &[u8], text: u32)
    ensures
        final(system)@ == (match text_at(memory@, text) {
            Ok(title) => old(system)@.emit(GpuCommandView::SetTitle { title }),
            Err(_) => old(system)@,
        }),
{
    match read_text_at(memory, text) {
        Ok(title) => {
            system.emit(GpuCommand::SetTitle { title });
        },
        Err(_) => {},
    }
}

/// The bytes that a query of the window state writes at `result` into a guest
/// memory of `memory_size` bytes: the record of the state last seen, or
/// nothing where it does not fit.
pub fn window_state_record(system: &System, memory_size: u64, result: u32) -> (record: Option<
    Vec<u8>,
>)
    ensures
        match record {
            Some(bytes) => in_bounds(memory_size as nat, result as int, WINDOW_STATE_SIZE as int)
                && bytes@ == system@.window.encode(),
            None => !in_bounds(memory_size as nat, result as int, WINDOW_STATE_SIZE as int),
        },
{
    if result as u64 + WINDOW_STATE_SIZE as u64 <= memory_size {
        Some(system.window.to_bytes())
    } else {
        None
    }
}

/// Writes the window state last seen into guest memory at `result`. Where it
/// does not fit, the memory is left as it was. The session is not changed.
pub fn taca_Window_state(system: &System, memory: &mut Vec<u8>, result: u32)
    ensures
        final(memory)@ == (match bytes_written(old(memory)@, result, system@.window.encode()) {
            Ok(written) => written,
            Err(_) => old(memory)@,
        }),
{
    match window_state_record(system, memory.len() as u64, result) {
        Some(record) => {
            let _ = write_bytes(memory, result, &record);
        },
        None => {},
    }
}

} // verus!
