//! The state of one guest session: the tables of its resources, the frame in
//! flight, the last window state seen, and the requests not yet handed to the
//! host.
//!
//! Every table only grows. A handle is the position of an entry counted from
//! one, so a handle that was given out once names the same entry for the rest
//! of the session.

use vstd::prelude::*;
use crate::command::{command_views, BufferKind, GpuCommand, GpuCommandView, PassCommand};
use crate::error::{DeviceError, ResourceError};
use crate::marshal::{VertexAttribute, WindowState};
use crate::reflect::{Layout, VertexAttributesInfo};
use crate::shader::{Shader, ShaderView};

verus! {

/// A buffer on the device: how many bytes one item takes, what it is used
/// for, and how many bytes it holds.
#[derive(Clone, Copy, Debug, PartialEq, Eq, Structural)]
pub struct Buffer {
    pub item_size: usize,
    pub usage: BufferKind,
    pub size: usize,
}

/// One shader stage of a pipeline request.
#[derive(Clone, Debug, PartialEq, Eq)]
pub struct PipelineShaderInfo {
    pub entry_point: String,
    pub shader: u32,
}

/// A pipeline request.
#[derive(Clone, Debug, PartialEq, Eq)]
pub struct PipelineInfo {
    pub attributes: Vec<VertexAttribute>,
    pub fragment: PipelineShaderInfo,
    pub vertex: PipelineShaderInfo,
}

/// The render pipeline of the session: the position of the shader it was made
/// from and the vertex layout derived from that shader.
#[derive(Clone, Debug, PartialEq, Eq)]
pub struct Pipeline {
    pub shader: usize,
    pub layout: VertexAttributesInfo,
}

/// The frame in flight.
#[derive(Clone, Debug, PartialEq, Eq)]
pub struct RenderFrame {
    /// Whether a pass is open.
    pub pass_open: bool,
    /// Whether the pipeline is bound to the open pass.
    pub pipelined: bool,
    /// Whether an index and a vertex buffer are bound to the open pass.
    pub buffered: bool,
    /// The commands that wait for the open pass to be closed.
    pub commands: Vec<PassCommand>,
}

/// The state of one guest session.
pub struct System {
    pub buffers: Vec<Buffer>,
    pub shaders: Vec<Shader>,
    pub pipelines: Vec<PipelineInfo>,
    pub pipeline: Option<Pipeline>,
    pub frame: Option<RenderFrame>,
    pub uniforms: Vec<u8>,
    pub window: WindowState,
    pub device_error: Option<DeviceError>,
    pub commands: Vec<GpuCommand>,
}

/// One shader stage of a pipeline request as a mathematical value.
pub struct PipelineShaderInfoView {
    pub entry_point: Seq<char>,
    pub shader: u32,
}

/// A pipeline request as a mathematical value.
pub struct PipelineInfoView {
    pub attributes: Seq<VertexAttribute>,
    pub fragment: PipelineShaderInfoView,
    pub vertex: PipelineShaderInfoView,
}

/// The render pipeline as a mathematical value.
pub struct PipelineView {
    pub shader: usize,
    pub layout: Layout,
}

/// The frame in flight as a mathematical value.
pub struct FrameView {
    pub pass_open: bool,
    pub pipelined: bool,
    pub buffered: bool,
    pub commands: Seq<PassCommand>,
}

/// The state of a session as a mathematical value.
pub struct SystemView {
    pub buffers: Seq<Buffer>,
    pub shaders: Seq<ShaderView>,
    pub pipelines: Seq<PipelineInfoView>,
    pub pipeline: Option<PipelineView>,
    pub frame: Option<FrameView>,
    pub uniforms: Seq<u8>,
    pub window: WindowState,
    pub device_error: Option<DeviceError>,
    pub commands: Seq<GpuCommandView>,
}

impl View for PipelineShaderInfo {
    type V = PipelineShaderInfoView;

    open spec fn view(&self) -> PipelineShaderInfoView {
        PipelineShaderInfoView { entry_point: self.entry_point@, shader: self.shader }
    }
}

impl View for PipelineInfo {
    type V = PipelineInfoView;

    open spec fn view(&self) -> PipelineInfoView {
        PipelineInfoView {
            attributes: self.attributes@,
            fragment: self.fragment@,
            vertex: self.vertex@,
        }
    }
}

impl View for Pipeline {
    type V = PipelineView;

    open spec fn view(&self) -> PipelineView {
        PipelineView { shader: self.shader, layout: self.layout@ }
    }
}

impl View for RenderFrame {
    type V = FrameView;

    open spec fn view(&self) -> FrameView {
        FrameView {
            pass_open: self.pass_open,
            pipelined: self.pipelined,
            buffered: self.buffered,
            commands: self.commands@,
        }
    }
}

/// The shaders of a table, each as a mathematical value.
pub open spec fn shader_views(shaders: Seq<Shader>) -> Seq<ShaderView> {
    Seq::new(shaders.len(), |i: int| shaders[i]@)
}

/// The pipeline requests of a table, each as a mathematical value.
pub open spec fn pipeline_info_views(pipelines: Seq<PipelineInfo>) -> Seq<PipelineInfoView> {
    Seq::new(pipelines.len(), |i: int| pipelines[i]@)
}

impl View for System {
    type V = SystemView;

    open spec fn view(&self) -> SystemView {
        SystemView {
            buffers: self.buffers@,
            shaders: shader_views(self.shaders@),
            pipelines: pipeline_info_views(self.pipelines@),
            pipeline: match self.pipeline {
                Some(pipeline) => Some(pipeline@),
                None => None,
            },
            frame: match self.frame {
                Some(frame) => Some(frame@),
                None => None,
            },
            uniforms: self.uniforms@,
            window: self.window,
            device_error: self.device_error,
            commands: command_views(self.commands@),
        }
    }
}

/// What a call gives in place of a handle when it has made nothing. Handles
/// count from one, so it is never a handle.
pub const NO_HANDLE: u32 = 0;

/// The kind of buffer that a guest's number stands for: 0 for vertices, 1 for
/// indices.
pub open spec fn buffer_kind_of(typ: u32) -> Option<BufferKind> {
    if typ == 0 {
        Some(BufferKind::Vertex)
    } else if typ == 1 {
        Some(BufferKind::Index)
    } else {
        None
    }
}

/// Whether `handle` names an entry of a table with `count` entries.
pub open spec fn handle_valid(handle: u32, count: nat) -> bool {
    1 <= handle <= count
}

/// The position of the first buffer of a kind, if there is one.
pub open spec fn first_of_kind(buffers: Seq<Buffer>, kind: BufferKind) -> Option<int> {
    if exists|i: int| 0 <= i < buffers.len() && buffers[i].usage == kind {
        Some(choose|i: int| is_first_of_kind(buffers, kind, i))
    } else {
        None
    }
}

/// Whether `i` is the position of the first buffer of a kind.
pub open spec fn is_first_of_kind(buffers: Seq<Buffer>, kind: BufferKind, i: int) -> bool {
    &&& 0 <= i < buffers.len()
    &&& buffers[i].usage == kind
    &&& forall|k: int| 0 <= k < i ==> buffers[k].usage != kind
}

impl FrameView {
    /// A frame right after its texture was acquired: no pass yet.
    pub open spec fn acquired() -> FrameView {
        FrameView { pass_open: false, pipelined: false, buffered: false, commands: Seq::empty() }
    }
}

impl SystemView {
    /// The state of a session that has just begun.
    pub open spec fn initial() -> SystemView {
        SystemView {
            buffers: Seq::empty(),
            shaders: Seq::empty(),
            pipelines: Seq::empty(),
            pipeline: None,
            frame: None,
            uniforms: Seq::empty(),
            window: WindowState { pointer_x: 0, pointer_y: 0, width: 0, height: 0 },
            device_error: None,
            commands: Seq::empty(),
        }
    }

    /// The state with one more request for the host.
    pub open spec fn emit(self, command: GpuCommandView) -> SystemView {
        SystemView { commands: self.commands.push(command), ..self }
    }

    /// The state with more requests for the host.
    pub open spec fn emit_all(self, commands: Seq<GpuCommandView>) -> SystemView {
        SystemView { commands: self.commands + commands, ..self }
    }

    /// The state after a buffer was created.
    pub open spec fn create_buffer(
        self,
        contents: Seq<u8>,
        kind: BufferKind,
        item_size: usize,
    ) -> SystemView {
        SystemView {
            buffers: self.buffers.push(
                Buffer { item_size, usage: kind, size: contents.len() as usize },
            ),
            ..self
        }.emit(GpuCommandView::CreateBuffer { contents, usage: kind })
    }

    /// The state after a shader was created.
    pub open spec fn create_shader(
        self,
        shader: ShaderView,
        words: Seq<u32>,
    ) -> SystemView {
        SystemView { shaders: self.shaders.push(shader), ..self }.emit(
            GpuCommandView::CreateShader { words },
        )
    }

    /// The state after a pipeline was asked for.
    pub open spec fn create_pipeline(self, info: PipelineInfoView) -> SystemView {
        SystemView { pipelines: self.pipelines.push(info), ..self }
    }

    /// The state after the pointer was seen at a new place.
    pub open spec fn pointer_moved(self, x: u32, y: u32) -> SystemView {
        SystemView { window: WindowState { pointer_x: x, pointer_y: y, ..self.window }, ..self }
    }

    /// The state after the window was seen with a new size.
    pub open spec fn window_resized(self, width: u32, height: u32) -> SystemView {
        SystemView { window: WindowState { width, height, ..self.window }, ..self }
    }

    /// Whether every table of `earlier` is the beginning of the same table
    /// here: nothing was taken out, changed or moved.
    pub open spec fn extends(self, earlier: SystemView) -> bool {
        &&& earlier.buffers.is_prefix_of(self.buffers)
        &&& earlier.shaders.is_prefix_of(self.shaders)
        &&& earlier.pipelines.is_prefix_of(self.pipelines)
    }

    /// The buffer that a handle names.
    pub open spec fn buffer(self, handle: u32) -> Result<Buffer, ResourceError> {
        if handle_valid(handle, self.buffers.len()) {
            Ok(self.buffers[handle - 1])
        } else {
            Err(ResourceError::InvalidHandle)
        }
    }

    /// The buffer of a given kind that a handle names.
    pub open spec fn buffer_of_kind(self, handle: u32, kind: BufferKind) -> Result<
        Buffer,
        ResourceError,
    > {
        if handle_valid(handle, self.buffers.len()) && self.buffers[handle - 1].usage == kind {
            Ok(self.buffers[handle - 1])
        } else {
            Err(ResourceError::InvalidHandle)
        }
    }

    /// The shader that a handle names.
    pub open spec fn shader(self, handle: u32) -> Result<ShaderView, ResourceError> {
        if handle_valid(handle, self.shaders.len()) {
            Ok(self.shaders[handle - 1])
        } else {
            Err(ResourceError::InvalidHandle)
        }
    }

    /// The pipeline request that a handle names.
    pub open spec fn pipeline_info(self, handle: u32) -> Result<PipelineInfoView, ResourceError> {
        if handle_valid(handle, self.pipelines.len()) {
            Ok(self.pipelines[handle - 1])
        } else {
            Err(ResourceError::InvalidHandle)
        }
    }
}

impl System {
    /// The state of a session that has just begun: empty tables, no frame,
    /// nothing to do for the host.
    pub fn new() -> (system: System)
        ensures
            system@ == SystemView::initial(),
    {
        let system = System {
            buffers: Vec::new(),
            shaders: Vec::new(),
            pipelines: Vec::new(),
            pipeline: None,
            frame: None,
            uniforms: Vec::new(),
            window: WindowState { pointer_x: 0, pointer_y: 0, width: 0, height: 0 },
            device_error: None,
            commands: Vec::new(),
        };
        assert(system@.shaders =~= Seq::empty());
        assert(system@.pipelines =~= Seq::empty());
        assert(system@.commands =~= Seq::empty());
        system
    }

    /// Writes down one more request for the host.
    pub fn emit(&mut self, command: GpuCommand)
        ensures
            final(self)@ == old(self)@.emit(command@),
    {
        self.commands.push(command);
        assert(self@.commands =~= old(self)@.commands.push(command@));
    }

    /// Hands over the requests written down so far, oldest first, and starts
    /// a new list.
    pub fn take_commands(&mut self) -> (commands: Vec<GpuCommand>)
        ensures
            command_views(commands@) == old(self)@.commands,
            final(self)@ == (SystemView { commands: Seq::empty(), ..old(self)@ }),
    {
        let mut commands: Vec<GpuCommand> = Vec::new();
        std::mem::swap(&mut self.commands, &mut commands);
        assert(self@.commands =~= Seq::empty());
        commands
    }

    /// Takes note of where the pointer is. The coordinates are the bits of
    /// 32-bit floats.
    pub fn mouse_motion_event(&mut self, x: u32, y: u32)
        ensures
            final(self)@ == old(self)@.pointer_moved(x, y),
    {
        self.window.pointer_x = x;
        self.window.pointer_y = y;
    }

    /// Takes note of how large the window is. The lengths are the bits of
    /// 32-bit floats.
    pub fn resize_event(&mut self, width: u32, height: u32)
        ensures
            final(self)@ == old(self)@.window_resized(width, height),
    {
        self.window.width = width;
        self.window.height = height;
    }

    /// The buffer that a handle names.
    pub fn buffer(&self, handle: u32) -> (result: Result<Buffer, ResourceError>)
        ensures
            result == self@.buffer(handle),
    {
        if handle >= 1 && handle as usize <= self.buffers.len() {
            Ok(self.buffers[handle as usize - 1])
        } else {
            Err(ResourceError::InvalidHandle)
        }
    }

    /// The buffer of a given kind that a handle names. A handle of a buffer
    /// of the other kind is refused like one that names nothing.
    pub fn buffer_of_kind(&self, handle: u32, kind: BufferKind) -> (result: Result<
        Buffer,
        ResourceError,
    >)
        ensures
            result == self@.buffer_of_kind(handle, kind),
    {
        match self.buffer(handle) {
            Ok(buffer) => if buffer.usage == kind {
                Ok(buffer)
            } else {
                Err(ResourceError::InvalidHandle)
            },
            Err(e) => Err(e),
        }
    }

    /// The shader that a handle names.
    pub fn shader(&self, handle: u32) -> (result: Result<&Shader, ResourceError>)
        ensures
            match result {
                Ok(shader) => self@.shader(handle) == Ok::<ShaderView, ResourceError>(shader@)
                    && *shader == self.shaders@[handle - 1],
                Err(e) => self@.shader(handle) == Err::<ShaderView, ResourceError>(e),
            },
    {
        if handle >= 1 && handle as usize <= self.shaders.len() {
            Ok(&self.shaders[handle as usize - 1])
        } else {
            Err(ResourceError::InvalidHandle)
        }
    }

    /// The pipeline request that a handle names.
    pub fn pipeline_info(&self, handle: u32) -> (result: Result<&PipelineInfo, ResourceError>)
        ensures
            match result {
                Ok(info) => self@.pipeline_info(handle) == Ok::<PipelineInfoView, ResourceError>(
                    info@,
                ) && *info == self.pipelines@[handle - 1],
                Err(e) => self@.pipeline_info(handle) == Err::<PipelineInfoView, ResourceError>(e),
            },
    {
        if handle >= 1 && handle as usize <= self.pipelines.len() {
            Ok(&self.pipelines[handle as usize - 1])
        } else {
            Err(ResourceError::InvalidHandle)
        }
    }
}

/// Among the buffers of a kind there is a first one.
proof fn lemma_kind_has_first(buffers: Seq<Buffer>, kind: BufferKind, n: int)
    requires
        0 <= n < buffers.len(),
        buffers[n].usage == kind,
    ensures
        exists|i: int| is_first_of_kind(buffers, kind, i),
    decreases n,
{
    if forall|k: int| 0 <= k < n ==> buffers[k].usage != kind {
        assert(is_first_of_kind(buffers, kind, n));
    } else {
        let k = choose|k: int| 0 <= k < n && buffers[k].usage == kind;
        lemma_kind_has_first(buffers, kind, k);
    }
}

/// Where a table holds a buffer of a kind, the first of that kind is one of
/// its entries, is of that kind, and has none of that kind before it.
pub proof fn lemma_first_of_kind(buffers: Seq<Buffer>, kind: BufferKind)
    ensures
        first_of_kind(buffers, kind) matches Some(i) ==> is_first_of_kind(buffers, kind, i),
        first_of_kind(buffers, kind) is None ==> forall|i: int|
            0 <= i < buffers.len() ==> buffers[i].usage != kind,
{
    if exists|i: int| 0 <= i < buffers.len() && buffers[i].usage == kind {
        let n = choose|i: int| 0 <= i < buffers.len() && buffers[i].usage == kind;
        lemma_kind_has_first(buffers, kind, n);
    }
}

/// A handle that was valid stays valid, and names what it named, however the
/// session goes on.
pub proof fn lemma_handles_are_stable(earlier: SystemView, later: SystemView, handle: u32)
    requires
        later.extends(earlier),
    ensures
        earlier.buffer(handle) is Ok ==> later.buffer(handle) == earlier.buffer(handle),
        earlier.shader(handle) is Ok ==> later.shader(handle) == earlier.shader(handle),
        earlier.pipeline_info(handle) is Ok ==> later.pipeline_info(handle)
            == earlier.pipeline_info(handle),
        forall|kind: BufferKind| #[trigger]
            earlier.buffer_of_kind(handle, kind) is Ok ==> later.buffer_of_kind(handle, kind)
                == earlier.buffer_of_kind(handle, kind),
{
}

/// Going on from a state that went on from another is going on from that
/// other.
pub proof fn lemma_extends_is_transitive(first: SystemView, second: SystemView, third: SystemView)
    requires
        second.extends(first),
        third.extends(second),
    ensures
        third.extends(first),
        first.extends(first),
{
}

/// Each creation gives the next handle of its table: it names the new entry,
/// named nothing before, and is greater than every handle given out before.
pub proof fn lemma_created_handles_increase(
    state: SystemView,
    contents: Seq<u8>,
    kind: BufferKind,
    item_size: usize,
    shader: ShaderView,
    words: Seq<u32>,
    info: PipelineInfoView,
    before: u32,
)
    requires
        state.buffers.len() < u32::MAX,
        state.shaders.len() < u32::MAX,
        state.pipelines.len() < u32::MAX,
    ensures
        ({
            let next = state.create_buffer(contents, kind, item_size);
            let handle = (state.buffers.len() + 1) as u32;
            &&& next.extends(state)
            &&& state.buffer(handle) is Err
            &&& next.buffer(handle) == Ok::<Buffer, ResourceError>(
                Buffer { item_size, usage: kind, size: contents.len() as usize },
            )
            &&& state.buffer(before) is Ok ==> before < handle
        }),
        ({
            let next = state.create_shader(shader, words);
            let handle = (state.shaders.len() + 1) as u32;
            &&& next.extends(state)
            &&& state.shader(handle) is Err
            &&& next.shader(handle) == Ok::<ShaderView, ResourceError>(shader)
            &&& state.shader(before) is Ok ==> before < handle
        }),
        ({
            let next = state.create_pipeline(info);
            let handle = (state.pipelines.len() + 1) as u32;
            &&& next.extends(state)
            &&& state.pipeline_info(handle) is Err
            &&& next.pipeline_info(handle) == Ok::<PipelineInfoView, ResourceError>(info)
            &&& state.pipeline_info(before) is Ok ==> before < handle
        }),
{
}

} // verus!
