//! Creating resources, and the life of a frame.
//!
//! A frame begins with the first call that needs a pass and ends when it is
//! committed or dropped. In between at most one pass is open at a time.
//! Draws wait in the open pass and are issued, in their order, when the pass
//! is closed; the pipeline and the buffers are bound as soon as they are
//! asked for, so they are always bound before the draws that need them.

use vstd::prelude::*;
use crate::command::{
    issued_all, BufferKind, GpuCommand, GpuCommandView, IndexFormat, PassCommand,
};
use crate::error::{DeviceError, ProtocolError, ResourceError};
use crate::shader::{
    le_words, shader_of, shader_words, vertex_attributes_build, vertex_layout, Shader,
    ValidatedModule,
};
use crate::system::{
    buffer_kind_of, first_of_kind, is_first_of_kind, Buffer, FrameView, Pipeline, PipelineInfo,
    PipelineView, RenderFrame, System, SystemView, NO_HANDLE,
};

verus! {

impl SystemView {
    /// The state once there is a frame with an open pass. Without a frame
    /// one is acquired; without an open pass one is opened, with nothing
    /// bound to it. An open pass is left as it is.
    pub open spec fn pass_ensure(self) -> SystemView {
        let acquired = if self.frame is None {
            SystemView { frame: Some(FrameView::acquired()), ..self }.emit(
                GpuCommandView::AcquireFrame,
            )
        } else {
            self
        };
        let frame = acquired.frame.unwrap();
        if frame.pass_open {
            acquired
        } else {
            SystemView {
                frame: Some(
                    FrameView {
                        pass_open: true,
                        pipelined: false,
                        buffered: false,
                        commands: frame.commands,
                    },
                ),
                ..acquired
            }.emit(GpuCommandView::BeginPass)
        }
    }

    /// The state once no pass is open. The commands that waited in an open
    /// pass are issued in their order, then the pass is closed.
    pub open spec fn end_pass(self) -> SystemView {
        match self.frame {
            Some(frame) => if frame.pass_open {
                SystemView {
                    frame: Some(
                        FrameView {
                            pass_open: false,
                            pipelined: false,
                            buffered: false,
                            commands: Seq::empty(),
                        },
                    ),
                    ..self
                }.emit_all(issued_all(frame.commands)).emit(GpuCommandView::EndPass)
            } else {
                self
            },
            None => self,
        }
    }

    /// The state once the pipeline of the session exists, if it can: it is
    /// made once, from the first shader and the layout of its vertex entry
    /// point. Without a shader, or where that shader has no layout, nothing
    /// happens.
    pub open spec fn pipeline_ensure(self) -> SystemView {
        if self.pipeline is Some || self.shaders.len() == 0 {
            self
        } else {
            match vertex_layout(self.shaders[0].entry_points, "vs_main"@) {
                Ok(layout) => SystemView {
                    pipeline: Some(PipelineView { shader: 0, layout }),
                    ..self
                }.emit(
                    GpuCommandView::CreatePipeline {
                        shader: 0,
                        vertex_entry: "vs_main"@,
                        fragment_entry: "fs_main"@,
                        layout,
                    },
                ),
                Err(_) => self,
            }
        }
    }

    /// The state once a pass is open and the pipeline, if there is one, is
    /// bound to it. It is bound once to a pass.
    pub open spec fn pipelined_ensure(self) -> SystemView {
        let ready = self.pipeline_ensure().pass_ensure();
        let frame = ready.frame.unwrap();
        if frame.pipelined || ready.pipeline is None {
            ready
        } else {
            SystemView { frame: Some(FrameView { pipelined: true, ..frame }), ..ready }.emit(
                GpuCommandView::SetPipeline,
            )
        }
    }

    /// The state once a pass is open and the first index buffer, read as
    /// 16-bit numbers, and the first vertex buffer are bound to it. Where
    /// either is missing nothing is bound.
    pub open spec fn buffered_ensure(self) -> SystemView {
        let ready = self.pass_ensure();
        let frame = ready.frame.unwrap();
        match (
            first_of_kind(ready.buffers, BufferKind::Index),
            first_of_kind(ready.buffers, BufferKind::Vertex),
        ) {
            (Some(index), Some(vertex)) => SystemView {
                frame: Some(FrameView { buffered: true, ..frame }),
                ..ready
            }.emit(
                GpuCommandView::SetIndexBuffer {
                    buffer: index as usize,
                    format: IndexFormat::Uint16,
                },
            ).emit(GpuCommandView::SetVertexBuffer { slot: 0, buffer: vertex as usize }),
            _ => ready,
        }
    }

    /// The state after a draw was asked for. Pipeline and buffers are bound
    /// first. The draw then waits in the pass; where the pipeline or the
    /// buffers are missing it is left out.
    pub open spec fn draw(self, item_begin: u32, item_count: u32, instance_count: u32) -> SystemView {
        let ready = self.pipelined_ensure().buffered_ensure();
        let frame = ready.frame.unwrap();
        if frame.pipelined && frame.buffered {
            SystemView {
                frame: Some(
                    FrameView {
                        commands: frame.commands.push(
                            PassCommand::Draw { item_begin, item_count, instance_count },
                        ),
                        ..frame
                    },
                ),
                ..ready
            }
        } else {
            ready
        }
    }

    /// What is wrong with a draw asked for in this state, if anything: the
    /// pipeline or the buffers that it needs cannot be bound.
    pub open spec fn draw_fault(self) -> Option<ProtocolError> {
        let ready = self.pipelined_ensure().buffered_ensure();
        let frame = ready.frame.unwrap();
        if !frame.pipelined {
            Some(ProtocolError::NoPipeline)
        } else if !frame.buffered {
            Some(ProtocolError::NoBuffers)
        } else {
            None
        }
    }

    /// The state after uniforms were applied: the pipeline is bound, the
    /// bytes are kept and sent.
    pub open spec fn uniforms_apply(self, bytes: Seq<u8>) -> SystemView {
        SystemView { uniforms: bytes, ..self.pipelined_ensure() }.emit(
            GpuCommandView::WriteUniforms { bytes },
        )
    }

    /// The state after the frame was committed: an open pass is closed, the
    /// work is submitted, the frame is presented, and there is no frame any
    /// more. Without a frame nothing happens.
    pub open spec fn commit_frame(self) -> SystemView {
        if self.frame is None {
            self
        } else {
            SystemView { frame: None, ..self.end_pass() }.emit(GpuCommandView::Submit).emit(
                GpuCommandView::Present,
            )
        }
    }

    /// The state after a frame that was not committed is dropped: an open
    /// pass is closed without its waiting commands, and the frame is let go.
    /// Without a frame nothing happens.
    pub open spec fn frame_drop(self) -> SystemView {
        match self.frame {
            None => self,
            Some(frame) => {
                let closed = if frame.pass_open {
                    self.emit(GpuCommandView::EndPass)
                } else {
                    self
                };
                SystemView { frame: None, ..closed }.emit(GpuCommandView::DiscardFrame)
            },
        }
    }

    /// The state after the device failed while the frame was set up: there
    /// is no frame any more, and the failure is kept.
    pub open spec fn frame_failed(self, error: DeviceError) -> SystemView {
        SystemView { frame: None, device_error: Some(error), ..self }
    }
}

/// Finds the first buffer of a kind.
pub fn buffer_find(buffers: &Vec<Buffer>, kind: BufferKind) -> (position: Option<usize>)
    ensures
        match position {
            Some(i) => first_of_kind(buffers@, kind) == Some(i as int) && is_first_of_kind(
                buffers@,
                kind,
                i as int,
            ),
            None => first_of_kind(buffers@, kind) is None,
        },
{
    let mut i: usize = 0;
    while i < buffers.len()
        invariant
            i <= buffers@.len(),
            forall|k: int| 0 <= k < i ==> buffers@[k].usage != kind,
        decreases buffers@.len() - i,
    {
        if buffers[i].usage == kind {
            proof {
                assert(is_first_of_kind(buffers@, kind, i as int));
                let chosen = choose|j: int| is_first_of_kind(buffers@, kind, j);
                assert(is_first_of_kind(buffers@, kind, chosen));
                assert(chosen == i);
            }
            return Some(i);
        }
        i = i + 1;
    }
    None
}

/// Creates a buffer with the given contents and gives its handle. `typ` is 0
/// for a vertex buffer and 1 for an index buffer; `usage` is not looked at.
/// Any other `typ` makes nothing, and neither does a full table: the result
/// is then `NO_HANDLE` and nothing has changed.
pub fn create_buffer(
    system: &mut System,
    contents: &[u8],
    typ: u32,
    usage: u32,
    item_size: usize,
) -> (handle: u32)
    ensures
        match buffer_kind_of(typ) {
            Some(kind) => if old(system)@.buffers.len() < u32::MAX {
                &&& handle == old(system)@.buffers.len() + 1
                &&& final(system)@ == old(system)@.create_buffer(contents@, kind, item_size)
            } else {
                handle == NO_HANDLE && final(system)@ == old(system)@
            },
            None => handle == NO_HANDLE && final(system)@ == old(system)@,
        },
{
    let kind = if typ == 0 {
        BufferKind::Vertex
    } else if typ == 1 {
        BufferKind::Index
    } else {
        return NO_HANDLE;
    };
    if system.buffers.len() >= u32::MAX as usize {
        return NO_HANDLE;
    }
    system.buffers.push(Buffer { item_size, usage: kind, size: contents.len() });
    system.emit(
        GpuCommand::CreateBuffer { contents: vstd::slice::slice_to_vec(contents), usage: kind },
    );
    system.buffers.len() as u32
}

/// Keeps a pipeline request and gives its handle. A full table takes no
/// request: the result is then `NO_HANDLE` and nothing has changed.
pub fn create_pipeline(system: &mut System, info: PipelineInfo) -> (handle: u32)
    ensures
        if old(system)@.pipelines.len() < u32::MAX {
            &&& handle == old(system)@.pipelines.len() + 1
            &&& final(system)@ == old(system)@.create_pipeline(info@)
        } else {
            handle == NO_HANDLE && final(system)@ == old(system)@
        },
{
    if system.pipelines.len() >= u32::MAX as usize {
        return NO_HANDLE;
    }
    system.pipelines.push(info);
    assert(system@.pipelines =~= old(system)@.pipelines.push(info@));
    system.pipelines.len() as u32
}

/// Why no shader is made of bytes and what a host made of them, if there is
/// a reason: the host hands over no module, because the bytes did not parse
/// or the module did not validate, or the bytes are no whole number of words;
/// or else the table is full.
pub open spec fn shader_refusal(
    state: SystemView,
    bytes: Seq<u8>,
    validated: Option<ValidatedModule>,
) -> Option<ResourceError> {
    if validated is None || bytes.len() % 4 != 0 {
        Some(ResourceError::ShaderInvalid)
    } else if state.shaders.len() >= u32::MAX {
        Some(ResourceError::InvalidHandle)
    } else {
        None
    }
}

/// Creates a shader and gives its handle. `bytes` are the binary module and
/// `validated` is what the host made of them: the module, parsed and
/// validated, or nothing where either failed. The device gets the words that
/// the bytes hold, least significant byte first. Where the shader is refused
/// nothing has changed.
pub fn shader_create(
    system: &mut System,
    bytes: &[u8],
    validated: Option<ValidatedModule>,
) -> (result: Result<u32, ResourceError>)
    ensures
        match result {
            Ok(handle) => {
                &&& shader_refusal(old(system)@, bytes@, validated) is None
                &&& handle == old(system)@.shaders.len() + 1
                &&& final(system)@ == old(system)@.create_shader(
                    shader_of(validated.unwrap()),
                    le_words(bytes@),
                )
            },
            Err(e) => {
                &&& shader_refusal(old(system)@, bytes@, validated) == Some(e)
                &&& final(system)@ == old(system)@
            },
        },
{
    let shader = match Shader::parsed(validated) {
        Ok(shader) => shader,
        Err(e) => {
            return Err(e);
        },
    };
    let words = match shader_words(bytes) {
        Ok(words) => words,
        Err(e) => {
            return Err(e);
        },
    };
    if system.shaders.len() >= u32::MAX as usize {
        return Err(ResourceError::InvalidHandle);
    }
    let ghost made = shader@;
    system.shaders.push(shader);
    assert(system@.shaders =~= old(system)@.shaders.push(made));
    system.emit(GpuCommand::CreateShader { words });
    Ok(system.shaders.len() as u32)
}

/// Makes sure that there is a frame with an open pass.
pub fn pass_ensure(system: &mut System)
    ensures
        final(system)@ == old(system)@.pass_ensure(),
{
    if system.frame.is_none() {
        system.frame = Some(
            RenderFrame {
                pass_open: false,
                pipelined: false,
                buffered: false,
                commands: Vec::new(),
            },
        );
        system.emit(GpuCommand::AcquireFrame);
    }
    let taken = system.frame.take();
    match taken {
        Some(frame) => {
            if frame.pass_open {
                system.frame = Some(frame);
            } else {
                system.frame = Some(
                    RenderFrame {
                        pass_open: true,
                        pipelined: false,
                        buffered: false,
                        commands: frame.commands,
                    },
                );
                system.emit(GpuCommand::BeginPass);
            }
        },
        None => {},
    }
}

/// Closes the open pass, if there is one: the commands that waited in it are
/// issued in their order, then the pass is closed. The frame stays.
pub fn end_pass(system: &mut System)
    ensures
        final(system)@ == old(system)@.end_pass(),
{
    let taken = system.frame.take();
    match taken {
        Some(frame) => {
            if frame.pass_open {
                let ghost before = system@;
                let mut i: usize = 0;
                while i < frame.commands.len()
                    invariant
                        i <= frame.commands@.len(),
                        system@ == before.emit_all(issued_all(frame.commands@.subrange(0, i as int))),
                    decreases frame.commands@.len() - i,
                {
                    let ghost so_far = system@;
                    system.emit(frame.commands[i].issue());
                    proof {
                        let done = issued_all(frame.commands@.subrange(0, i as int));
                        let next = issued_all(frame.commands@.subrange(0, i + 1));
                        assert(next =~= done.push(frame.commands@[i as int].issued()));
                        assert(before.commands + next =~= (before.commands + done).push(
                            frame.commands@[i as int].issued(),
                        ));
                    }
                    i = i + 1;
                }
                assert(frame.commands@.subrange(0, i as int) =~= frame.commands@);
                system.frame = Some(
                    RenderFrame {
                        pass_open: false,
                        pipelined: false,
                        buffered: false,
                        commands: Vec::new(),
                    },
                );
                system.emit(GpuCommand::EndPass);
            } else {
                system.frame = Some(frame);
            }
        },
        None => {},
    }
}

/// Makes the pipeline of the session if it is not there yet and can be made.
pub fn pipeline_ensure(system: &mut System)
    ensures
        final(system)@ == old(system)@.pipeline_ensure(),
{
    if system.pipeline.is_some() {
        return ;
    }
    if system.shaders.len() == 0 {
        return ;
    }
    let built = vertex_attributes_build(&system.shaders[0], "vs_main");
    match built {
        Ok(layout) => {
            let for_host = layout.clone_layout();
            system.pipeline = Some(Pipeline { shader: 0, layout });
            system.emit(
                GpuCommand::CreatePipeline {
                    shader: 0,
                    vertex_entry: "vs_main".to_owned(),
                    fragment_entry: "fs_main".to_owned(),
                    layout: for_host,
                },
            );
        },
        Err(_) => {},
    }
}

/// Makes sure that a pass is open and that the pipeline, if there is one, is
/// bound to it.
pub fn pipelined_ensure(system: &mut System)
    ensures
        final(system)@ == old(system)@.pipelined_ensure(),
{
    pipeline_ensure(system);
    pass_ensure(system);
    if system.pipeline.is_none() {
        return ;
    }
    let taken = system.frame.take();
    match taken {
        Some(frame) => {
            if frame.pipelined {
                system.frame = Some(frame);
            } else {
                system.frame = Some(
                    RenderFrame {
                        pass_open: frame.pass_open,
                        pipelined: true,
                        buffered: frame.buffered,
                        commands: frame.commands,
                    },
                );
                system.emit(GpuCommand::SetPipeline);
            }
        },
        None => {},
    }
}

/// Makes sure that a pass is open and binds the first index buffer and the
/// first vertex buffer to it. Where either is missing nothing is bound.
pub fn buffered_ensure(system: &mut System)
    ensures
        final(system)@ == old(system)@.buffered_ensure(),
{
    pass_ensure(system);
    let index = buffer_find(&system.buffers, BufferKind::Index);
    let vertex = buffer_find(&system.buffers, BufferKind::Vertex);
    match (index, vertex) {
        (Some(index), Some(vertex)) => {
            let taken = system.frame.take();
            match taken {
                Some(frame) => {
                    system.frame = Some(
                        RenderFrame {
                            pass_open: frame.pass_open,
                            pipelined: frame.pipelined,
                            buffered: true,
                            commands: frame.commands,
                        },
                    );
                    system.emit(
                        GpuCommand::SetIndexBuffer { buffer: index, format: IndexFormat::Uint16 },
                    );
                    system.emit(GpuCommand::SetVertexBuffer { slot: 0, buffer: vertex });
                },
                None => {},
            }
        },
        _ => {},
    }
}

/// Asks for a draw. Pipeline and buffers are bound first; the draw then waits
/// in the pass until the pass is closed. Where the pipeline or the buffers are
/// missing the draw is left out, and the result says which of them it is.
pub fn draw(system: &mut System, item_begin: u32, item_count: u32, instance_count: u32) -> (result:
    Result<(), ProtocolError>)
    ensures
        final(system)@ == old(system)@.draw(item_begin, item_count, instance_count),
        match result {
            Ok(_) => old(system)@.draw_fault() is None,
            Err(e) => old(system)@.draw_fault() == Some(e),
        },
{
    pipelined_ensure(system);
    buffered_ensure(system);
    let taken = system.frame.take();
    match taken {
        Some(frame) => {
            if !frame.pipelined {
                system.frame = Some(frame);
                Err(ProtocolError::NoPipeline)
            } else if !frame.buffered {
                system.frame = Some(frame);
                Err(ProtocolError::NoBuffers)
            } else {
                let mut frame = frame;
                frame.commands.push(PassCommand::Draw { item_begin, item_count, instance_count });
                system.frame = Some(frame);
                Ok(())
            }
        },
        None => Ok(()),
    }
}

/// Binds the pipeline, then keeps the uniform bytes and sends them.
pub fn uniforms_apply(system: &mut System, bytes: &[u8])
    ensures
        final(system)@ == old(system)@.uniforms_apply(bytes@),
{
    pipelined_ensure(system);
    system.uniforms = vstd::slice::slice_to_vec(bytes);
    system.emit(GpuCommand::WriteUniforms { bytes: vstd::slice::slice_to_vec(bytes) });
}

/// Commits the frame: an open pass is closed, the work is submitted and the
/// frame presented. Without a frame nothing happens.
pub fn commit_frame(system: &mut System)
    ensures
        final(system)@ == old(system)@.commit_frame(),
{
    if system.frame.is_none() {
        return ;
    }
    end_pass(system);
    system.frame = None;
    system.emit(GpuCommand::Submit);
    system.emit(GpuCommand::Present);
}

/// Drops a frame that was not committed: an open pass is closed without its
/// waiting commands and the frame is let go. Nothing is submitted and nothing
/// is presented. Without a frame nothing happens.
pub fn frame_drop(system: &mut System)
    ensures
        final(system)@ == old(system)@.frame_drop(),
{
    let taken = system.frame.take();
    match taken {
        Some(frame) => {
            if frame.pass_open {
                system.emit(GpuCommand::EndPass);
            }
            system.emit(GpuCommand::DiscardFrame);
        },
        None => {},
    }
}

/// Takes note that the device failed while the frame was set up. The frame
/// is given up; the host leaves out the requests that it still holds. The
/// next call that needs a pass begins a new frame.
pub fn frame_failed(system: &mut System, error: DeviceError)
    ensures
        final(system)@ == old(system)@.frame_failed(error),
{
    system.frame = None;
    system.device_error = Some(error);
}

} // verus!
