//! The order of the requests.
//!
//! A host carries the requests out one after the other. Each must make sense
//! when its turn comes: a buffer that is bound must have been made, a pass
//! that is begun needs a frame, a draw needs its pipeline and its buffers
//! bound in the same pass. This module says what a host holds after a list of
//! requests, and shows that the runtime never asks for anything out of turn.

use vstd::prelude::*;
use crate::command::{issued_all, BufferKind, GpuCommandView, PassCommand};
use crate::session::Call;
use crate::system::{first_of_kind, lemma_first_of_kind, FrameView, SystemView};

verus! {

/// What a host holds that has carried out a list of requests.
pub struct HostView {
    /// How many buffers were made.
    pub buffers: nat,
    /// How many shaders were made.
    pub shaders: nat,
    /// Whether the pipeline was made.
    pub pipeline: bool,
    /// Whether a frame is acquired.
    pub frame: bool,
    /// Whether the work of the frame was submitted.
    pub submitted: bool,
    /// Whether a pass is open.
    pub pass: bool,
    /// Whether the pipeline is bound to the open pass.
    pub pipeline_bound: bool,
    /// Whether an index buffer is bound to the open pass.
    pub index_bound: bool,
    /// Whether a vertex buffer is bound to the open pass.
    pub vertex_bound: bool,
}

impl HostView {
    /// A host that has not been asked for anything yet.
    pub open spec fn initial() -> HostView {
        HostView {
            buffers: 0,
            shaders: 0,
            pipeline: false,
            frame: false,
            submitted: false,
            pass: false,
            pipeline_bound: false,
            index_bound: false,
            vertex_bound: false,
        }
    }

    /// Whether the host can carry out a request now.
    pub open spec fn admits(self, command: GpuCommandView) -> bool {
        match command {
            GpuCommandView::CreateBuffer { .. } => true,
            GpuCommandView::CreateShader { .. } => true,
            GpuCommandView::CreatePipeline { shader, .. } => shader < self.shaders
                && !self.pipeline,
            GpuCommandView::WriteUniforms { .. } => true,
            GpuCommandView::AcquireFrame => !self.frame,
            GpuCommandView::BeginPass => self.frame && !self.submitted && !self.pass,
            GpuCommandView::SetPipeline => self.pass && self.pipeline,
            GpuCommandView::SetIndexBuffer { buffer, .. } => self.pass && buffer < self.buffers,
            GpuCommandView::SetVertexBuffer { buffer, .. } => self.pass && buffer < self.buffers,
            GpuCommandView::Draw { .. } => self.pass && self.pipeline_bound && self.index_bound
                && self.vertex_bound,
            GpuCommandView::EndPass => self.pass,
            GpuCommandView::Submit => self.frame && !self.submitted && !self.pass,
            GpuCommandView::Present => self.frame && self.submitted,
            GpuCommandView::DiscardFrame => self.frame && !self.pass,
            GpuCommandView::Print { .. } => true,
            GpuCommandView::SetTitle { .. } => true,
        }
    }

    /// What the host holds once it has carried out a request.
    pub open spec fn carry_out(self, command: GpuCommandView) -> HostView {
        match command {
            GpuCommandView::CreateBuffer { .. } => HostView { buffers: self.buffers + 1, ..self },
            GpuCommandView::CreateShader { .. } => HostView { shaders: self.shaders + 1, ..self },
            GpuCommandView::CreatePipeline { .. } => HostView { pipeline: true, ..self },
            GpuCommandView::AcquireFrame => HostView { frame: true, ..self },
            GpuCommandView::BeginPass => HostView {
                pass: true,
                pipeline_bound: false,
                index_bound: false,
                vertex_bound: false,
                ..self
            },
            GpuCommandView::SetPipeline => HostView { pipeline_bound: true, ..self },
            GpuCommandView::SetIndexBuffer { .. } => HostView { index_bound: true, ..self },
            GpuCommandView::SetVertexBuffer { .. } => HostView { vertex_bound: true, ..self },
            GpuCommandView::EndPass => HostView {
                pass: false,
                pipeline_bound: false,
                index_bound: false,
                vertex_bound: false,
                ..self
            },
            GpuCommandView::Submit => HostView { submitted: true, ..self },
            GpuCommandView::Present => HostView { frame: false, submitted: false, ..self },
            GpuCommandView::DiscardFrame => HostView { frame: false, submitted: false, ..self },
            _ => self,
        }
    }

    /// What the host holds once it was asked for one more thing, if that
    /// was in turn.
    pub open spec fn accept(self, command: GpuCommandView) -> Option<HostView> {
        if self.admits(command) {
            Some(self.carry_out(command))
        } else {
            None
        }
    }
}

/// What a host holds that started with nothing and has carried out a list of
/// requests, or `None` where one of them was out of turn.
pub open spec fn host_after(commands: Seq<GpuCommandView>) -> Option<HostView>
    decreases commands.len(),
{
    if commands.len() == 0 {
        Some(HostView::initial())
    } else {
        match host_after(commands.drop_last()) {
            None => None,
            Some(host) => host.accept(commands.last()),
        }
    }
}

/// Whether what a host holds is what the state of the session takes it to
/// hold.
pub open spec fn agrees(state: SystemView, host: HostView) -> bool {
    &&& host.buffers == state.buffers.len()
    &&& host.shaders == state.shaders.len()
    &&& host.pipeline == (state.pipeline is Some)
    &&& host.frame == (state.frame is Some)
    &&& !host.submitted
    &&& match state.frame {
        None => !host.pass,
        Some(frame) => {
            &&& host.pass == frame.pass_open
            &&& frame.pipelined ==> frame.pass_open && host.pipeline_bound
            &&& frame.buffered ==> frame.pass_open && host.index_bound && host.vertex_bound
            &&& frame.commands.len() > 0 ==> frame.pipelined && frame.buffered
        },
    }
}

/// Whether every request written down so far was in turn, and a host that
/// has carried them all out holds what the state takes it to hold.
pub open spec fn in_step(state: SystemView) -> bool {
    host_after(state.commands) matches Some(host) && agrees(state, host)
}

/// What a host holds after one more request follows from what it held
/// before.
pub proof fn lemma_host_after_push(commands: Seq<GpuCommandView>, command: GpuCommandView)
    ensures
        host_after(commands.push(command)) == (match host_after(commands) {
            None => None,
            Some(host) => host.accept(command),
        }),
{
    assert(commands.push(command).drop_last() =~= commands);
}

/// Draws that waited in a pass are in turn when the pass is open with
/// pipeline and buffers bound, and change nothing that the host holds.
proof fn lemma_host_after_draws(commands: Seq<GpuCommandView>, waiting: Seq<PassCommand>)
    requires
        host_after(commands) matches Some(host) && (waiting.len() > 0 ==> host.pass
            && host.pipeline_bound && host.index_bound && host.vertex_bound),
    ensures
        host_after(commands + issued_all(waiting)) == host_after(commands),
    decreases waiting.len(),
{
    if waiting.len() == 0 {
        assert(commands + issued_all(waiting) =~= commands);
    } else {
        let before = waiting.drop_last();
        lemma_host_after_draws(commands, before);
        lemma_host_after_push(commands + issued_all(before), waiting.last().issued());
        assert(commands + issued_all(waiting) =~= (commands + issued_all(before)).push(
            waiting.last().issued(),
        ));
    }
}

/// Creating a resource keeps the requests in turn.
proof fn lemma_create_in_step(state: SystemView, call: Call)
    requires
        in_step(state),
        call is CreateBuffer || call is CreateShader || call is CreatePipeline || call is Print
            || call is SetTitle || call is PointerMoved || call is WindowResized,
    ensures
        in_step(state.step(call)),
{
    match call {
        Call::CreateBuffer { contents, kind, item_size } => {
            lemma_host_after_push(
                state.commands,
                GpuCommandView::CreateBuffer { contents, usage: kind },
            );
        },
        Call::CreateShader { shader, words } => {
            lemma_host_after_push(state.commands, GpuCommandView::CreateShader { words });
        },
        Call::Print { text } => {
            lemma_host_after_push(state.commands, GpuCommandView::Print { text });
        },
        Call::SetTitle { title } => {
            lemma_host_after_push(state.commands, GpuCommandView::SetTitle { title });
        },
        _ => {},
    }
}

/// Asking for a pass keeps the requests in turn.
proof fn lemma_pass_ensure_in_step(state: SystemView)
    requires
        in_step(state),
    ensures
        in_step(state.pass_ensure()),
        state.pass_ensure().frame is Some,
{
    let acquired = if state.frame is None {
        SystemView { frame: Some(FrameView::acquired()), ..state }.emit(
            GpuCommandView::AcquireFrame,
        )
    } else {
        state
    };
    if state.frame is None {
        lemma_host_after_push(state.commands, GpuCommandView::AcquireFrame);
    }
    assert(in_step(acquired));
    if !acquired.frame.unwrap().pass_open {
        lemma_host_after_push(acquired.commands, GpuCommandView::BeginPass);
    }
}

/// Closing a pass keeps the requests in turn.
proof fn lemma_end_pass_in_step(state: SystemView)
    requires
        in_step(state),
    ensures
        in_step(state.end_pass()),
        state.end_pass().frame is Some == state.frame is Some,
        state.end_pass().frame matches Some(frame) ==> !frame.pass_open,
{
    match state.frame {
        Some(frame) => {
            if frame.pass_open {
                lemma_host_after_draws(state.commands, frame.commands);
                lemma_host_after_push(
                    state.commands + issued_all(frame.commands),
                    GpuCommandView::EndPass,
                );
            }
        },
        None => {},
    }
}

/// Making the pipeline keeps the requests in turn.
proof fn lemma_pipeline_ensure_in_step(state: SystemView)
    requires
        in_step(state),
    ensures
        in_step(state.pipeline_ensure()),
{
    if state.pipeline is None && state.shaders.len() > 0 {
        match crate::shader::vertex_layout(state.shaders[0].entry_points, "vs_main"@) {
            Ok(layout) => {
                lemma_host_after_push(
                    state.commands,
                    GpuCommandView::CreatePipeline {
                        shader: 0,
                        vertex_entry: "vs_main"@,
                        fragment_entry: "fs_main"@,
                        layout,
                    },
                );
            },
            Err(_) => {},
        }
    }
}

/// Binding the pipeline keeps the requests in turn.
proof fn lemma_pipelined_ensure_in_step(state: SystemView)
    requires
        in_step(state),
    ensures
        in_step(state.pipelined_ensure()),
        state.pipelined_ensure().frame is Some,
{
    lemma_pipeline_ensure_in_step(state);
    let made = state.pipeline_ensure();
    lemma_pass_ensure_in_step(made);
    let ready = made.pass_ensure();
    let frame = ready.frame.unwrap();
    if !(frame.pipelined || ready.pipeline is None) {
        lemma_host_after_push(ready.commands, GpuCommandView::SetPipeline);
    }
}

/// Binding the buffers keeps the requests in turn.
proof fn lemma_buffered_ensure_in_step(state: SystemView)
    requires
        in_step(state),
    ensures
        in_step(state.buffered_ensure()),
        state.buffered_ensure().frame is Some,
{
    lemma_pass_ensure_in_step(state);
    let ready = state.pass_ensure();
    let frame = ready.frame.unwrap();
    match (
        first_of_kind(ready.buffers, BufferKind::Index),
        first_of_kind(ready.buffers, BufferKind::Vertex),
    ) {
        (Some(index), Some(vertex)) => {
            lemma_first_of_kind(ready.buffers, BufferKind::Index);
            lemma_first_of_kind(ready.buffers, BufferKind::Vertex);
            let bound = SystemView {
                frame: Some(FrameView { buffered: true, ..frame }),
                ..ready
            };
            let set_index = GpuCommandView::SetIndexBuffer {
                buffer: index as usize,
                format: crate::command::IndexFormat::Uint16,
            };
            let set_vertex = GpuCommandView::SetVertexBuffer { slot: 0, buffer: vertex as usize };
            lemma_host_after_push(bound.commands, set_index);
            lemma_host_after_push(bound.commands.push(set_index), set_vertex);
        },
        _ => {},
    }
}

/// Committing a frame keeps the requests in turn.
proof fn lemma_commit_frame_in_step(state: SystemView)
    requires
        in_step(state),
    ensures
        in_step(state.commit_frame()),
{
    if state.frame is Some {
        lemma_end_pass_in_step(state);
        let closed = SystemView { frame: None, ..state.end_pass() };
        lemma_host_after_push(closed.commands, GpuCommandView::Submit);
        lemma_host_after_push(
            closed.commands.push(GpuCommandView::Submit),
            GpuCommandView::Present,
        );
    }
}

/// Dropping a frame keeps the requests in turn.
proof fn lemma_frame_drop_in_step(state: SystemView)
    requires
        in_step(state),
    ensures
        in_step(state.frame_drop()),
{
    match state.frame {
        None => {},
        Some(frame) => {
            let closed = if frame.pass_open {
                state.emit(GpuCommandView::EndPass)
            } else {
                state
            };
            if frame.pass_open {
                lemma_host_after_push(state.commands, GpuCommandView::EndPass);
            }
            lemma_host_after_push(closed.commands, GpuCommandView::DiscardFrame);
        },
    }
}

/// One call keeps the requests in turn, unless it reports that the device
/// failed: then the host has left requests out.
pub proof fn lemma_step_in_step(state: SystemView, call: Call)
    requires
        in_step(state),
        !(call is FrameFailed),
    ensures
        in_step(state.step(call)),
{
    match call {
        Call::PassEnsure => {
            lemma_pass_ensure_in_step(state);
        },
        Call::EndPass => {
            lemma_end_pass_in_step(state);
        },
        Call::PipelineEnsure => {
            lemma_pipeline_ensure_in_step(state);
        },
        Call::PipelinedEnsure => {
            lemma_pipelined_ensure_in_step(state);
        },
        Call::BufferedEnsure => {
            lemma_buffered_ensure_in_step(state);
        },
        Call::Draw { item_begin, item_count, instance_count } => {
            lemma_pipelined_ensure_in_step(state);
            lemma_buffered_ensure_in_step(state.pipelined_ensure());
        },
        Call::UniformsApply { bytes } => {
            lemma_pipelined_ensure_in_step(state);
            lemma_host_after_push(
                state.pipelined_ensure().commands,
                GpuCommandView::WriteUniforms { bytes },
            );
        },
        Call::CommitFrame => {
            lemma_commit_frame_in_step(state);
        },
        Call::FrameDrop => {
            lemma_frame_drop_in_step(state);
        },
        _ => {
            lemma_create_in_step(state, call);
        },
    }
}

/// The runtime asks for nothing out of turn. Whatever calls are made on a new
/// session, as long as the device does not fail: every buffer and shader that
/// a request names was made before, a pass is begun only in a frame and only
/// while none is open, every draw finds its pipeline and both its buffers
/// bound in its pass, and a frame is presented only after it was submitted.
pub proof fn lemma_requests_are_in_turn(calls: Seq<Call>)
    requires
        forall|i: int| 0 <= i < calls.len() ==> !(#[trigger] calls[i] is FrameFailed),
    ensures
        in_step(SystemView::initial().run(calls)),
        host_after(SystemView::initial().run(calls).commands) is Some,
    decreases calls.len(),
{
    if calls.len() > 0 {
        lemma_requests_are_in_turn(calls.drop_last());
        lemma_step_in_step(SystemView::initial().run(calls.drop_last()), calls.last());
    }
}

} // verus!
