//! What holds of a session however it goes on.
//!
//! A session is a state and the calls made on it, one after the other. The
//! laws here speak of every state and of every list of calls.

use vstd::prelude::*;
use crate::command::{BufferKind, GpuCommandView};
use crate::error::DeviceError;
use crate::shader::ShaderView;
use crate::system::{PipelineInfoView, SystemView};

verus! {

/// One call on the state of a session.
pub enum Call {
    CreateBuffer { contents: Seq<u8>, kind: BufferKind, item_size: usize },
    CreateShader { shader: ShaderView, words: Seq<u32> },
    CreatePipeline { info: PipelineInfoView },
    PassEnsure,
    EndPass,
    PipelineEnsure,
    PipelinedEnsure,
    BufferedEnsure,
    Draw { item_begin: u32, item_count: u32, instance_count: u32 },
    UniformsApply { bytes: Seq<u8> },
    CommitFrame,
    FrameDrop,
    FrameFailed { error: DeviceError },
    Print { text: Seq<char> },
    SetTitle { title: Seq<char> },
    PointerMoved { x: u32, y: u32 },
    WindowResized { width: u32, height: u32 },
}

impl Call {
    /// Whether the call may close a pass or give up a frame.
    pub open spec fn ends_pass(self) -> bool {
        self is EndPass || self is CommitFrame || self is FrameDrop || self is FrameFailed
    }

    /// Whether the call reports what the window looks like now.
    pub open spec fn observes_window(self) -> bool {
        self is PointerMoved || self is WindowResized
    }
}

impl SystemView {
    /// The state after one call.
    pub open spec fn step(self, call: Call) -> SystemView {
        match call {
            Call::CreateBuffer { contents, kind, item_size } => self.create_buffer(
                contents,
                kind,
                item_size,
            ),
            Call::CreateShader { shader, words } => self.create_shader(shader, words),
            Call::CreatePipeline { info } => self.create_pipeline(info),
            Call::PassEnsure => self.pass_ensure(),
            Call::EndPass => self.end_pass(),
            Call::PipelineEnsure => self.pipeline_ensure(),
            Call::PipelinedEnsure => self.pipelined_ensure(),
            Call::BufferedEnsure => self.buffered_ensure(),
            Call::Draw { item_begin, item_count, instance_count } => self.draw(
                item_begin,
                item_count,
                instance_count,
            ),
            Call::UniformsApply { bytes } => self.uniforms_apply(bytes),
            Call::CommitFrame => self.commit_frame(),
            Call::FrameDrop => self.frame_drop(),
            Call::FrameFailed { error } => self.frame_failed(error),
            Call::Print { text } => self.emit(GpuCommandView::Print { text }),
            Call::SetTitle { title } => self.emit(GpuCommandView::SetTitle { title }),
            Call::PointerMoved { x, y } => self.pointer_moved(x, y),
            Call::WindowResized { width, height } => self.window_resized(width, height),
        }
    }

    /// The state after a list of calls, made in their order.
    pub open spec fn run(self, calls: Seq<Call>) -> SystemView
        decreases calls.len(),
    {
        if calls.len() == 0 {
            self
        } else {
            self.run(calls.drop_last()).step(calls.last())
        }
    }

    /// Whether a pass is open.
    pub open spec fn pass_is_open(self) -> bool {
        self.frame matches Some(frame) && frame.pass_open
    }

    /// Whether the requests of `earlier` are the beginning of the requests
    /// here, and every request behind them is one that `allowed` admits.
    pub open spec fn only_added(
        self,
        earlier: SystemView,
        allowed: spec_fn(GpuCommandView) -> bool,
    ) -> bool {
        &&& earlier.commands.is_prefix_of(self.commands)
        &&& forall|i: int|
            earlier.commands.len() <= i < self.commands.len() ==> allowed(
                #[trigger] self.commands[i],
            )
    }
}

/// One call adds requests behind those that are there, and takes none away.
pub proof fn lemma_step_adds_requests(state: SystemView, call: Call)
    ensures
        state.commands.is_prefix_of(state.step(call).commands),
{
}

/// One call leaves every table as it was or makes it longer by one entry,
/// and leaves the window state alone unless it reports the window.
pub proof fn lemma_step_extends(state: SystemView, call: Call)
    ensures
        state.step(call).extends(state),
        !call.observes_window() ==> state.step(call).window == state.window,
{
}

/// Tables only grow: whatever calls are made, every entry stays where it was,
/// so every handle given out keeps naming the same resource.
pub proof fn lemma_tables_only_grow(state: SystemView, calls: Seq<Call>)
    ensures
        state.run(calls).extends(state),
    decreases calls.len(),
{
    if calls.len() > 0 {
        lemma_tables_only_grow(state, calls.drop_last());
        lemma_step_extends(state.run(calls.drop_last()), calls.last());
    }
}

/// The window state last seen stays until the window is seen again, however
/// many calls and frames pass in between.
pub proof fn lemma_window_state_persists(state: SystemView, calls: Seq<Call>)
    requires
        forall|i: int| 0 <= i < calls.len() ==> !(#[trigger] calls[i]).observes_window(),
    ensures
        state.run(calls).window == state.window,
    decreases calls.len(),
{
    if calls.len() > 0 {
        lemma_window_state_persists(state, calls.drop_last());
        lemma_step_extends(state.run(calls.drop_last()), calls.last());
    }
}

/// Asking for a pass opens one where none is open, and does nothing where one
/// is: the first request opens exactly one pass, a second one right behind it
/// opens none.
pub proof fn lemma_pass_ensure_opens_one_pass(state: SystemView)
    ensures
        state.pass_ensure().pass_is_open(),
        state.pass_ensure().pass_ensure() == state.pass_ensure(),
        state.pass_is_open() ==> state.pass_ensure() == state,
        state.frame is Some && !state.pass_is_open() ==> state.pass_ensure().commands
            == state.commands.push(GpuCommandView::BeginPass),
        state.frame is None ==> state.pass_ensure().commands == state.commands.push(
            GpuCommandView::AcquireFrame,
        ).push(GpuCommandView::BeginPass),
{
}

/// While a pass is open, a call that does not close it opens no other and
/// acquires no other frame.
pub proof fn lemma_step_keeps_open_pass(state: SystemView, call: Call)
    requires
        state.pass_is_open(),
        !call.ends_pass(),
    ensures
        state.step(call).pass_is_open(),
        state.step(call).only_added(
            state,
            |c: GpuCommandView| !(c is BeginPass) && !(c is AcquireFrame),
        ),
{
}

/// Once a pass is open, no list of calls without one that closes it opens
/// another pass or acquires another frame: however often a pass is asked
/// for in between, there is the one.
pub proof fn lemma_open_pass_is_the_only_one(state: SystemView, calls: Seq<Call>)
    requires
        state.pass_is_open(),
        forall|i: int| 0 <= i < calls.len() ==> !(#[trigger] calls[i]).ends_pass(),
    ensures
        state.run(calls).pass_is_open(),
        state.run(calls).only_added(
            state,
            |c: GpuCommandView| !(c is BeginPass) && !(c is AcquireFrame),
        ),
    decreases calls.len(),
{
    if calls.len() > 0 {
        lemma_open_pass_is_the_only_one(state, calls.drop_last());
        lemma_step_keeps_open_pass(state.run(calls.drop_last()), calls.last());
    }
}

/// Committing a frame in which nothing was drawn still shows it: the frame is
/// acquired, cleared by the one pass, submitted and presented.
pub proof fn lemma_empty_frame_is_presented(state: SystemView)
    requires
        state.frame is None,
    ensures
        state.pass_ensure().commit_frame().frame is None,
        state.pass_ensure().commit_frame().commands == state.commands + seq![
            GpuCommandView::AcquireFrame,
            GpuCommandView::BeginPass,
            GpuCommandView::EndPass,
            GpuCommandView::Submit,
            GpuCommandView::Present,
        ],
{
    assert(crate::command::issued_all(Seq::empty()) =~= Seq::empty());
    assert(state.pass_ensure().commit_frame().commands =~= state.commands + seq![
        GpuCommandView::AcquireFrame,
        GpuCommandView::BeginPass,
        GpuCommandView::EndPass,
        GpuCommandView::Submit,
        GpuCommandView::Present,
    ]);
}

/// Committing any frame ends with its submission and its presentation, and
/// leaves no frame.
pub proof fn lemma_commit_presents(state: SystemView)
    requires
        state.frame is Some,
    ensures
        state.commit_frame().frame is None,
        state.commit_frame().commands == state.end_pass().commands.push(
            GpuCommandView::Submit,
        ).push(GpuCommandView::Present),
{
}

/// Adding allowed requests twice is adding allowed requests.
pub proof fn lemma_only_added_twice(
    first: SystemView,
    second: SystemView,
    third: SystemView,
    allowed: spec_fn(GpuCommandView) -> bool,
)
    requires
        second.only_added(first, allowed),
        third.only_added(second, allowed),
    ensures
        third.only_added(first, allowed),
{
    assert forall|i: int| first.commands.len() <= i < third.commands.len() implies allowed(
        #[trigger] third.commands[i],
    ) by {
        if i < second.commands.len() {
            assert(third.commands[i] == second.commands[i]);
        }
    }
}

/// Neither asking for a pass nor making the pipeline submits or presents.
proof fn lemma_pass_and_pipeline_reach_no_screen(state: SystemView)
    ensures
        state.pass_ensure().only_added(state, |c: GpuCommandView| !c.reaches_screen()),
        state.pipeline_ensure().only_added(state, |c: GpuCommandView| !c.reaches_screen()),
{
}

/// Closing a pass neither submits nor presents: what it issues are the draws
/// that waited.
proof fn lemma_end_pass_reaches_no_screen(state: SystemView)
    ensures
        state.end_pass().only_added(state, |c: GpuCommandView| !c.reaches_screen()),
{
    let allowed = |c: GpuCommandView| !c.reaches_screen();
    match state.frame {
        Some(frame) => {
            if frame.pass_open {
                let issued = crate::command::issued_all(frame.commands);
                assert forall|i: int|
                    state.commands.len() <= i < state.end_pass().commands.len() implies allowed(
                    #[trigger] state.end_pass().commands[i],
                ) by {
                    if i < state.commands.len() + issued.len() {
                        assert(state.end_pass().commands[i] == issued[i - state.commands.len()]);
                    }
                }
            }
        },
        None => {},
    }
}

/// Binding the pipeline neither submits nor presents.
proof fn lemma_pipelined_ensure_reaches_no_screen(state: SystemView)
    ensures
        state.pipelined_ensure().only_added(state, |c: GpuCommandView| !c.reaches_screen()),
{
    let allowed = |c: GpuCommandView| !c.reaches_screen();
    let made = state.pipeline_ensure();
    let ready = made.pass_ensure();
    lemma_pass_and_pipeline_reach_no_screen(state);
    lemma_pass_and_pipeline_reach_no_screen(made);
    lemma_only_added_twice(state, made, ready, allowed);
    assert(state.pipelined_ensure().only_added(ready, allowed));
    lemma_only_added_twice(state, ready, state.pipelined_ensure(), allowed);
}

/// Binding the buffers neither submits nor presents.
proof fn lemma_buffered_ensure_reaches_no_screen(state: SystemView)
    ensures
        state.buffered_ensure().only_added(state, |c: GpuCommandView| !c.reaches_screen()),
{
    let allowed = |c: GpuCommandView| !c.reaches_screen();
    let ready = state.pass_ensure();
    lemma_pass_and_pipeline_reach_no_screen(state);
    assert(state.buffered_ensure().only_added(ready, allowed));
    lemma_only_added_twice(state, ready, state.buffered_ensure(), allowed);
}

/// A call other than a commit neither submits nor presents.
pub proof fn lemma_step_reaches_no_screen(state: SystemView, call: Call)
    requires
        !(call is CommitFrame),
    ensures
        state.step(call).only_added(state, |c: GpuCommandView| !c.reaches_screen()),
{
    let allowed = |c: GpuCommandView| !c.reaches_screen();
    match call {
        Call::PassEnsure => {
            lemma_pass_and_pipeline_reach_no_screen(state);
        },
        Call::PipelineEnsure => {
            lemma_pass_and_pipeline_reach_no_screen(state);
        },
        Call::EndPass => {
            lemma_end_pass_reaches_no_screen(state);
        },
        Call::PipelinedEnsure => {
            lemma_pipelined_ensure_reaches_no_screen(state);
        },
        Call::BufferedEnsure => {
            lemma_buffered_ensure_reaches_no_screen(state);
        },
        Call::Draw { item_begin, item_count, instance_count } => {
            let bound = state.pipelined_ensure();
            let ready = bound.buffered_ensure();
            lemma_pipelined_ensure_reaches_no_screen(state);
            lemma_buffered_ensure_reaches_no_screen(bound);
            lemma_only_added_twice(state, bound, ready, allowed);
            assert(state.step(call).commands == ready.commands);
        },
        Call::UniformsApply { bytes } => {
            let bound = state.pipelined_ensure();
            lemma_pipelined_ensure_reaches_no_screen(state);
            assert(state.step(call).only_added(bound, allowed));
            lemma_only_added_twice(state, bound, state.step(call), allowed);
        },
        _ => {},
    }
}

/// A tick that ends without a commit shows nothing: whatever was called, and
/// whatever frame is then dropped, nothing was submitted and nothing was
/// presented, and no frame is left.
pub proof fn lemma_dropped_frame_reaches_no_screen(state: SystemView, calls: Seq<Call>)
    requires
        forall|i: int| 0 <= i < calls.len() ==> !(#[trigger] calls[i] is CommitFrame),
    ensures
        state.run(calls).frame_drop().frame is None,
        state.run(calls).frame_drop().only_added(state, |c: GpuCommandView| !c.reaches_screen()),
    decreases calls.len(),
{
    lemma_run_reaches_no_screen(state, calls);
    lemma_step_reaches_no_screen(state.run(calls), Call::FrameDrop);
}

/// No list of calls without a commit submits or presents.
pub proof fn lemma_run_reaches_no_screen(state: SystemView, calls: Seq<Call>)
    requires
        forall|i: int| 0 <= i < calls.len() ==> !(#[trigger] calls[i] is CommitFrame),
    ensures
        state.run(calls).only_added(state, |c: GpuCommandView| !c.reaches_screen()),
    decreases calls.len(),
{
    if calls.len() > 0 {
        lemma_run_reaches_no_screen(state, calls.drop_last());
        lemma_step_reaches_no_screen(state.run(calls.drop_last()), calls.last());
    }
}

} // verus!
