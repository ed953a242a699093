//! What the runtime asks of the graphics device and of the window.
//!
//! The runtime touches neither. It decides, and writes each decision down as
//! a command; the host carries the commands out in the order in which they
//! were written. A buffer or a shader is named by its position in its table,
//! counted from zero: the host keeps what it makes in the order of the requests.

use vstd::prelude::*;
use crate::reflect::{Layout, VertexAttributesInfo};

verus! {

/// What a buffer is used for.
#[derive(Clone, Copy, Debug, PartialEq, Eq, Structural)]
pub enum BufferKind {
    Vertex,
    Index,
}

/// How wide the numbers in an index buffer are.
#[derive(Clone, Copy, Debug, PartialEq, Eq, Structural)]
pub enum IndexFormat {
    Uint16,
    Uint32,
}

/// The colour that a pass is cleared to, as red, green, blue and opacity from
/// the most significant byte down: opaque black.
pub const CLEAR_COLOR: u32 = 0x0000_00ff;

/// A command that waits in a pass until the pass is closed.
#[derive(Clone, Copy, Debug, PartialEq, Eq, Structural)]
pub enum PassCommand {
    Draw { item_begin: u32, item_count: u32, instance_count: u32 },
}

/// One request to the host.
#[derive(Clone, Debug, PartialEq, Eq)]
pub enum GpuCommand {
    /// Make a buffer with these contents. It takes the next place among the buffers.
    CreateBuffer { contents: Vec<u8>, usage: BufferKind },
    /// Compile a shader module from these words. It takes the next place among the shaders.
    CreateShader { words: Vec<u32> },
    /// Make the render pipeline from the shader at this position.
    CreatePipeline {
        shader: usize,
        vertex_entry: String,
        fragment_entry: String,
        layout: VertexAttributesInfo,
    },
    /// Keep these bytes as the uniforms of the frame.
    WriteUniforms { bytes: Vec<u8> },
    /// Acquire the next swapchain texture and open a command encoder.
    AcquireFrame,
    /// Open a render pass on the acquired texture, cleared to `CLEAR_COLOR`.
    BeginPass,
    /// Bind the render pipeline to the open pass.
    SetPipeline,
    /// Bind the buffer at this position as index buffer.
    SetIndexBuffer { buffer: usize, format: IndexFormat },
    /// Bind the buffer at this position as vertex buffer in this slot.
    SetVertexBuffer { slot: u32, buffer: usize },
    /// Draw in the open pass.
    Draw { item_begin: u32, item_count: u32, instance_count: u32 },
    /// Close the open pass.
    EndPass,
    /// Finish the encoder and hand its commands to the device queue.
    Submit,
    /// Present the acquired texture.
    Present,
    /// Let go of the encoder and the acquired texture without presenting.
    DiscardFrame,
    /// Print a line of text.
    Print { text: String },
    /// Give the window this title.
    SetTitle { title: String },
}

/// A request to the host as a mathematical value.
pub enum GpuCommandView {
    CreateBuffer { contents: Seq<u8>, usage: BufferKind },
    CreateShader { words: Seq<u32> },
    CreatePipeline {
        shader: usize,
        vertex_entry: Seq<char>,
        fragment_entry: Seq<char>,
        layout: Layout,
    },
    WriteUniforms { bytes: Seq<u8> },
    AcquireFrame,
    BeginPass,
    SetPipeline,
    SetIndexBuffer { buffer: usize, format: IndexFormat },
    SetVertexBuffer { slot: u32, buffer: usize },
    Draw { item_begin: u32, item_count: u32, instance_count: u32 },
    EndPass,
    Submit,
    Present,
    DiscardFrame,
    Print { text: Seq<char> },
    SetTitle { title: Seq<char> },
}

impl View for GpuCommand {
    type V = GpuCommandView;

    open spec fn view(&self) -> GpuCommandView {
        match *self {
            GpuCommand::CreateBuffer { contents, usage } => GpuCommandView::CreateBuffer {
                contents: contents@,
                usage,
            },
            GpuCommand::CreateShader { words } => GpuCommandView::CreateShader { words: words@ },
            GpuCommand::CreatePipeline {
                shader,
                vertex_entry,
                fragment_entry,
                layout,
            } => GpuCommandView::CreatePipeline {
                shader,
                vertex_entry: vertex_entry@,
                fragment_entry: fragment_entry@,
                layout: layout@,
            },
            GpuCommand::WriteUniforms { bytes } => GpuCommandView::WriteUniforms { bytes: bytes@ },
            GpuCommand::AcquireFrame => GpuCommandView::AcquireFrame,
            GpuCommand::BeginPass => GpuCommandView::BeginPass,
            GpuCommand::SetPipeline => GpuCommandView::SetPipeline,
            GpuCommand::SetIndexBuffer { buffer, format } => GpuCommandView::SetIndexBuffer {
                buffer,
                format,
            },
            GpuCommand::SetVertexBuffer { slot, buffer } => GpuCommandView::SetVertexBuffer {
                slot,
                buffer,
            },
            GpuCommand::Draw { item_begin, item_count, instance_count } => GpuCommandView::Draw {
                item_begin,
                item_count,
                instance_count,
            },
            GpuCommand::EndPass => GpuCommandView::EndPass,
            GpuCommand::Submit => GpuCommandView::Submit,
            GpuCommand::Present => GpuCommandView::Present,
            GpuCommand::DiscardFrame => GpuCommandView::DiscardFrame,
            GpuCommand::Print { text } => GpuCommandView::Print { text: text@ },
            GpuCommand::SetTitle { title } => GpuCommandView::SetTitle { title: title@ },
        }
    }
}

impl PassCommand {
    /// The request that carries the command out.
    pub open spec fn issued(self) -> GpuCommandView {
        match self {
            PassCommand::Draw { item_begin, item_count, instance_count } => GpuCommandView::Draw {
                item_begin,
                item_count,
                instance_count,
            },
        }
    }

    /// The request that carries the command out.
    pub fn issue(self) -> (command: GpuCommand)
        ensures
            command@ == self.issued(),
    {
        match self {
            PassCommand::Draw { item_begin, item_count, instance_count } => GpuCommand::Draw {
                item_begin,
                item_count,
                instance_count,
            },
        }
    }
}

/// The item behind the last one that a draw of `item_count` items from
/// `item_begin` on takes: their sum, or the largest number where the sum is
/// beyond it.
pub fn draw_end(item_begin: u32, item_count: u32) -> (end: u32)
    ensures
        end == (if item_begin + item_count <= u32::MAX {
            item_begin + item_count
        } else {
            u32::MAX as int
        }),
{
    if item_count <= u32::MAX - item_begin {
        item_begin + item_count
    } else {
        u32::MAX
    }
}

/// The requests of a list, each as a mathematical value.
pub open spec fn command_views(commands: Seq<GpuCommand>) -> Seq<GpuCommandView> {
    Seq::new(commands.len(), |i: int| commands[i]@)
}

/// The requests that carry out a list of waiting commands, in their order.
pub open spec fn issued_all(commands: Seq<PassCommand>) -> Seq<GpuCommandView> {
    Seq::new(commands.len(), |i: int| commands[i].issued())
}

impl GpuCommandView {
    /// Whether the request hands work to the device queue or shows a frame.
    pub open spec fn reaches_screen(self) -> bool {
        self is Submit || self is Present
    }
}

} // verus!
