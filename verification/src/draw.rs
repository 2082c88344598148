//! Drawing what culling has left.

use vstd::prelude::*;

use crate::cull_data::truncate;
use crate::culler::INDIRECT_HEADER_SIZE;
use crate::resources::{BufferDescriptor, BufferId};

verus! {

/// The vertex buffer slot through which shaders read the draw calls.
pub const INDIRECT_VERTEX_SLOT: u32 = 7;

/// The draw calls of a culled set of objects.
#[derive(Clone, Copy, Debug, PartialEq, Eq)]
pub struct GPUIndirectData {
    /// The buffer that holds them.
    pub indirect_buffer: BufferDescriptor,
    /// The number of objects that were culled.
    pub count: usize,
}

/// A command of a render pass.
#[derive(Clone, Copy, Debug, PartialEq, Eq)]
pub enum RenderCommand {
    /// Binds a buffer, from a byte on, as vertex buffer.
    SetVertexBuffer { slot: u32, buffer: BufferId, offset: u64 },
    /// Draws as many calls as a counter says, but not more than a maximum.
    MultiDrawIndexedIndirectCount {
        indirect_buffer: BufferId,
        indirect_offset: u64,
        count_buffer: BufferId,
        count_offset: u64,
        max_count: u32,
    },
}

/// Drawing a culled set of so many objects.
pub open spec fn draw_commands(count: nat) -> Seq<RenderCommand> {
    if count == 0 {
        seq![]
    } else {
        seq![
            RenderCommand::SetVertexBuffer {
                slot: INDIRECT_VERTEX_SLOT,
                buffer: BufferId::Indirect,
                offset: INDIRECT_HEADER_SIZE as u64,
            },
            RenderCommand::MultiDrawIndexedIndirectCount {
                indirect_buffer: BufferId::Indirect,
                indirect_offset: INDIRECT_HEADER_SIZE as u64,
                count_buffer: BufferId::Indirect,
                count_offset: 0,
                max_count: crate::cull_data::low_word(count as int),
            },
        ]
    }
}

/// Records drawing a culled set of objects. Nothing is recorded for an empty
/// set.
pub fn run(indirect_data: &GPUIndirectData) -> (commands: Vec<RenderCommand>)
    ensures
        commands@ == draw_commands(indirect_data.count as nat),
        indirect_data.count == 0 ==> commands@.len() == 0,
        indirect_data.count != 0 ==> commands@ == seq![
            RenderCommand::SetVertexBuffer { slot: 7, buffer: BufferId::Indirect, offset: 16 },
            RenderCommand::MultiDrawIndexedIndirectCount {
                indirect_buffer: BufferId::Indirect,
                indirect_offset: 16,
                count_buffer: BufferId::Indirect,
                count_offset: 0,
                max_count: (indirect_data.count as int % 0x1_0000_0000) as u32,
            },
        ],
{
    let mut commands: Vec<RenderCommand> = Vec::new();
    if indirect_data.count != 0 {
        commands.push(
            RenderCommand::SetVertexBuffer {
                slot: INDIRECT_VERTEX_SLOT,
                buffer: BufferId::Indirect,
                offset: INDIRECT_HEADER_SIZE as u64,
            },
        );
        commands.push(
            RenderCommand::MultiDrawIndexedIndirectCount {
                indirect_buffer: BufferId::Indirect,
                indirect_offset: INDIRECT_HEADER_SIZE as u64,
                count_buffer: BufferId::Indirect,
                count_offset: 0,
                max_count: truncate(indirect_data.count),
            },
        );
    }
    assert(commands@ =~= draw_commands(indirect_data.count as nat));
    commands
}

/// Every object can be drawn: the one multi-draw takes as many draw calls as
/// there are objects, from behind the counter on, and the shaders read from
/// there on too.
pub proof fn law_draws_every_object(count: nat)
    requires
        0 < count <= u32::MAX,
    ensures
        draw_commands(0).len() == 0,
        draw_commands(count).len() == 2,
        draw_commands(count)[0] matches RenderCommand::SetVertexBuffer { slot, buffer, offset }
            && slot == 7 && buffer == BufferId::Indirect && offset == 16,
        draw_commands(count)[1] matches RenderCommand::MultiDrawIndexedIndirectCount {
            indirect_buffer,
            indirect_offset,
            count_buffer,
            count_offset,
            max_count,
        } && indirect_buffer == BufferId::Indirect && indirect_offset == 16 && count_buffer
            == BufferId::Indirect && count_offset == 0 && max_count == count,
{
}

} // verus!
