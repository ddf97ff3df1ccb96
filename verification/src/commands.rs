//! The command recording pool's fixed per-image command sequence.
//!
//! Each swap-chain image owns one pre-recorded command buffer. The
//! sequence is fixed: begin the buffer and the render pass over the
//! whole extent, bind the pipeline, the vertex and index buffers and
//! the image's descriptor set, draw, and close both again. The
//! embedding application replays each command through the native API.

use crate::surface::VkExtent2D;
use vstd::prelude::*;

verus! {

/// One recorded command, with the plain values the replay needs.
#[derive(Clone, Copy, PartialEq, Eq, Structural, Debug)]
pub enum DrawCommand {
    BeginCommandBuffer,
    BeginRenderPass { width: u32, height: u32 },
    BindPipeline,
    BindVertexBuffer,
    BindIndexBuffer,
    BindDescriptorSet { set_index: usize },
    DrawIndexed { index_count: u32 },
    EndRenderPass,
    EndCommandBuffer,
}

/// The fixed sequence recorded for image `image_index`.
pub open spec fn spec_recorded_commands(
    image_index: usize,
    extent: VkExtent2D,
    index_count: u32,
) -> Seq<DrawCommand> {
    seq![
        DrawCommand::BeginCommandBuffer,
        DrawCommand::BeginRenderPass { width: extent.width, height: extent.height },
        DrawCommand::BindPipeline,
        DrawCommand::BindVertexBuffer,
        DrawCommand::BindIndexBuffer,
        DrawCommand::BindDescriptorSet { set_index: image_index },
        DrawCommand::DrawIndexed { index_count },
        DrawCommand::EndRenderPass,
        DrawCommand::EndCommandBuffer,
    ]
}

/// Record the command buffer of one image.
pub fn record_image_commands(image_index: usize, extent: VkExtent2D, index_count: u32) -> (commands: Vec<DrawCommand>)
    ensures
        commands@ == spec_recorded_commands(image_index, extent, index_count),
{
    let mut commands: Vec<DrawCommand> = Vec::new();
    commands.push(DrawCommand::BeginCommandBuffer);
    commands.push(DrawCommand::BeginRenderPass { width: extent.width, height: extent.height });
    commands.push(DrawCommand::BindPipeline);
    commands.push(DrawCommand::BindVertexBuffer);
    commands.push(DrawCommand::BindIndexBuffer);
    commands.push(DrawCommand::BindDescriptorSet { set_index: image_index });
    commands.push(DrawCommand::DrawIndexed { index_count });
    commands.push(DrawCommand::EndRenderPass);
    commands.push(DrawCommand::EndCommandBuffer);
    proof {
        assert(commands@ =~= spec_recorded_commands(image_index, extent, index_count));
    }
    commands
}

/// Record one command buffer per swap-chain image, indexed by image.
pub fn record_commands(image_count: usize, extent: VkExtent2D, index_count: u32) -> (buffers: Vec<Vec<DrawCommand>>)
    ensures
        buffers@.len() == image_count,
        forall|i: int|
            0 <= i < image_count ==> #[trigger] buffers@[i]@ == spec_recorded_commands(
                i as usize,
                extent,
                index_count,
            ),
{
    let mut buffers: Vec<Vec<DrawCommand>> = Vec::new();
    let mut k: usize = 0;
    while k < image_count
        invariant
            k <= image_count,
            buffers@.len() == k,
            forall|i: int|
                0 <= i < k ==> #[trigger] buffers@[i]@ == spec_recorded_commands(
                    i as usize,
                    extent,
                    index_count,
                ),
        decreases image_count - k,
    {
        buffers.push(record_image_commands(k, extent, index_count));
        k = k + 1;
    }
    buffers
}

} // verus!
