//! The command pool and what is recorded into its command buffers.
use vstd::prelude::*;
use crate::renderer::vulkan::descriptor::VKDescriptorPool;
use crate::renderer::vulkan::error::RendererError;
use crate::renderer::vulkan::swapchain::{Extent2D, VKFramebuffers};

verus! {

/// `VK_COMMAND_POOL_CREATE_RESET_COMMAND_BUFFER_BIT`.
pub const COMMAND_POOL_RESET_COMMAND_BUFFER: u32 = 0x2;

/// Every channel of the colour the attachment is cleared to, as the bit
/// pattern of a 32-bit float.
pub const CLEAR_CHANNEL: u32 = 0;

/// One command of a command buffer. Resources that exist once (the render
/// pass, the pipeline and its layout, the vertex and index buffers) are
/// meant by the command itself; framebuffers and descriptor sets are
/// named by position.
#[derive(Clone, Copy, Debug, PartialEq, Eq, Structural)]
pub enum Command {
    BeginCommandBuffer,
    /// Begins the render pass on a framebuffer, over the whole extent,
    /// clearing the attachment, with its commands inline.
    BeginRenderPass { framebuffer: u32, extent: Extent2D },
    /// Binds the pipeline for graphics.
    BindPipeline,
    /// Binds the vertex buffer, from its start, to binding 0.
    BindVertexBuffers,
    /// Binds the index buffer, from its start, as 32-bit indices.
    BindIndexBuffer,
    /// Sets viewport 0 to the whole extent, with depth from 0 to 1.
    SetViewport { extent: Extent2D },
    /// Sets scissor 0 to the whole extent.
    SetScissor { extent: Extent2D },
    /// Binds one descriptor set as set 0 for graphics.
    BindDescriptorSet { set: u32 },
    /// Draws one instance of `index_count` indices from the start.
    DrawIndexed { index_count: u32 },
    EndRenderPass,
    EndCommandBuffer,
}

/// The command pool to create and the primary command buffers to take
/// from it.
#[derive(Clone, Copy, Debug, PartialEq, Eq, Structural)]
pub struct VKCommandPool {
    pub queue_family_index: u32,
    pub flags: u32,
    /// How many command buffers there are; buffer `i` draws to image `i`.
    pub count: u32,
}

/// What opens command buffer `image`.
pub open spec fn opening(image: u32, extent: Extent2D) -> Seq<Command> {
    seq![Command::BeginCommandBuffer, Command::BeginRenderPass { framebuffer: image, extent }]
}

/// What command buffer `image` draws.
pub open spec fn drawing(image: u32, extent: Extent2D, index_count: u32) -> Seq<Command> {
    seq![
        Command::BindPipeline,
        Command::BindVertexBuffers,
        Command::BindIndexBuffer,
        Command::SetViewport { extent },
        Command::SetScissor { extent },
        Command::BindDescriptorSet { set: image },
        Command::DrawIndexed { index_count },
    ]
}

/// What closes every command buffer.
pub open spec fn closing() -> Seq<Command> {
    seq![Command::EndRenderPass, Command::EndCommandBuffer]
}

/// Everything recorded into command buffer `image`, in order.
pub open spec fn recording(image: u32, extent: Extent2D, index_count: u32) -> Seq<Command> {
    opening(image, extent) + drawing(image, extent, index_count) + closing()
}

/// `buffers` holds the recording of each of `count` command buffers.
pub open spec fn is_recording(
    buffers: Seq<Vec<Command>>,
    count: u32,
    extent: Extent2D,
    index_count: u32,
) -> bool {
    &&& buffers.len() == count
    &&& forall|i: int|
        0 <= i < count ==> (#[trigger] buffers[i])@ == recording(i as u32, extent, index_count)
}

/// A recording is the fixed sequence: begin, begin the pass on the
/// buffer's own framebuffer, bind pipeline and geometry, set viewport and
/// scissor, bind the buffer's own descriptor set, draw every index once,
/// end the pass, end.
pub proof fn lemma_recording_sequence(image: u32, extent: Extent2D, index_count: u32)
    ensures
        recording(image, extent, index_count) == seq![
            Command::BeginCommandBuffer,
            Command::BeginRenderPass { framebuffer: image, extent },
            Command::BindPipeline,
            Command::BindVertexBuffers,
            Command::BindIndexBuffer,
            Command::SetViewport { extent },
            Command::SetScissor { extent },
            Command::BindDescriptorSet { set: image },
            Command::DrawIndexed { index_count },
            Command::EndRenderPass,
            Command::EndCommandBuffer,
        ],
{
    assert(recording(image, extent, index_count) =~= seq![
        Command::BeginCommandBuffer,
        Command::BeginRenderPass { framebuffer: image, extent },
        Command::BindPipeline,
        Command::BindVertexBuffers,
        Command::BindIndexBuffer,
        Command::SetViewport { extent },
        Command::SetScissor { extent },
        Command::BindDescriptorSet { set: image },
        Command::DrawIndexed { index_count },
        Command::EndRenderPass,
        Command::EndCommandBuffer,
    ]);
}

/// The commands begin once, at the start, draw once, `index_count`
/// indices, and end once, at the end.
pub open spec fn records_one_draw(commands: Seq<Command>, index_count: u32) -> bool {
    &&& commands.len() == 11
    &&& commands[8] == Command::DrawIndexed { index_count }
    &&& forall|k: int|
        0 <= k < commands.len() ==> ((#[trigger] commands[k]) == Command::BeginCommandBuffer <==> k
            == 0)
    &&& forall|k: int|
        0 <= k < commands.len() ==> ((#[trigger] commands[k]) is DrawIndexed <==> k == 8)
    &&& forall|k: int|
        0 <= k < commands.len() ==> ((#[trigger] commands[k]) == Command::EndCommandBuffer <==> k
            == 10)
}

/// Every recording begins once, draws once and ends once.
pub proof fn lemma_recording_draws_once(image: u32, extent: Extent2D, index_count: u32)
    ensures
        records_one_draw(recording(image, extent, index_count), index_count),
{
    lemma_recording_sequence(image, extent, index_count);
}

impl VKCommandPool {
    /// A pool on the graphics family whose buffers can be reset one by
    /// one, with `count` command buffers.
    pub fn new(graphics_queue: u32, count: u32) -> (pool: Self)
        ensures
            pool == (VKCommandPool {
                queue_family_index: graphics_queue,
                flags: COMMAND_POOL_RESET_COMMAND_BUFFER,
                count,
            }),
    {
        VKCommandPool {
            queue_family_index: graphics_queue,
            flags: COMMAND_POOL_RESET_COMMAND_BUFFER,
            count,
        }
    }

    /// Whether command buffers are to be allocated when the pool is
    /// created: only if there is one to allocate.
    pub fn allocates(&self) -> (yes: bool)
        ensures
            yes == (self.count != 0),
    {
        self.count != 0
    }

    /// Every command buffer has a framebuffer and a descriptor set of its
    /// own position.
    pub open spec fn served_by(&self, framebuffers: VKFramebuffers, descriptor: VKDescriptorPool) -> bool {
        self.count <= framebuffers.count && self.count <= descriptor.buffer_count
    }

    /// The commands that open each command buffer.
    pub fn begin_command_buffers(&self, extent: &Extent2D) -> (buffers: Vec<Vec<Command>>)
        ensures
            buffers@.len() == self.count,
            forall|i: int|
                0 <= i < self.count ==> (#[trigger] buffers@[i])@ == opening(i as u32, *extent),
    {
        let mut buffers: Vec<Vec<Command>> = Vec::new();
        let mut image: u32 = 0;
        while image < self.count
            invariant
                image <= self.count,
                buffers@.len() == image,
                forall|i: int|
                    0 <= i < image ==> (#[trigger] buffers@[i])@ == opening(i as u32, *extent),
            decreases self.count - image,
        {
            let mut commands: Vec<Command> = Vec::new();
            commands.push(Command::BeginCommandBuffer);
            commands.push(Command::BeginRenderPass { framebuffer: image, extent: *extent });
            assert(commands@ =~= opening(image, *extent));
            buffers.push(commands);
            image += 1;
        }
        buffers
    }

    /// The commands that close each command buffer.
    pub fn end_command_buffers(&self) -> (buffers: Vec<Vec<Command>>)
        ensures
            buffers@.len() == self.count,
            forall|i: int| 0 <= i < self.count ==> (#[trigger] buffers@[i])@ == closing(),
    {
        let mut buffers: Vec<Vec<Command>> = Vec::new();
        let mut image: u32 = 0;
        while image < self.count
            invariant
                image <= self.count,
                buffers@.len() == image,
                forall|i: int| 0 <= i < image ==> (#[trigger] buffers@[i])@ == closing(),
            decreases self.count - image,
        {
            let mut commands: Vec<Command> = Vec::new();
            commands.push(Command::EndRenderPass);
            commands.push(Command::EndCommandBuffer);
            assert(commands@ =~= closing());
            buffers.push(commands);
            image += 1;
        }
        buffers
    }

    /// Everything to record, command buffer by command buffer.
    ///
    /// Fails with `MismatchedParts` exactly when some command buffer has
    /// no framebuffer or no descriptor set of its position.
    pub fn record_command_buffers(
        &self,
        framebuffers: &VKFramebuffers,
        descriptor: &VKDescriptorPool,
        extent: &Extent2D,
        index_count: u32,
    ) -> (made: Result<Vec<Vec<Command>>, RendererError>)
        ensures
            if self.served_by(*framebuffers, *descriptor) {
                made matches Ok(buffers) && is_recording(buffers@, self.count, *extent, index_count)
            } else {
                made matches Err(error) && error == RendererError::MismatchedParts
            },
    {
        if self.count > framebuffers.count || self.count > descriptor.buffer_count {
            return Err(RendererError::MismatchedParts);
        }
        Ok(self.recordings(extent, index_count))
    }

    /// What to record into each command buffer, given that each has its
    /// framebuffer and descriptor set.
    pub fn recordings(&self, extent: &Extent2D, index_count: u32) -> (buffers: Vec<Vec<Command>>)
        ensures
            is_recording(buffers@, self.count, *extent, index_count),
    {
        let mut opened = self.begin_command_buffers(extent);
        let mut closed = self.end_command_buffers();
        let mut buffers: Vec<Vec<Command>> = Vec::new();
        let mut image: u32 = 0;
        while image < self.count
            invariant
                image <= self.count,
                opened@.len() == self.count,
                closed@.len() == self.count,
                forall|i: int|
                    image <= i < self.count ==> (#[trigger] opened@[i])@ == opening(
                        i as u32,
                        *extent,
                    ),
                forall|i: int| image <= i < self.count ==> (#[trigger] closed@[i])@ == closing(),
                is_recording(buffers@, image, *extent, index_count),
            decreases self.count - image,
        {
            let mut commands: Vec<Command> = Vec::new();
            let mut tail: Vec<Command> = Vec::new();
            std::mem::swap(&mut commands, &mut opened[image as usize]);
            std::mem::swap(&mut tail, &mut closed[image as usize]);
            assert(commands@ == opening(image, *extent));
            commands.push(Command::BindPipeline);
            commands.push(Command::BindVertexBuffers);
            commands.push(Command::BindIndexBuffer);
            commands.push(Command::SetViewport { extent: *extent });
            commands.push(Command::SetScissor { extent: *extent });
            commands.push(Command::BindDescriptorSet { set: image });
            commands.push(Command::DrawIndexed { index_count });
            commands.append(&mut tail);
            assert(commands@ =~= recording(image, *extent, index_count));
            buffers.push(commands);
            image += 1;
        }
        buffers
    }
}


} // verus!
