//! The camera matrices: one uniform buffer and one descriptor set for
//! each swapchain image.
use vstd::prelude::*;
use crate::renderer::vulkan::error::RendererError;
use crate::renderer::vulkan::flags::{BUFFER_UNIFORM, MEMORY_HOST_COHERENT, MEMORY_HOST_VISIBLE};
use crate::renderer::vulkan::geometry::BufferCreateInfo;
use crate::renderer::vulkan::pipeline::SHADER_STAGE_VERTEX;

verus! {

/// Words in one 4×4 matrix.
pub const MATRIX_WORDS: usize = 16;

/// Words in the uniform record: three matrices.
pub const UNIFORM_WORDS: usize = 48;

/// Bytes in the uniform record.
pub const UNIFORM_BYTES: u64 = 192;

/// `VK_DESCRIPTOR_TYPE_UNIFORM_BUFFER`.
pub const DESCRIPTOR_TYPE_UNIFORM_BUFFER: i32 = 6;

/// A 4×4 matrix, column after column, each entry the bit pattern of a
/// 32-bit float.
pub type Matrix4 = [u32; 16];

/// What the vertex shader reads each frame.
#[derive(Clone, Copy, Debug, PartialEq, Eq)]
pub struct UniformBufferObject {
    pub model: Matrix4,
    pub view: Matrix4,
    pub proj: Matrix4,
}

/// The one binding of the descriptor set layout.
#[derive(Clone, Copy, Debug, PartialEq, Eq, Structural)]
pub struct DescriptorSetLayoutBinding {
    pub binding: u32,
    pub descriptor_type: i32,
    pub descriptor_count: u32,
    pub stage_flags: u32,
}

/// Points binding 0 of a descriptor set at a whole uniform buffer.
#[derive(Clone, Copy, Debug, PartialEq, Eq, Structural)]
pub struct DescriptorWrite {
    /// The descriptor set written, by position.
    pub set: u32,
    /// The uniform buffer it is pointed at, by position.
    pub buffer: u32,
    pub binding: u32,
    pub offset: u64,
    pub range: u64,
}

/// One rewrite of a uniform buffer through mapped memory.
#[derive(Clone, Debug, PartialEq, Eq)]
pub struct UniformWrite {
    /// The uniform buffer written, by position.
    pub buffer: u32,
    pub offset: u64,
    pub words: Vec<u32>,
}

/// The uniform buffers, the pool and the descriptor sets to create.
#[derive(Clone, Copy, Debug, PartialEq, Eq, Structural)]
pub struct VKDescriptorPool {
    /// How many uniform buffers and descriptor sets there are.
    pub buffer_count: u32,
    pub layout_binding: DescriptorSetLayoutBinding,
    pub buffer: BufferCreateInfo,
    pub pool_descriptor_type: i32,
    pub pool_descriptor_count: u32,
    pub max_sets: u32,
    /// How many descriptor sets to allocate from the pool.
    pub descriptor_set_count: u32,
    /// How many set layouts to hand to that allocation, every one of them
    /// the layout of the uniform buffer: one for each set allocated.
    pub set_layout_count: u32,
}

impl UniformBufferObject {
    /// The record as it lies in memory: model, view, projection.
    pub open spec fn words(&self) -> Seq<u32> {
        self.model@ + self.view@ + self.proj@
    }

    /// The record as the words to write into a uniform buffer.
    pub fn to_words(&self) -> (words: Vec<u32>)
        ensures
            words@ == self.words(),
            words@.len() == UNIFORM_WORDS,
    {
        let mut words: Vec<u32> = Vec::new();
        let mut i: usize = 0;
        while i < 16
            invariant
                i <= 16,
                words@ == self.model@.take(i as int),
            decreases 16 - i,
        {
            words.push(self.model[i]);
            assert(words@ =~= self.model@.take(i + 1));
            i += 1;
        }
        assert(self.model@.take(16) =~= self.model@);
        i = 0;
        while i < 16
            invariant
                i <= 16,
                words@ == self.model@ + self.view@.take(i as int),
            decreases 16 - i,
        {
            words.push(self.view[i]);
            assert(words@ =~= self.model@ + self.view@.take(i + 1));
            i += 1;
        }
        assert(self.view@.take(16) =~= self.view@);
        i = 0;
        while i < 16
            invariant
                i <= 16,
                words@ == self.model@ + self.view@ + self.proj@.take(i as int),
            decreases 16 - i,
        {
            words.push(self.proj[i]);
            assert(words@ =~= self.model@ + self.view@ + self.proj@.take(i + 1));
            i += 1;
        }
        assert(self.proj@.take(16) =~= self.proj@);
        words
    }
}

/// The uniform record is three matrices of sixteen words, 192 bytes in
/// all, with the model matrix first, the view matrix at byte 64 and the
/// projection matrix at byte 128.
pub proof fn lemma_uniform_layout(ubo: UniformBufferObject)
    ensures
        ubo.words().len() == UNIFORM_WORDS,
        4 * UNIFORM_WORDS == UNIFORM_BYTES,
        UNIFORM_WORDS == 3 * MATRIX_WORDS,
        ubo.words().subrange(0, 16) == ubo.model@,
        ubo.words().subrange(16, 32) == ubo.view@,
        ubo.words().subrange(32, 48) == ubo.proj@,
{
    assert(ubo.words().subrange(0, 16) =~= ubo.model@);
    assert(ubo.words().subrange(16, 32) =~= ubo.view@);
    assert(ubo.words().subrange(32, 48) =~= ubo.proj@);
}

/// The allocation of descriptor sets is handed exactly one set layout
/// for each set it allocates, and the pool has room for that many sets:
/// the device never reads past the layouts it is given.
pub proof fn lemma_one_layout_for_each_set(buffer_count: u32)
    ensures
        ({
            let pool = VKDescriptorPool::for_images(buffer_count);
            &&& pool.descriptor_set_count == buffer_count
            &&& pool.set_layout_count == pool.descriptor_set_count
            &&& pool.descriptor_set_count <= pool.max_sets
            &&& pool.descriptor_set_count <= pool.pool_descriptor_count
        }),
{
}

/// The write that points set `i` at buffer `i`.
pub open spec fn descriptor_write(i: int) -> DescriptorWrite {
    DescriptorWrite { set: i as u32, buffer: i as u32, binding: 0, offset: 0, range: UNIFORM_BYTES }
}

impl VKDescriptorPool {
    /// The layout, buffers and pool for `buffer_count` swapchain images.
    pub open spec fn for_images(buffer_count: u32) -> VKDescriptorPool {
        VKDescriptorPool {
            buffer_count,
            layout_binding: DescriptorSetLayoutBinding {
                binding: 0,
                descriptor_type: DESCRIPTOR_TYPE_UNIFORM_BUFFER,
                descriptor_count: 1,
                stage_flags: SHADER_STAGE_VERTEX,
            },
            buffer: BufferCreateInfo {
                size: UNIFORM_BYTES,
                usage: BUFFER_UNIFORM,
                memory_properties: MEMORY_HOST_VISIBLE | MEMORY_HOST_COHERENT,
            },
            pool_descriptor_type: DESCRIPTOR_TYPE_UNIFORM_BUFFER,
            pool_descriptor_count: buffer_count,
            max_sets: buffer_count,
            descriptor_set_count: buffer_count,
            set_layout_count: buffer_count,
        }
    }

    /// The uniform buffers and descriptor sets for `buffer_count`
    /// swapchain images.
    pub fn new(buffer_count: u32) -> (pool: Self)
        ensures
            pool == Self::for_images(buffer_count),
    {
        VKDescriptorPool {
            buffer_count,
            layout_binding: DescriptorSetLayoutBinding {
                binding: 0,
                descriptor_type: DESCRIPTOR_TYPE_UNIFORM_BUFFER,
                descriptor_count: 1,
                stage_flags: SHADER_STAGE_VERTEX,
            },
            buffer: BufferCreateInfo {
                size: UNIFORM_BYTES,
                usage: BUFFER_UNIFORM,
                memory_properties: MEMORY_HOST_VISIBLE | MEMORY_HOST_COHERENT,
            },
            pool_descriptor_type: DESCRIPTOR_TYPE_UNIFORM_BUFFER,
            pool_descriptor_count: buffer_count,
            max_sets: buffer_count,
            descriptor_set_count: buffer_count,
            set_layout_count: buffer_count,
        }
    }

    /// The writes that point every descriptor set at its uniform buffer.
    pub fn descriptor_writes(&self) -> (writes: Vec<DescriptorWrite>)
        ensures
            writes@.len() == self.buffer_count,
            forall|i: int| 0 <= i < self.buffer_count ==> writes@[i] == descriptor_write(i),
    {
        let mut writes: Vec<DescriptorWrite> = Vec::new();
        let mut i: u32 = 0;
        while i < self.buffer_count
            invariant
                i <= self.buffer_count,
                writes@.len() == i,
                forall|j: int| 0 <= j < i ==> writes@[j] == descriptor_write(j),
            decreases self.buffer_count - i,
        {
            writes.push(
                DescriptorWrite { set: i, buffer: i, binding: 0, offset: 0, range: UNIFORM_BYTES },
            );
            i += 1;
        }
        writes
    }

    /// The rewrite of uniform buffer `current_index` with the three
    /// matrices.
    ///
    /// Fails with `ImageIndexOutOfRange` exactly when there is no such
    /// buffer.
    pub fn update_uniform_buffer(
        &self,
        current_index: u32,
        model_matrix: &Matrix4,
        view_matrix: &Matrix4,
        proj_matrix: &Matrix4,
    ) -> (made: Result<UniformWrite, RendererError>)
        ensures
            if current_index < self.buffer_count {
                &&& made matches Ok(write)
                &&& write.buffer == current_index
                &&& write.offset == 0
                &&& write.words@ == model_matrix@ + view_matrix@ + proj_matrix@
                &&& 4 * write.words@.len() == UNIFORM_BYTES
            } else {
                made matches Err(error) && error == RendererError::ImageIndexOutOfRange
            },
    {
        if current_index >= self.buffer_count {
            return Err(RendererError::ImageIndexOutOfRange);
        }
        let ubo = UniformBufferObject {
            model: *model_matrix,
            view: *view_matrix,
            proj: *proj_matrix,
        };
        Ok(UniformWrite { buffer: current_index, offset: 0, words: ubo.to_words() })
    }
}

} // verus!
