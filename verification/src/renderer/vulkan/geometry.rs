//! Vertex and index data on the device, filled through staging buffers.
use vstd::prelude::*;
use crate::renderer::vertex::{encode_vertices, vertex_words, Vertex, VERTEX_STRIDE};
use crate::renderer::vulkan::error::RendererError;
use crate::renderer::vulkan::flags::{
    contains_all, memory_flags_contain, BUFFER_INDEX, BUFFER_TRANSFER_DST, BUFFER_TRANSFER_SRC,
    BUFFER_VERTEX, MEMORY_DEVICE_LOCAL, MEMORY_HOST_COHERENT, MEMORY_HOST_VISIBLE,
};

verus! {

/// Bytes in one index.
pub const INDEX_BYTES: u64 = 4;

/// Memory types a device can report.
pub const MAX_MEMORY_TYPES: usize = 32;

/// What a buffer needs of the memory bound to it.
#[derive(Clone, Copy, Debug, PartialEq, Eq, Structural)]
pub struct MemoryRequirements {
    pub size: u64,
    pub memory_type_bits: u32,
}

/// The memory to allocate for a buffer and where to bind it.
#[derive(Clone, Copy, Debug, PartialEq, Eq, Structural)]
pub struct MemoryAllocateInfo {
    pub allocation_size: u64,
    pub memory_type_index: u32,
    pub bind_offset: u64,
}

/// A buffer to create, used by one queue family at a time.
#[derive(Clone, Copy, Debug, PartialEq, Eq, Structural)]
pub struct BufferCreateInfo {
    pub size: u64,
    pub usage: u32,
    pub memory_properties: u32,
}

/// One step of copying a staging buffer into a device buffer.
#[derive(Clone, Copy, Debug, PartialEq, Eq, Structural)]
pub enum CopyStep {
    AllocateCommandBuffer,
    BeginOneTimeSubmit,
    CopyBuffer { src_offset: u64, dst_offset: u64, size: u64 },
    EndCommandBuffer,
    Submit,
    QueueWaitIdle,
    FreeCommandBuffer,
}

/// One step of a transfer through a staging buffer.
#[derive(Clone, Copy, Debug, PartialEq, Eq, Structural)]
pub enum UploadStep {
    /// Creates the staging buffer and binds host memory to it.
    CreateStagingBuffer,
    /// Maps the staging memory, writes the words into it and unmaps it.
    WriteStagingMemory,
    /// Creates the device buffer and binds device memory to it.
    CreateDeviceBuffer,
    /// Copies the staging buffer to the device buffer.
    CopyToDevice,
    DestroyStagingBuffer,
    FreeStagingMemory,
}

/// Where staged data ends up.
#[derive(Clone, Copy, Debug, PartialEq, Eq, Structural)]
pub enum Destination {
    /// A device buffer created for this data.
    Fresh(BufferCreateInfo),
    /// The device buffer that already holds data of this size.
    Existing,
}

/// One transfer: the words to write into a staging buffer of exactly their
/// size, and the device buffer to copy them to.
#[derive(Clone, Debug, PartialEq, Eq)]
pub struct Upload {
    pub words: Vec<u32>,
    pub staging: BufferCreateInfo,
    pub destination: Destination,
    /// What to do, in order.
    pub steps: Vec<UploadStep>,
    /// What the copy to the device consists of.
    pub copy: Vec<CopyStep>,
}

/// The two transfers that fill the geometry buffers.
#[derive(Clone, Debug, PartialEq, Eq)]
pub struct GeometryUpload {
    pub vertex: Upload,
    pub index: Upload,
    /// The generation whose buffers these transfers replace and which is
    /// to be destroyed once the device is idle, if any.
    pub retires: Option<u64>,
}

/// The geometry on the device.
#[derive(Clone, Copy, Debug, PartialEq, Eq, Structural)]
pub struct VertexBuffer {
    pub vertex_count: u32,
    pub indices_count: u32,
    /// How often the buffers have been reallocated.
    pub generation: u64,
}

/// Memory type `index` is allowed by the filter.
pub open spec fn type_allowed(type_filter: u32, index: u32) -> bool {
    type_filter & (1u32 << index) != 0
}

/// Memory type `index` is allowed and has every required property.
pub open spec fn type_fits(
    type_filter: u32,
    required_properties: u32,
    memory_types: Seq<u32>,
    index: u32,
) -> bool {
    type_allowed(type_filter, index) && contains_all(memory_types[index as int], required_properties)
}

/// `choice` is the first fitting memory type, or nothing when none fits.
pub open spec fn is_memory_type(
    type_filter: u32,
    required_properties: u32,
    memory_types: Seq<u32>,
    choice: Option<u32>,
) -> bool {
    match choice {
        Some(index) => {
            &&& index < MAX_MEMORY_TYPES
            &&& type_fits(type_filter, required_properties, memory_types, index)
            &&& forall|j: u32| j < index ==> !type_fits(type_filter, required_properties, memory_types, j)
        },
        None => forall|j: u32|
            j < MAX_MEMORY_TYPES ==> !type_fits(type_filter, required_properties, memory_types, j),
    }
}

/// The first memory type that the filter allows and that has every
/// required property. `memory_types` holds the property flags of each type.
pub fn find_memory_type(
    type_filter: u32,
    required_properties: u32,
    memory_types: &[u32; 32],
) -> (choice: Option<u32>)
    ensures
        is_memory_type(type_filter, required_properties, memory_types@, choice),
{
    let mut i: u32 = 0;
    while i < 32
        invariant
            i <= 32,
            forall|j: u32| j < i ==> !type_fits(type_filter, required_properties, memory_types@, j),
        decreases 32 - i,
    {
        if (type_filter & (1u32 << i)) != 0 && memory_flags_contain(
            memory_types[i as usize],
            required_properties,
        ) {
            return Some(i);
        }
        i += 1;
    }
    None
}

/// The steps of one buffer-to-buffer copy of `size` bytes.
pub open spec fn copy_steps(size: u64) -> Seq<CopyStep> {
    seq![
        CopyStep::AllocateCommandBuffer,
        CopyStep::BeginOneTimeSubmit,
        CopyStep::CopyBuffer { src_offset: 0, dst_offset: 0, size },
        CopyStep::EndCommandBuffer,
        CopyStep::Submit,
        CopyStep::QueueWaitIdle,
        CopyStep::FreeCommandBuffer,
    ]
}

/// The steps of a transfer: stage the data, create the device buffer if
/// it is a fresh one, copy, and give up the staging buffer.
pub open spec fn upload_steps(fresh: bool) -> Seq<UploadStep> {
    let staged = seq![UploadStep::CreateStagingBuffer, UploadStep::WriteStagingMemory];
    let ready = if fresh {
        staged.push(UploadStep::CreateDeviceBuffer)
    } else {
        staged
    };
    ready + seq![
        UploadStep::CopyToDevice,
        UploadStep::DestroyStagingBuffer,
        UploadStep::FreeStagingMemory,
    ]
}

/// The staging buffer for an upload into a fresh device buffer.
pub open spec fn staging_for_fresh(size: u64) -> BufferCreateInfo {
    BufferCreateInfo {
        size,
        usage: BUFFER_TRANSFER_SRC | BUFFER_TRANSFER_DST,
        memory_properties: MEMORY_HOST_VISIBLE | MEMORY_HOST_COHERENT,
    }
}

/// The staging buffer for an upload into an existing device buffer.
pub open spec fn staging_for_existing(size: u64) -> BufferCreateInfo {
    BufferCreateInfo {
        size,
        usage: BUFFER_TRANSFER_SRC,
        memory_properties: MEMORY_HOST_COHERENT | MEMORY_HOST_VISIBLE,
    }
}

/// The device-local buffer that holds vertices.
pub open spec fn vertex_buffer_info(size: u64) -> BufferCreateInfo {
    BufferCreateInfo {
        size,
        usage: BUFFER_TRANSFER_DST | BUFFER_VERTEX | BUFFER_TRANSFER_SRC,
        memory_properties: MEMORY_DEVICE_LOCAL,
    }
}

/// The device-local buffer that holds indices.
pub open spec fn index_buffer_info(size: u64) -> BufferCreateInfo {
    BufferCreateInfo {
        size,
        usage: BUFFER_INDEX | BUFFER_TRANSFER_DST,
        memory_properties: MEMORY_DEVICE_LOCAL,
    }
}

impl Upload {
    /// The bytes the transfer moves.
    pub open spec fn size(&self) -> nat {
        4 * self.words@.len()
    }

    /// The staging buffer, the copy and a fresh destination all have
    /// exactly the size of the data.
    pub open spec fn wf(&self) -> bool {
        &&& self.staging.size == self.size()
        &&& self.steps@ == upload_steps(self.destination is Fresh)
        &&& self.copy@ == copy_steps(self.staging.size)
        &&& self.destination matches Destination::Fresh(info) ==> info.size == self.size()
    }

    /// The transfer moves `words` into a fresh buffer described by `info`.
    pub open spec fn is_fresh(&self, words: Seq<u32>, info: BufferCreateInfo) -> bool {
        &&& self.words@ == words
        &&& self.staging == staging_for_fresh(info.size)
        &&& self.destination == Destination::Fresh(info)
        &&& self.wf()
    }

    /// The transfer moves `words` into the buffer that is already there.
    pub open spec fn is_in_place(&self, words: Seq<u32>) -> bool {
        &&& self.words@ == words
        &&& self.staging == staging_for_existing((4 * words.len()) as u64)
        &&& self.destination == Destination::Existing
        &&& self.wf()
    }
}

/// The two counts fit the 32 bits the draw call gives them, and there is
/// something to draw.
pub open spec fn uploadable(vertices: int, indices: int) -> Result<(), RendererError> {
    if indices == 0 {
        Err(RendererError::NoIndices)
    } else if vertices > u32::MAX || indices > u32::MAX {
        Err(RendererError::TooLarge)
    } else {
        Ok(())
    }
}

impl VertexBuffer {
    /// There is at least one index.
    pub open spec fn wf(&self) -> bool {
        self.indices_count >= 1
    }

    /// Bytes in the vertex buffer.
    pub open spec fn vertex_bytes(&self) -> int {
        VERTEX_STRIDE * self.vertex_count
    }

    /// Bytes in the index buffer.
    pub open spec fn index_bytes(&self) -> int {
        INDEX_BYTES * self.indices_count
    }

    /// Data of these counts has exactly the size of the buffers.
    pub open spec fn fits(&self, vertices: int, indices: int) -> bool {
        vertices == self.vertex_count && indices == self.indices_count
    }

    /// The steps of one staging-to-device copy of `size` bytes.
    pub fn copy_buffer(size: u64) -> (steps: Vec<CopyStep>)
        ensures
            steps@ == copy_steps(size),
    {
        let mut steps: Vec<CopyStep> = Vec::new();
        steps.push(CopyStep::AllocateCommandBuffer);
        steps.push(CopyStep::BeginOneTimeSubmit);
        steps.push(CopyStep::CopyBuffer { src_offset: 0, dst_offset: 0, size });
        steps.push(CopyStep::EndCommandBuffer);
        steps.push(CopyStep::Submit);
        steps.push(CopyStep::QueueWaitIdle);
        steps.push(CopyStep::FreeCommandBuffer);
        assert(steps@ =~= copy_steps(size));
        steps
    }

    /// The memory to back a buffer with: as much as it requires, of the
    /// first type that fits, bound at offset 0.
    ///
    /// Fails with `NoMemoryType` exactly when no memory type fits.
    pub fn create_buffer(
        requirements: &MemoryRequirements,
        required_memory_properties: u32,
        memory_types: &[u32; 32],
    ) -> (made: Result<MemoryAllocateInfo, RendererError>)
        ensures
            match made {
                Ok(info) => {
                    &&& info.allocation_size == requirements.size
                    &&& info.bind_offset == 0
                    &&& is_memory_type(
                        requirements.memory_type_bits,
                        required_memory_properties,
                        memory_types@,
                        Some(info.memory_type_index),
                    )
                },
                Err(error) => {
                    &&& error == RendererError::NoMemoryType
                    &&& is_memory_type(
                        requirements.memory_type_bits,
                        required_memory_properties,
                        memory_types@,
                        None,
                    )
                },
            },
    {
        match find_memory_type(
            requirements.memory_type_bits,
            required_memory_properties,
            memory_types,
        ) {
            Some(memory_type_index) => Ok(
                MemoryAllocateInfo {
                    allocation_size: requirements.size,
                    memory_type_index,
                    bind_offset: 0,
                },
            ),
            None => Err(RendererError::NoMemoryType),
        }
    }

    /// Geometry for fresh buffers, and the transfers that fill them.
    ///
    /// Fails with `NoIndices` when there is no index, and with `TooLarge`
    /// when a count does not fit 32 bits.
    pub fn new(vertices: Vec<Vertex>, indices: Vec<u32>) -> (made: Result<
        (Self, GeometryUpload),
        RendererError,
    >)
        ensures
            match uploadable(vertices@.len() as int, indices@.len() as int) {
                Ok(()) => {
                    &&& made matches Ok((buffer, upload))
                    &&& buffer.vertex_count == vertices@.len()
                    &&& buffer.indices_count == indices@.len()
                    &&& buffer.generation == 0
                    &&& buffer.wf()
                    &&& upload.vertex.is_fresh(
                        vertex_words(vertices@),
                        vertex_buffer_info(buffer.vertex_bytes() as u64),
                    )
                    &&& upload.index.is_fresh(indices@, index_buffer_info(buffer.index_bytes() as u64))
                    &&& upload.retires is None
                },
                Err(error) => made matches Err(e) && e == error,
            },
    {
        if indices.len() == 0 {
            return Err(RendererError::NoIndices);
        }
        if vertices.len() > u32::MAX as usize || indices.len() > u32::MAX as usize {
            return Err(RendererError::TooLarge);
        }
        let buffer = VertexBuffer {
            vertex_count: vertices.len() as u32,
            indices_count: indices.len() as u32,
            generation: 0,
        };
        let vertex = Self::fresh_upload(
            encode_vertices(&vertices),
            BUFFER_TRANSFER_DST | BUFFER_VERTEX | BUFFER_TRANSFER_SRC,
        );
        let index = Self::fresh_upload(indices, BUFFER_INDEX | BUFFER_TRANSFER_DST);
        Ok((buffer, GeometryUpload { vertex, index, retires: None }))
    }

    /// Replaces the geometry. Data of exactly the size of the buffers is
    /// copied into them; data of any other size gets fresh buffers, and
    /// the old ones are retired.
    ///
    /// Fails like `new`, and with `GenerationExhausted` when fresh buffers
    /// are needed and the generation cannot advance.
    pub fn update_buffer(&mut self, vertices: Vec<Vertex>, indices: Vec<u32>) -> (made: Result<
        GeometryUpload,
        RendererError,
    >)
        ensures
            made is Ok ==> final(self).wf(),
            match old(self).updated(vertices@.len() as int, indices@.len() as int) {
                Ok(buffer) => {
                    &&& made matches Ok(upload)
                    &&& *final(self) == buffer
                    &&& old(self).replaced_by(upload, vertices@, indices@)
                },
                Err(error) => made matches Err(e) && e == error && *final(self) == *old(self),
            },
    {
        if indices.len() == 0 {
            return Err(RendererError::NoIndices);
        }
        if vertices.len() > u32::MAX as usize || indices.len() > u32::MAX as usize {
            return Err(RendererError::TooLarge);
        }
        let vertex_count = vertices.len() as u32;
        let indices_count = indices.len() as u32;
        if vertex_count == self.vertex_count && indices_count == self.indices_count {
            let vertex = Self::in_place_upload(encode_vertices(&vertices));
            let index = Self::in_place_upload(indices);
            Ok(GeometryUpload { vertex, index, retires: None })
        } else {
            if self.generation == u64::MAX {
                return Err(RendererError::GenerationExhausted);
            }
            let retired = self.generation;
            self.vertex_count = vertex_count;
            self.indices_count = indices_count;
            self.generation = retired + 1;
            let vertex = Self::fresh_upload(
                encode_vertices(&vertices),
                BUFFER_TRANSFER_DST | BUFFER_VERTEX | BUFFER_TRANSFER_SRC,
            );
            let index = Self::fresh_upload(indices, BUFFER_INDEX | BUFFER_TRANSFER_DST);
            Ok(GeometryUpload { vertex, index, retires: Some(retired) })
        }
    }

    /// `upload` puts this data in the place of the geometry: into the
    /// buffers that exist when it has their size, else into fresh buffers
    /// of its own size, with the existing ones retired.
    pub open spec fn replaced_by(
        &self,
        upload: GeometryUpload,
        vertices: Seq<Vertex>,
        indices: Seq<u32>,
    ) -> bool {
        if self.fits(vertices.len() as int, indices.len() as int) {
            &&& upload.vertex.is_in_place(vertex_words(vertices))
            &&& upload.index.is_in_place(indices)
            &&& upload.retires is None
        } else {
            &&& upload.vertex.is_fresh(
                vertex_words(vertices),
                vertex_buffer_info((VERTEX_STRIDE * vertices.len()) as u64),
            )
            &&& upload.index.is_fresh(indices, index_buffer_info((INDEX_BYTES * indices.len()) as u64))
            &&& upload.retires == Some(self.generation)
        }
    }

    /// The geometry after data of these counts has replaced it, or the
    /// reason the data cannot be taken.
    pub open spec fn updated(&self, vertices: int, indices: int) -> Result<Self, RendererError> {
        match uploadable(vertices, indices) {
            Err(error) => Err(error),
            Ok(()) => if self.fits(vertices, indices) {
                Ok(*self)
            } else if self.generation == u64::MAX {
                Err(RendererError::GenerationExhausted)
            } else {
                Ok(
                    VertexBuffer {
                        vertex_count: vertices as u32,
                        indices_count: indices as u32,
                        generation: (self.generation + 1) as u64,
                    },
                )
            },
        }
    }

    fn fresh_upload(words: Vec<u32>, usage: u32) -> (upload: Upload)
        requires
            words@.len() <= 5 * u32::MAX,
        ensures
            upload.is_fresh(
                words@,
                BufferCreateInfo {
                    size: (4 * words@.len()) as u64,
                    usage,
                    memory_properties: MEMORY_DEVICE_LOCAL,
                },
            ),
    {
        let size: u64 = 4 * (words.len() as u64);
        let mut steps: Vec<UploadStep> = Vec::new();
        steps.push(UploadStep::CreateStagingBuffer);
        steps.push(UploadStep::WriteStagingMemory);
        steps.push(UploadStep::CreateDeviceBuffer);
        steps.push(UploadStep::CopyToDevice);
        steps.push(UploadStep::DestroyStagingBuffer);
        steps.push(UploadStep::FreeStagingMemory);
        assert(steps@ =~= upload_steps(true));
        Upload {
            words,
            staging: BufferCreateInfo {
                size,
                usage: BUFFER_TRANSFER_SRC | BUFFER_TRANSFER_DST,
                memory_properties: MEMORY_HOST_VISIBLE | MEMORY_HOST_COHERENT,
            },
            destination: Destination::Fresh(
                BufferCreateInfo { size, usage, memory_properties: MEMORY_DEVICE_LOCAL },
            ),
            steps,
            copy: Self::copy_buffer(size),
        }
    }

    fn in_place_upload(words: Vec<u32>) -> (upload: Upload)
        requires
            words@.len() <= 5 * u32::MAX,
        ensures
            upload.is_in_place(words@),
    {
        let size: u64 = 4 * (words.len() as u64);
        let mut steps: Vec<UploadStep> = Vec::new();
        steps.push(UploadStep::CreateStagingBuffer);
        steps.push(UploadStep::WriteStagingMemory);
        steps.push(UploadStep::CopyToDevice);
        steps.push(UploadStep::DestroyStagingBuffer);
        steps.push(UploadStep::FreeStagingMemory);
        assert(steps@ =~= upload_steps(false));
        Upload {
            words,
            staging: BufferCreateInfo {
                size,
                usage: BUFFER_TRANSFER_SRC,
                memory_properties: MEMORY_HOST_COHERENT | MEMORY_HOST_VISIBLE,
            },
            destination: Destination::Existing,
            steps,
            copy: Self::copy_buffer(size),
        }
    }
}

} // verus!
