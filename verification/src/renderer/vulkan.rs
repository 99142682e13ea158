//! The Vulkan renderer, component by component, and the renderer that
//! holds them together.
use vstd::prelude::*;

pub mod command;
pub mod descriptor;
pub mod device;
pub mod error;
pub mod flags;
pub mod geometry;
pub mod instance;
pub mod pipeline;
pub mod swapchain;
pub mod sync;
pub mod teardown;

pub use crate::renderer::vertex::Vertex;
pub use command::{Command, VKCommandPool};
pub use descriptor::{Matrix4, UniformBufferObject, UniformWrite, VKDescriptorPool};
pub use device::VKDevice;
pub use error::RendererError;
pub use geometry::{find_memory_type, GeometryUpload, VertexBuffer};
pub use instance::VKInstance;
pub use pipeline::VKPipeline;
pub use swapchain::{Extent2D, VKFramebuffers, VKRenderPass, VKSwapchain};
pub use sync::VKSynchroniser;
pub use teardown::TeardownStep;

use command::is_recording;
use swapchain::PIPELINE_STAGE_COLOR_ATTACHMENT_OUTPUT;
use teardown::{recreate_steps, teardown_steps};

verus! {

/// Frames the host may prepare while the GPU is still working.
pub const MAX_FRAMES_IN_FLIGHT: u32 = 2;

/// How long to wait for a fence or an image: without limit.
pub const NO_TIMEOUT: u64 = 0xFFFF_FFFF_FFFF_FFFF;

/// Where the renderer stands between two steps.
#[derive(Clone, Copy, Debug, PartialEq, Eq, Structural)]
pub enum Phase {
    /// A frame may be started.
    Ready,
    /// A frame was submitted and its presentation is awaited.
    Submitted,
    /// The swapchain is out of date and has to be recreated before the
    /// next frame.
    Stale,
    /// The swapchain, render pass, framebuffers and command buffers were
    /// given up; new ones are awaited.
    Rebuilding,
}

/// How acquiring the next image went.
#[derive(Clone, Copy, Debug, PartialEq, Eq, Structural)]
pub enum AcquireOutcome {
    /// This image was acquired.
    Image(u32),
    /// The surface no longer matches the swapchain.
    OutOfDate,
    /// Anything else went wrong.
    Failed,
}

/// How presenting went.
#[derive(Clone, Copy, Debug, PartialEq, Eq, Structural)]
pub enum PresentOutcome {
    Presented,
    /// Presented, but the swapchain no longer matches the surface well.
    Suboptimal,
    /// The surface no longer matches the swapchain.
    OutOfDate,
    /// Anything else went wrong.
    Failed,
}

/// A semaphore of a frame slot.
#[derive(Clone, Copy, Debug, PartialEq, Eq, Structural)]
pub enum Semaphore {
    /// Signalled when the slot's image has been acquired.
    ImageAvailable(u32),
    /// Signalled when the slot's rendering has finished.
    RenderFinished(u32),
}

/// How a frame starts: the fence to wait for and the semaphore to
/// acquire the next image with, both without a timeout.
#[derive(Clone, Copy, Debug, PartialEq, Eq, Structural)]
pub struct FrameStart {
    /// The swapchain generation to acquire from.
    pub generation: u64,
    /// The slot whose in-flight fence is waited for.
    pub fence: u32,
    pub semaphore: Semaphore,
    pub timeout: u64,
}

/// One step of a frame after its image has been acquired.
#[derive(Clone, Copy, Debug, PartialEq, Eq, Structural)]
pub enum FrameStep {
    /// Writes the matrices into the uniform buffer of the image.
    WriteUniformBuffer,
    /// Resets the fence of the slot.
    ResetFence,
    /// Submits the command buffer of the image to the graphics queue.
    Submit,
    /// Presents the image on the presentation queue.
    Present,
}

/// One step of replacing the geometry.
#[derive(Clone, Copy, Debug, PartialEq, Eq, Structural)]
pub enum RefillStep {
    /// Carries out the transfer of the vertices.
    UploadVertices,
    /// Carries out the transfer of the indices.
    UploadIndices,
    /// Waits until the device has finished all work handed to it.
    DeviceWaitIdle,
    /// Resets every command buffer.
    ResetCommandBuffers,
    /// Records every command buffer as the recording says.
    RecordCommandBuffers,
    /// Destroys the vertex and index buffers that were replaced.
    DestroyRetiredBuffers,
    /// Frees the memory of the buffers that were replaced.
    FreeRetiredMemory,
}

/// One step of putting a new swapchain to use, once it, its render pass
/// and its framebuffers exist.
#[derive(Clone, Copy, Debug, PartialEq, Eq, Structural)]
pub enum InstallStep {
    /// Allocates one command buffer for each framebuffer.
    AllocateCommandBuffers,
    /// Records every command buffer as the recording says.
    RecordCommandBuffers,
}

/// One frame's work on the queues.
#[derive(Clone, Debug, PartialEq, Eq)]
pub struct Submission {
    /// The swapchain generation whose command buffer is submitted and
    /// whose image is presented.
    pub generation: u64,
    pub image_index: u32,
    pub uniform: UniformWrite,
    /// The command buffer submitted, by position.
    pub command_buffer: u32,
    pub wait_semaphore: Semaphore,
    pub wait_stage: u32,
    pub signal_semaphore: Semaphore,
    /// The slot whose fence is reset before and signalled by the submit.
    pub fence: u32,
    pub present_wait: Semaphore,
    /// What to do, in order.
    pub steps: Vec<FrameStep>,
}

/// What to do once the image has or has not been acquired.
#[derive(Clone, Debug, PartialEq, Eq)]
pub enum FrameAction {
    Draw(Submission),
    /// Draw nothing; recreate the swapchain.
    Recreate,
}

/// What the command buffers were last recorded against.
#[derive(Clone, Copy, Debug, PartialEq, Eq, Structural)]
pub struct Recorded {
    pub swapchain_generation: u64,
    pub geometry_generation: u64,
    pub extent: Extent2D,
    pub index_count: u32,
}

/// The swapchain generation given up, and the steps that destroy what
/// belonged to it.
#[derive(Clone, Debug, PartialEq, Eq)]
pub struct Retirement {
    pub generation: u64,
    pub steps: Vec<TeardownStep>,
}

/// What follows the installation of a new swapchain.
#[derive(Clone, Debug, PartialEq, Eq)]
pub struct Recreated {
    pub generation: u64,
    /// What to record into the new command buffers.
    pub recording: Vec<Vec<Command>>,
    /// What to do, in order.
    pub steps: Vec<InstallStep>,
}

/// What follows a change of geometry.
#[derive(Clone, Debug, PartialEq, Eq)]
pub struct Refill {
    pub upload: GeometryUpload,
    /// What to record into the command buffers, if they have to be
    /// recorded again.
    pub recording: Option<Vec<Vec<Command>>>,
    /// What to do, in order.
    pub steps: Vec<RefillStep>,
}

/// The steps of a frame once its image has been acquired: the uniform
/// buffer is written and the fence reset before the submit, and the
/// image is presented after it.
pub open spec fn frame_steps() -> Seq<FrameStep> {
    seq![
        FrameStep::WriteUniformBuffer,
        FrameStep::ResetFence,
        FrameStep::Submit,
        FrameStep::Present,
    ]
}

/// The steps of putting a new swapchain to use: the command buffers are
/// allocated and then recorded. Nothing else is touched.
pub open spec fn install_steps() -> Seq<InstallStep> {
    seq![InstallStep::AllocateCommandBuffers, InstallStep::RecordCommandBuffers]
}

/// The steps of replacing the geometry. Data that goes into the buffers
/// that exist is just transferred. Data that gets fresh buffers is
/// transferred first; then, with the device idle, the command buffers
/// are recorded against the fresh buffers and the old ones destroyed.
pub open spec fn refill_steps(fresh: bool) -> Seq<RefillStep> {
    let transfers = seq![RefillStep::UploadVertices, RefillStep::UploadIndices];
    if fresh {
        transfers + seq![
            RefillStep::DeviceWaitIdle,
            RefillStep::ResetCommandBuffers,
            RefillStep::RecordCommandBuffers,
            RefillStep::DestroyRetiredBuffers,
            RefillStep::FreeRetiredMemory,
        ]
    } else {
        transfers
    }
}

/// The renderer.
#[derive(Clone, Debug, PartialEq, Eq)]
pub struct Implementation {
    pub instance: VKInstance,
    pub device: VKDevice,
    pub swapchain: VKSwapchain,
    pub render_pass: VKRenderPass,
    pub framebuffers: VKFramebuffers,
    pub pipeline: VKPipeline,
    pub vertex_buffer: VertexBuffer,
    pub command_pool: VKCommandPool,
    pub synchroniser: VKSynchroniser,
    pub descriptor: VKDescriptorPool,
    pub phase: Phase,
    /// How often the swapchain has been recreated.
    pub generation: u64,
    pub recorded: Recorded,
}

/// Why the parts cannot be put together, if they cannot.
pub open spec fn misfit(
    swapchain: VKSwapchain,
    render_pass: VKRenderPass,
    framebuffers: VKFramebuffers,
    command_buffers: u32,
    descriptor: VKDescriptorPool,
) -> Option<RendererError> {
    if framebuffers.count == 0 {
        Some(RendererError::NoSwapchainImages)
    } else if render_pass.format() != swapchain.format.format || framebuffers.extent()
        != swapchain.extent || command_buffers != framebuffers.count {
        Some(RendererError::MismatchedParts)
    } else if framebuffers.count > descriptor.buffer_count {
        Some(RendererError::TooManyImages)
    } else {
        None
    }
}

/// Why the parts cannot make a renderer, if they cannot: the frame slots
/// and the geometry have to be sound in themselves, and the rest has to
/// fit together.
pub open spec fn unfit(
    swapchain: VKSwapchain,
    render_pass: VKRenderPass,
    framebuffers: VKFramebuffers,
    command_buffers: u32,
    descriptor: VKDescriptorPool,
    vertex_buffer: VertexBuffer,
    synchroniser: VKSynchroniser,
) -> Option<RendererError> {
    if synchroniser.max_frames_in_flight == 0 {
        Some(RendererError::NoFramesInFlight)
    } else if !synchroniser.wf() {
        Some(RendererError::MismatchedParts)
    } else if !vertex_buffer.wf() {
        Some(RendererError::NoIndices)
    } else {
        misfit(swapchain, render_pass, framebuffers, command_buffers, descriptor)
    }
}

fn find_misfit(
    swapchain: &VKSwapchain,
    render_pass: &VKRenderPass,
    framebuffers: &VKFramebuffers,
    command_buffers: u32,
    descriptor: &VKDescriptorPool,
) -> (found: Option<RendererError>)
    ensures
        found == misfit(*swapchain, *render_pass, *framebuffers, command_buffers, *descriptor),
{
    if framebuffers.count == 0 {
        Some(RendererError::NoSwapchainImages)
    } else if render_pass.color_attachment.format != swapchain.format.format
        || framebuffers.width != swapchain.extent.width || framebuffers.height
        != swapchain.extent.height || command_buffers != framebuffers.count {
        Some(RendererError::MismatchedParts)
    } else if framebuffers.count > descriptor.buffer_count {
        Some(RendererError::TooManyImages)
    } else {
        None
    }
}

impl Implementation {
    /// What command buffers recorded now would be recorded against.
    pub open spec fn current(&self) -> Recorded {
        Recorded {
            swapchain_generation: self.generation,
            geometry_generation: self.vertex_buffer.generation,
            extent: self.swapchain.extent,
            index_count: self.vertex_buffer.indices_count,
        }
    }

    /// The swapchain and what depends on it exist.
    pub open spec fn live(&self) -> bool {
        self.phase != Phase::Rebuilding
    }

    /// The parts fit together, and while the swapchain exists the command
    /// buffers hold what would be recorded now.
    pub open spec fn wf(&self) -> bool {
        &&& self.synchroniser.wf()
        &&& self.vertex_buffer.wf()
        &&& self.live() ==> {
            &&& misfit(
                self.swapchain,
                self.render_pass,
                self.framebuffers,
                self.command_pool.count,
                self.descriptor,
            ) is None
            &&& self.recorded == self.current()
        }
    }

    /// Whether the renderer is well formed.
    pub fn is_well_formed(&self) -> (ok: bool)
        ensures
            ok == self.wf(),
    {
        let parts = self.synchroniser.current_frame < self.synchroniser.max_frames_in_flight
            && self.vertex_buffer.indices_count >= 1;
        match self.phase {
            Phase::Rebuilding => parts,
            _ => {
                let fit = find_misfit(
                    &self.swapchain,
                    &self.render_pass,
                    &self.framebuffers,
                    self.command_pool.count,
                    &self.descriptor,
                );
                parts && fit.is_none() && self.recorded.swapchain_generation == self.generation
                    && self.recorded.geometry_generation == self.vertex_buffer.generation
                    && self.recorded.extent.width == self.swapchain.extent.width
                    && self.recorded.extent.height == self.swapchain.extent.height
                    && self.recorded.index_count == self.vertex_buffer.indices_count
            },
        }
    }

    /// `submission` is the work of one frame on image `image`, in the
    /// current slot, with these matrices.
    pub open spec fn submits(
        &self,
        submission: Submission,
        image: u32,
        model: Matrix4,
        view: Matrix4,
        proj: Matrix4,
    ) -> bool {
        let slot = self.synchroniser.current_frame;
        &&& submission.generation == self.generation
        &&& submission.image_index == image
        &&& submission.uniform.buffer == image
        &&& submission.uniform.offset == 0
        &&& submission.uniform.words@ == model@ + view@ + proj@
        &&& submission.command_buffer == image
        &&& submission.wait_semaphore == Semaphore::ImageAvailable(slot)
        &&& submission.wait_stage == PIPELINE_STAGE_COLOR_ATTACHMENT_OUTPUT
        &&& submission.signal_semaphore == Semaphore::RenderFinished(slot)
        &&& submission.fence == slot
        &&& submission.present_wait == Semaphore::RenderFinished(slot)
        &&& submission.steps@ == frame_steps()
    }

    /// Puts the renderer together from its parts and says what to record
    /// into the command buffers.
    ///
    /// Fails as `unfit` says when the parts are not sound or were not
    /// made for one another.
    pub fn new(
        instance: VKInstance,
        device: VKDevice,
        swapchain: VKSwapchain,
        render_pass: VKRenderPass,
        framebuffers: VKFramebuffers,
        descriptor: VKDescriptorPool,
        pipeline: VKPipeline,
        command_pool: VKCommandPool,
        vertex_buffer: VertexBuffer,
        synchroniser: VKSynchroniser,
    ) -> (made: Result<(Self, Vec<Vec<Command>>), RendererError>)
        ensures
            match unfit(
                swapchain,
                render_pass,
                framebuffers,
                command_pool.count,
                descriptor,
                vertex_buffer,
                synchroniser,
            ) {
                Some(error) => made matches Err(e) && e == error,
                None => {
                    &&& made matches Ok((renderer, recording))
                    &&& renderer.wf()
                    &&& renderer.phase == Phase::Ready
                    &&& renderer.generation == 0
                    &&& renderer.instance == instance
                    &&& renderer.device == device
                    &&& renderer.swapchain == swapchain
                    &&& renderer.render_pass == render_pass
                    &&& renderer.framebuffers == framebuffers
                    &&& renderer.descriptor == descriptor
                    &&& renderer.pipeline == pipeline
                    &&& renderer.command_pool == command_pool
                    &&& renderer.vertex_buffer == vertex_buffer
                    &&& renderer.synchroniser == synchroniser
                    &&& is_recording(
                        recording@,
                        command_pool.count,
                        swapchain.extent,
                        vertex_buffer.indices_count,
                    )
                },
            },
    {
        if synchroniser.max_frames_in_flight == 0 {
            return Err(RendererError::NoFramesInFlight);
        }
        if synchroniser.current_frame >= synchroniser.max_frames_in_flight {
            return Err(RendererError::MismatchedParts);
        }
        if vertex_buffer.indices_count == 0 {
            return Err(RendererError::NoIndices);
        }
        match find_misfit(&swapchain, &render_pass, &framebuffers, command_pool.count, &descriptor) {
            Some(error) => {
                return Err(error);
            },
            None => {},
        }
        let recording = command_pool.recordings(&swapchain.extent, vertex_buffer.indices_count);
        let recorded = Recorded {
            swapchain_generation: 0,
            geometry_generation: vertex_buffer.generation,
            extent: swapchain.extent,
            index_count: vertex_buffer.indices_count,
        };
        Ok(
            (
                Implementation {
                    instance,
                    device,
                    swapchain,
                    render_pass,
                    framebuffers,
                    pipeline,
                    vertex_buffer,
                    command_pool,
                    synchroniser,
                    descriptor,
                    phase: Phase::Ready,
                    generation: 0,
                    recorded,
                },
                recording,
            ),
        )
    }

    /// How a frame starts, or why none can be started.
    pub open spec fn started(&self) -> Result<FrameStart, RendererError> {
        if !self.wf() {
            Err(RendererError::MismatchedParts)
        } else if self.phase != Phase::Ready {
            Err(RendererError::OutOfSequence)
        } else {
            Ok(
                FrameStart {
                    generation: self.generation,
                    fence: self.synchroniser.current_frame,
                    semaphore: Semaphore::ImageAvailable(self.synchroniser.current_frame),
                    timeout: NO_TIMEOUT,
                },
            )
        }
    }

    /// Starts a frame: says which fence to wait for and which semaphore
    /// to acquire the next image with.
    ///
    /// Fails with `MismatchedParts` when the renderer is not well formed
    /// and with `OutOfSequence` when no frame may be started.
    pub fn draw_frame(&self) -> (made: Result<FrameStart, RendererError>)
        ensures
            made == self.started(),
    {
        if !self.is_well_formed() {
            return Err(RendererError::MismatchedParts);
        }
        match self.phase {
            Phase::Ready => Ok(
                FrameStart {
                    generation: self.generation,
                    fence: self.synchroniser.current_frame,
                    semaphore: Semaphore::ImageAvailable(self.synchroniser.current_frame),
                    timeout: NO_TIMEOUT,
                },
            ),
            _ => Err(RendererError::OutOfSequence),
        }
    }

    /// Decides the frame once acquiring has returned.
    ///
    /// An acquired image is drawn to and presented. A stale swapchain is
    /// not drawn to: the frame is skipped, the slot stays current and the
    /// swapchain is to be recreated. Fails with `MismatchedParts` when
    /// the renderer is not well formed, with `OutOfSequence` unless a
    /// frame may be started, with `AcquireFailed` on any other failure
    /// to acquire, and with `ImageIndexOutOfRange` when the image has no
    /// command buffer.
    pub fn image_acquired(
        &mut self,
        outcome: AcquireOutcome,
        model_matrix: &Matrix4,
        view_matrix: &Matrix4,
        proj_matrix: &Matrix4,
    ) -> (made: Result<FrameAction, RendererError>)
        ensures
            old(self).wf() ==> final(self).wf(),
            match old(self).acquired(outcome) {
                Err(error) => made matches Err(e) && e == error && *final(self) == *old(self),
                Ok(phase) => {
                    &&& *final(self) == (Implementation { phase, ..*old(self) })
                    &&& match outcome {
                        AcquireOutcome::Image(image) => {
                            &&& made matches Ok(FrameAction::Draw(submission))
                            &&& old(self).submits(
                                submission,
                                image,
                                *model_matrix,
                                *view_matrix,
                                *proj_matrix,
                            )
                        },
                        _ => made matches Ok(FrameAction::Recreate),
                    }
                },
            },
    {
        if !self.is_well_formed() {
            return Err(RendererError::MismatchedParts);
        }
        match self.phase {
            Phase::Ready => {},
            _ => {
                return Err(RendererError::OutOfSequence);
            },
        }
        match outcome {
            AcquireOutcome::OutOfDate => {
                self.phase = Phase::Stale;
                Ok(FrameAction::Recreate)
            },
            AcquireOutcome::Failed => Err(RendererError::AcquireFailed),
            AcquireOutcome::Image(image) => {
                if image >= self.command_pool.count {
                    return Err(RendererError::ImageIndexOutOfRange);
                }
                let uniform = match self.descriptor.update_uniform_buffer(
                    image,
                    model_matrix,
                    view_matrix,
                    proj_matrix,
                ) {
                    Ok(uniform) => uniform,
                    Err(error) => {
                        return Err(error);
                    },
                };
                let slot = self.synchroniser.current_frame;
                let mut steps: Vec<FrameStep> = Vec::new();
                steps.push(FrameStep::WriteUniformBuffer);
                steps.push(FrameStep::ResetFence);
                steps.push(FrameStep::Submit);
                steps.push(FrameStep::Present);
                assert(steps@ =~= frame_steps());
                self.phase = Phase::Submitted;
                Ok(
                    FrameAction::Draw(
                        Submission {
                            generation: self.generation,
                            image_index: image,
                            uniform,
                            command_buffer: image,
                            wait_semaphore: Semaphore::ImageAvailable(slot),
                            wait_stage: PIPELINE_STAGE_COLOR_ATTACHMENT_OUTPUT,
                            signal_semaphore: Semaphore::RenderFinished(slot),
                            fence: slot,
                            present_wait: Semaphore::RenderFinished(slot),
                            steps,
                        },
                    ),
                )
            },
        }
    }

    /// The phase that follows an attempt to acquire, or why the attempt
    /// ends the renderer.
    pub open spec fn acquired(&self, outcome: AcquireOutcome) -> Result<Phase, RendererError> {
        if !self.wf() {
            Err(RendererError::MismatchedParts)
        } else if self.phase != Phase::Ready {
            Err(RendererError::OutOfSequence)
        } else {
            match outcome {
                AcquireOutcome::OutOfDate => Ok(Phase::Stale),
                AcquireOutcome::Failed => Err(RendererError::AcquireFailed),
                AcquireOutcome::Image(image) => if image < self.command_pool.count {
                    Ok(Phase::Submitted)
                } else {
                    Err(RendererError::ImageIndexOutOfRange)
                },
            }
        }
    }

    /// Ends the frame once presenting has returned, and says whether the
    /// swapchain is to be recreated before the next frame.
    ///
    /// Whether or not the swapchain has gone stale the frame counts as
    /// handled and the next slot becomes current. Fails with
    /// `MismatchedParts` when the renderer is not well formed, with
    /// `OutOfSequence` when nothing was submitted and with `PresentFailed`
    /// on any other failure to present.
    pub fn frame_presented(&mut self, outcome: PresentOutcome) -> (made: Result<bool, RendererError>)
        ensures
            old(self).wf() ==> final(self).wf(),
            match old(self).presented(outcome) {
                Err(error) => made matches Err(e) && e == error && *final(self) == *old(self),
                Ok(phase) => {
                    &&& made matches Ok(recreate)
                    &&& recreate == (phase == Phase::Stale)
                    &&& *final(self) == (Implementation {
                        phase,
                        synchroniser: old(self).synchroniser.advanced(),
                        ..*old(self)
                    })
                },
            },
    {
        if !self.is_well_formed() {
            return Err(RendererError::MismatchedParts);
        }
        match self.phase {
            Phase::Submitted => {},
            _ => {
                return Err(RendererError::OutOfSequence);
            },
        }
        let recreate = match outcome {
            PresentOutcome::Presented => false,
            PresentOutcome::Suboptimal => true,
            PresentOutcome::OutOfDate => true,
            PresentOutcome::Failed => {
                return Err(RendererError::PresentFailed);
            },
        };
        self.phase = if recreate {
            Phase::Stale
        } else {
            Phase::Ready
        };
        self.synchroniser.advance();
        Ok(recreate)
    }

    /// The phase that follows an attempt to present, or why the attempt
    /// ends the renderer.
    pub open spec fn presented(&self, outcome: PresentOutcome) -> Result<Phase, RendererError> {
        if !self.wf() {
            Err(RendererError::MismatchedParts)
        } else if self.phase != Phase::Submitted {
            Err(RendererError::OutOfSequence)
        } else {
            match outcome {
                PresentOutcome::Presented => Ok(Phase::Ready),
                PresentOutcome::Suboptimal => Ok(Phase::Stale),
                PresentOutcome::OutOfDate => Ok(Phase::Stale),
                PresentOutcome::Failed => Err(RendererError::PresentFailed),
            }
        }
    }

    /// The renderer once the swapchain has been given up, or why it
    /// cannot be given up now.
    pub open spec fn retired(&self) -> Result<Implementation, RendererError> {
        if !self.wf() {
            Err(RendererError::MismatchedParts)
        } else if self.phase == Phase::Ready || self.phase == Phase::Stale {
            Ok(Implementation { phase: Phase::Rebuilding, ..*self })
        } else {
            Err(RendererError::OutOfSequence)
        }
    }

    /// Gives up the swapchain, the render pass, the framebuffers and the
    /// command buffers, all at once: says to wait for the device and then
    /// to destroy them. Until new ones are installed no frame can be
    /// started.
    ///
    /// Fails with `MismatchedParts` when the renderer is not well formed,
    /// and with `OutOfSequence` while a frame awaits presentation and
    /// while they are given up already.
    pub fn recreate_swapchain(&mut self) -> (made: Result<Retirement, RendererError>)
        ensures
            old(self).wf() ==> final(self).wf(),
            match old(self).retired() {
                Err(error) => made matches Err(e) && e == error && *final(self) == *old(self),
                Ok(next) => {
                    &&& made matches Ok(retirement)
                    &&& retirement.generation == old(self).generation
                    &&& retirement.steps@ == recreate_steps()
                    &&& *final(self) == next
                },
            },
    {
        if !self.is_well_formed() {
            return Err(RendererError::MismatchedParts);
        }
        match self.phase {
            Phase::Ready | Phase::Stale => {},
            _ => {
                return Err(RendererError::OutOfSequence);
            },
        }
        let mut steps: Vec<TeardownStep> = Vec::new();
        steps.push(TeardownStep::DeviceWaitIdle);
        let mut cleanup = self.cleanup_swapchain();
        steps.append(&mut cleanup);
        self.phase = Phase::Rebuilding;
        Ok(Retirement { generation: self.generation, steps })
    }

    /// The steps that destroy the swapchain and what was made for it.
    pub fn cleanup_swapchain(&self) -> (steps: Vec<TeardownStep>)
        ensures
            steps@ == teardown::cleanup_steps(),
    {
        let mut steps: Vec<TeardownStep> = Vec::new();
        steps.push(TeardownStep::FreeCommandBuffers);
        steps.push(TeardownStep::DestroyFramebuffers);
        steps.push(TeardownStep::DestroyRenderPass);
        steps.push(TeardownStep::DestroyImageViews);
        steps.push(TeardownStep::DestroySwapchain);
        assert(steps@ =~= teardown::cleanup_steps());
        steps
    }

    /// The renderer once a new swapchain, render pass and framebuffers
    /// have been installed, or why they cannot be.
    pub open spec fn rebuilt(
        &self,
        swapchain: VKSwapchain,
        render_pass: VKRenderPass,
        framebuffers: VKFramebuffers,
    ) -> Result<Implementation, RendererError> {
        if !self.wf() {
            Err(RendererError::MismatchedParts)
        } else if self.phase != Phase::Rebuilding {
            Err(RendererError::OutOfSequence)
        } else {
            match misfit(swapchain, render_pass, framebuffers, framebuffers.count, self.descriptor) {
                Some(error) => Err(error),
                None => if self.generation == u64::MAX {
                    Err(RendererError::GenerationExhausted)
                } else {
                    Ok(
                        Implementation {
                            swapchain,
                            render_pass,
                            framebuffers,
                            command_pool: VKCommandPool {
                                count: framebuffers.count,
                                ..self.command_pool
                            },
                            phase: Phase::Ready,
                            generation: (self.generation + 1) as u64,
                            recorded: Recorded {
                                swapchain_generation: (self.generation + 1) as u64,
                                geometry_generation: self.vertex_buffer.generation,
                                extent: swapchain.extent,
                                index_count: self.vertex_buffer.indices_count,
                            },
                            ..*self
                        },
                    )
                },
            }
        }
    }

    /// Installs the new swapchain, render pass and framebuffers together,
    /// with one command buffer for each framebuffer, and says what to
    /// record into the command buffers. Whatever the new format and
    /// extent, nothing but the command buffers is touched: the pipeline,
    /// the geometry, the uniform buffers and descriptor sets, the command
    /// pool, the frame slots, the device and the instance stay as they
    /// are.
    ///
    /// Fails with `MismatchedParts` when the renderer is not well formed,
    /// with `OutOfSequence` unless the old ones were given up, as `misfit`
    /// says when the new ones were not made for one another, and with
    /// `GenerationExhausted` when the generation cannot advance.
    pub fn swapchain_recreated(
        &mut self,
        swapchain: VKSwapchain,
        render_pass: VKRenderPass,
        framebuffers: VKFramebuffers,
    ) -> (made: Result<Recreated, RendererError>)
        ensures
            old(self).wf() ==> final(self).wf(),
            match old(self).rebuilt(swapchain, render_pass, framebuffers) {
                Err(error) => made matches Err(e) && e == error && *final(self) == *old(self),
                Ok(next) => {
                    &&& made matches Ok(recreated)
                    &&& *final(self) == next
                    &&& recreated.generation == next.generation
                    &&& is_recording(
                        recreated.recording@,
                        framebuffers.count,
                        swapchain.extent,
                        old(self).vertex_buffer.indices_count,
                    )
                    &&& recreated.steps@ == install_steps()
                    &&& final(self).pipeline == old(self).pipeline
                    &&& final(self).vertex_buffer == old(self).vertex_buffer
                    &&& final(self).descriptor == old(self).descriptor
                    &&& final(self).synchroniser == old(self).synchroniser
                    &&& final(self).device == old(self).device
                    &&& final(self).instance == old(self).instance
                    &&& final(self).command_pool.queue_family_index
                        == old(self).command_pool.queue_family_index
                    &&& final(self).command_pool.flags == old(self).command_pool.flags
                },
            },
    {
        if !self.is_well_formed() {
            return Err(RendererError::MismatchedParts);
        }
        match self.phase {
            Phase::Rebuilding => {},
            _ => {
                return Err(RendererError::OutOfSequence);
            },
        }
        match find_misfit(&swapchain, &render_pass, &framebuffers, framebuffers.count, &self.descriptor) {
            Some(error) => {
                return Err(error);
            },
            None => {},
        }
        if self.generation == u64::MAX {
            return Err(RendererError::GenerationExhausted);
        }
        let command_pool = VKCommandPool {
            queue_family_index: self.command_pool.queue_family_index,
            flags: self.command_pool.flags,
            count: framebuffers.count,
        };
        let recording = command_pool.recordings(
            &swapchain.extent,
            self.vertex_buffer.indices_count,
        );
        let mut steps: Vec<InstallStep> = Vec::new();
        steps.push(InstallStep::AllocateCommandBuffers);
        steps.push(InstallStep::RecordCommandBuffers);
        assert(steps@ =~= install_steps());
        let generation = self.generation + 1;
        self.recorded = Recorded {
            swapchain_generation: generation,
            geometry_generation: self.vertex_buffer.generation,
            extent: swapchain.extent,
            index_count: self.vertex_buffer.indices_count,
        };
        self.swapchain = swapchain;
        self.render_pass = render_pass;
        self.framebuffers = framebuffers;
        self.command_pool = command_pool;
        self.generation = generation;
        self.phase = Phase::Ready;
        Ok(Recreated { generation, recording, steps })
    }

    /// The renderer once geometry of these counts has replaced what it
    /// draws, or why it cannot.
    pub open spec fn refilled(&self, vertices: int, indices: int) -> Result<
        Implementation,
        RendererError,
    > {
        if !self.wf() {
            Err(RendererError::MismatchedParts)
        } else if self.phase != Phase::Ready {
            Err(RendererError::OutOfSequence)
        } else {
            match self.vertex_buffer.updated(vertices, indices) {
                Err(error) => Err(error),
                Ok(vertex_buffer) => Ok(
                    Implementation {
                        vertex_buffer,
                        recorded: Recorded {
                            geometry_generation: vertex_buffer.generation,
                            index_count: vertex_buffer.indices_count,
                            ..self.recorded
                        },
                        ..*self
                    },
                ),
            }
        }
    }

    /// `refill` is what replacing the geometry by this data comes to:
    /// the transfers, and a recording of every command buffer with the
    /// new index count exactly when the data does not fit the buffers
    /// that exist.
    pub open spec fn refills(&self, refill: Refill, vertices: Seq<Vertex>, indices: Seq<u32>) -> bool {
        let fits = self.vertex_buffer.fits(vertices.len() as int, indices.len() as int);
        &&& self.vertex_buffer.replaced_by(refill.upload, vertices, indices)
        &&& refill.steps@ == refill_steps(!fits)
        &&& if fits {
            refill.recording is None
        } else {
            &&& refill.recording matches Some(buffers)
            &&& is_recording(
                buffers@,
                self.command_pool.count,
                self.swapchain.extent,
                indices.len() as u32,
            )
        }
    }

    /// Replaces the geometry and, where the command buffers no longer
    /// hold what is to be drawn, says what to record into them.
    ///
    /// Geometry with as many vertices and indices as before is copied
    /// into the buffers that exist, and the command buffers stay as they
    /// are. Any other geometry gets fresh buffers, and every command
    /// buffer is recorded again, once: with another index count because
    /// the count is part of the recorded draw, with another vertex count
    /// because the recorded buffers are gone.
    ///
    /// Fails with `MismatchedParts` when the renderer is not well formed,
    /// with `OutOfSequence` unless a frame may be started, and as
    /// `VertexBuffer::update_buffer` does.
    pub fn flush_and_refill_vertex_buffer(&mut self, vertices: Vec<Vertex>, indices: Vec<u32>) -> (made:
        Result<Refill, RendererError>)
        ensures
            old(self).wf() ==> final(self).wf(),
            match old(self).refilled(vertices@.len() as int, indices@.len() as int) {
                Err(error) => made matches Err(e) && e == error && *final(self) == *old(self),
                Ok(next) => {
                    &&& made matches Ok(refill)
                    &&& *final(self) == next
                    &&& old(self).refills(refill, vertices@, indices@)
                },
            },
    {
        if !self.is_well_formed() {
            return Err(RendererError::MismatchedParts);
        }
        match self.phase {
            Phase::Ready => {},
            _ => {
                return Err(RendererError::OutOfSequence);
            },
        }
        let upload = match self.vertex_buffer.update_buffer(vertices, indices) {
            Ok(upload) => upload,
            Err(error) => {
                return Err(error);
            },
        };
        let mut steps: Vec<RefillStep> = Vec::new();
        steps.push(RefillStep::UploadVertices);
        steps.push(RefillStep::UploadIndices);
        let recording = if upload.retires.is_some() {
            steps.push(RefillStep::DeviceWaitIdle);
            steps.push(RefillStep::ResetCommandBuffers);
            steps.push(RefillStep::RecordCommandBuffers);
            steps.push(RefillStep::DestroyRetiredBuffers);
            steps.push(RefillStep::FreeRetiredMemory);
            Some(
                self.command_pool.recordings(
                    &self.swapchain.extent,
                    self.vertex_buffer.indices_count,
                ),
            )
        } else {
            None
        };
        assert(steps@ =~= refill_steps(recording is Some));
        self.recorded = Recorded {
            swapchain_generation: self.recorded.swapchain_generation,
            geometry_generation: self.vertex_buffer.generation,
            extent: self.recorded.extent,
            index_count: self.vertex_buffer.indices_count,
        };
        Ok(Refill { upload, recording, steps })
    }

    /// Ends the renderer: says to wait for the device and then to destroy
    /// everything, last made first, and the swapchain and what was made
    /// for it only if they still exist.
    pub fn teardown(self) -> (steps: Vec<TeardownStep>)
        ensures
            steps@ == teardown_steps(self.live()),
    {
        let mut steps: Vec<TeardownStep> = Vec::new();
        steps.push(TeardownStep::DeviceWaitIdle);
        match self.phase {
            Phase::Rebuilding => {},
            _ => {
                let mut cleanup = self.cleanup_swapchain();
                steps.append(&mut cleanup);
            },
        }
        steps.push(TeardownStep::DestroyDescriptorPool);
        steps.push(TeardownStep::DestroyUniformBuffers);
        steps.push(TeardownStep::FreeUniformMemory);
        steps.push(TeardownStep::DestroyDescriptorSetLayout);
        steps.push(TeardownStep::DestroyPipeline);
        steps.push(TeardownStep::DestroyPipelineLayout);
        steps.push(TeardownStep::DestroyCommandPool);
        steps.push(TeardownStep::DestroySurface);
        steps.push(TeardownStep::DestroyVertexBuffer);
        steps.push(TeardownStep::DestroyIndexBuffer);
        steps.push(TeardownStep::FreeVertexMemory);
        steps.push(TeardownStep::FreeIndexMemory);
        steps.push(TeardownStep::DestroyRenderFinishedSemaphores);
        steps.push(TeardownStep::DestroyImageAvailableSemaphores);
        steps.push(TeardownStep::DestroyFences);
        steps.push(TeardownStep::DestroyDevice);
        steps.push(TeardownStep::DestroyInstance);
        assert(steps@ =~= teardown_steps(self.live()));
        steps
    }
}

/// Everything that comes back from the device during one frame: how
/// acquiring went, how presenting went if it came to that, and the
/// swapchain, render pass and framebuffers made if it came to recreation.
pub struct FrameEvents {
    pub acquire: AcquireOutcome,
    pub present: PresentOutcome,
    pub swapchain: VKSwapchain,
    pub render_pass: VKRenderPass,
    pub framebuffers: VKFramebuffers,
}

impl Implementation {
    /// The renderer after giving up its swapchain and installing the one
    /// made in its place.
    pub open spec fn recreated(&self, events: FrameEvents) -> Result<Implementation, RendererError> {
        match self.retired() {
            Err(error) => Err(error),
            Ok(between) => between.rebuilt(events.swapchain, events.render_pass, events.framebuffers),
        }
    }

    /// The renderer after one whole frame: started, acquired, and then
    /// either skipped and recreated, or submitted, presented and, where
    /// presenting found the swapchain stale, recreated.
    pub open spec fn frame(&self, events: FrameEvents) -> Result<Implementation, RendererError> {
        match self.acquired(events.acquire) {
            Err(error) => Err(error),
            Ok(phase) => {
                let acquired = Implementation { phase, ..*self };
                if phase == Phase::Stale {
                    acquired.recreated(events)
                } else {
                    match acquired.presented(events.present) {
                        Err(error) => Err(error),
                        Ok(phase) => {
                            let presented = Implementation {
                                phase,
                                synchroniser: self.synchroniser.advanced(),
                                ..*self
                            };
                            if phase == Phase::Stale {
                                presented.recreated(events)
                            } else {
                                Ok(presented)
                            }
                        },
                    }
                }
            },
        }
    }

    /// The renderer after a run of frames, while none of them fails.
    pub open spec fn frames(&self, events: Seq<FrameEvents>) -> Result<Implementation, RendererError>
        decreases events.len(),
    {
        if events.len() == 0 {
            Ok(*self)
        } else {
            match self.frames(events.drop_last()) {
                Err(error) => Err(error),
                Ok(renderer) => renderer.frame(events.last()),
            }
        }
    }
}

/// How many frames of the run were drawn rather than skipped.
pub open spec fn drawn(events: Seq<FrameEvents>) -> nat
    decreases events.len(),
{
    if events.len() == 0 {
        0
    } else {
        drawn(events.drop_last()) + if events.last().acquire is Image {
            1nat
        } else {
            0nat
        }
    }
}

/// One frame leaves the renderer ready for the next, and moves the
/// current slot on by one unless the frame was skipped.
pub proof fn lemma_frame(before: Implementation, events: FrameEvents)
    requires
        before.wf(),
        before.phase == Phase::Ready,
        before.frame(events) is Ok,
    ensures
        ({
            let after = before.frame(events)->Ok_0;
            &&& after.wf()
            &&& after.phase == Phase::Ready
            &&& after.generation >= before.generation
            &&& after.synchroniser == if events.acquire is Image {
                before.synchroniser.advanced()
            } else {
                before.synchroniser
            }
        }),
{
    if events.acquire is Image {
        vstd::arithmetic::div_mod::lemma_mod_bound(
            before.synchroniser.current_frame + 1,
            before.synchroniser.max_frames_in_flight as int,
        );
    }
}

/// Over any run of frames the current slot goes round the ring in order,
/// one step for every frame drawn: a run in which no frame is skipped
/// ends `events.len()` slots further round.
pub proof fn lemma_frames_round_robin(start: Implementation, events: Seq<FrameEvents>)
    requires
        start.wf(),
        start.phase == Phase::Ready,
        start.frames(events) is Ok,
    ensures
        ({
            let end = start.frames(events)->Ok_0;
            let slots = start.synchroniser.max_frames_in_flight as int;
            &&& end.wf()
            &&& end.phase == Phase::Ready
            &&& end.generation >= start.generation
            &&& end.synchroniser == start.synchroniser.advanced_by(drawn(events))
            &&& end.synchroniser.current_frame == (start.synchroniser.current_frame + drawn(events))
                % slots
            &&& (forall|i: int| 0 <= i < events.len() ==> events[i].acquire is Image)
                ==> end.synchroniser.current_frame == (start.synchroniser.current_frame
                + events.len()) % slots
        }),
    decreases events.len(),
{
    sync::lemma_round_robin(start.synchroniser, drawn(events));
    if events.len() > 0 {
        let earlier = events.drop_last();
        lemma_frames_round_robin(start, earlier);
        lemma_frame(start.frames(earlier)->Ok_0, events.last());
    }
    if forall|i: int| 0 <= i < events.len() ==> events[i].acquire is Image {
        lemma_all_drawn(events);
    }
}

/// A run without a skipped frame draws every frame.
pub proof fn lemma_all_drawn(events: Seq<FrameEvents>)
    requires
        forall|i: int| 0 <= i < events.len() ==> events[i].acquire is Image,
    ensures
        drawn(events) == events.len(),
    decreases events.len(),
{
    if events.len() > 0 {
        lemma_all_drawn(events.drop_last());
    }
}

/// A frame is drawn only with what exists: a renderer that hands out a
/// submission has its swapchain, and the submission names the live
/// generation, a command buffer recorded against that generation and
/// against the geometry as it is, and a uniform buffer of its own.
pub proof fn lemma_submission_names_live_resources(
    renderer: Implementation,
    submission: Submission,
    image: u32,
    model: Matrix4,
    view: Matrix4,
    proj: Matrix4,
)
    requires
        renderer.wf(),
        renderer.acquired(AcquireOutcome::Image(image)) is Ok,
        renderer.submits(submission, image, model, view, proj),
    ensures
        renderer.live(),
        submission.generation == renderer.generation,
        renderer.recorded.swapchain_generation == submission.generation,
        renderer.recorded.geometry_generation == renderer.vertex_buffer.generation,
        renderer.recorded.extent == renderer.swapchain.extent,
        renderer.recorded.index_count == renderer.vertex_buffer.indices_count,
        submission.command_buffer < renderer.command_pool.count,
        renderer.command_pool.count == renderer.framebuffers.count,
        submission.uniform.buffer < renderer.descriptor.buffer_count,
{
}

/// What a recreation retires is never drawn with again. Once the
/// swapchain has been given up no frame can be started or presented, and
/// what is installed in its place belongs to a later generation, against
/// which the command buffers are recorded before the next frame.
pub proof fn lemma_retired_generation_is_never_drawn(
    before: Implementation,
    swapchain: VKSwapchain,
    render_pass: VKRenderPass,
    framebuffers: VKFramebuffers,
)
    requires
        before.wf(),
        before.retired() is Ok,
    ensures
        ({
            let between = before.retired()->Ok_0;
            &&& between.wf()
            &&& !between.live()
            &&& forall|outcome: AcquireOutcome| between.acquired(outcome) is Err
            &&& forall|outcome: PresentOutcome| between.presented(outcome) is Err
            &&& forall|vertices: int, indices: int| between.refilled(vertices, indices) is Err
            &&& between.retired() is Err
            &&& between.rebuilt(swapchain, render_pass, framebuffers) matches Ok(after) ==> {
                &&& after.wf()
                &&& after.phase == Phase::Ready
                &&& after.generation > before.generation
                &&& after.recorded.swapchain_generation == after.generation
                &&& after.swapchain == swapchain
                &&& after.render_pass == render_pass
                &&& after.framebuffers == framebuffers
                &&& after.command_pool.count == framebuffers.count
            }
        }),
{
}

/// `value` stands in `steps` at `at` and nowhere else.
pub open spec fn only_at<T>(steps: Seq<T>, value: T, at: int) -> bool {
    &&& 0 <= at < steps.len()
    &&& forall|k: int| 0 <= k < steps.len() ==> ((#[trigger] steps[k]) == value <==> k == at)
}

/// `value` does not stand in `steps`.
pub open spec fn nowhere<T>(steps: Seq<T>, value: T) -> bool {
    forall|k: int| 0 <= k < steps.len() ==> (#[trigger] steps[k]) != value
}

/// Geometry with another index count than before has the command
/// buffers recorded again exactly once: the plan resets them once and
/// records them once, in that order and with the device idle, and the
/// recording holds every command buffer once, each with one begin, one
/// indexed draw of the new index count and one end. Geometry with the
/// same vertex and index counts as before is not recorded again at all.
pub proof fn lemma_refill_records_once(
    before: Implementation,
    refill: Refill,
    vertices: Seq<Vertex>,
    indices: Seq<u32>,
)
    requires
        before.refilled(vertices.len() as int, indices.len() as int) is Ok,
        before.refills(refill, vertices, indices),
    ensures
        indices.len() != before.vertex_buffer.indices_count ==> {
            &&& refill.recording matches Some(buffers)
            &&& buffers@.len() == before.command_pool.count
            &&& forall|i: int|
                0 <= i < before.command_pool.count ==> command::records_one_draw(
                    (#[trigger] buffers@[i])@,
                    indices.len() as u32,
                )
            &&& only_at(refill.steps@, RefillStep::DeviceWaitIdle, 2)
            &&& only_at(refill.steps@, RefillStep::ResetCommandBuffers, 3)
            &&& only_at(refill.steps@, RefillStep::RecordCommandBuffers, 4)
        },
        before.vertex_buffer.fits(vertices.len() as int, indices.len() as int) ==> {
            &&& refill.recording is None
            &&& nowhere(refill.steps@, RefillStep::ResetCommandBuffers)
            &&& nowhere(refill.steps@, RefillStep::RecordCommandBuffers)
        },
{
    if indices.len() != before.vertex_buffer.indices_count {
        let buffers = refill.recording->Some_0;
        assert forall|i: int| 0 <= i < before.command_pool.count implies command::records_one_draw(
            (#[trigger] buffers@[i])@,
            indices.len() as u32,
        ) by {
            command::lemma_recording_draws_once(
                i as u32,
                before.swapchain.extent,
                indices.len() as u32,
            );
        }
    }
}

/// Installing a new swapchain touches nothing but the swapchain, the
/// render pass, the framebuffers and the command buffers: the pipeline,
/// the geometry, the uniform buffers and descriptor sets, the frame
/// slots, the device and the instance are what they were, whatever the
/// format and extent of the new swapchain.
pub proof fn lemma_recreation_leaves_the_rest(
    before: Implementation,
    swapchain: VKSwapchain,
    render_pass: VKRenderPass,
    framebuffers: VKFramebuffers,
)
    requires
        before.rebuilt(swapchain, render_pass, framebuffers) is Ok,
    ensures
        ({
            let after = before.rebuilt(swapchain, render_pass, framebuffers)->Ok_0;
            &&& after.pipeline == before.pipeline
            &&& after.vertex_buffer == before.vertex_buffer
            &&& after.descriptor == before.descriptor
            &&& after.synchroniser == before.synchroniser
            &&& after.device == before.device
            &&& after.instance == before.instance
            &&& after.command_pool.queue_family_index == before.command_pool.queue_family_index
            &&& after.command_pool.flags == before.command_pool.flags
            &&& install_steps() == seq![
                InstallStep::AllocateCommandBuffers,
                InstallStep::RecordCommandBuffers,
            ]
        }),
{
}

/// Whatever step is taken from a well-formed renderer leads to a
/// well-formed renderer: in every state that can be reached the parts
/// fit together, and while the swapchain exists the command buffers hold
/// what would be recorded now.
pub proof fn lemma_every_step_keeps_well_formed(
    before: Implementation,
    acquire: AcquireOutcome,
    present: PresentOutcome,
    vertices: nat,
    indices: nat,
    swapchain: VKSwapchain,
    render_pass: VKRenderPass,
    framebuffers: VKFramebuffers,
)
    requires
        before.wf(),
    ensures
        before.acquired(acquire) matches Ok(phase) ==> (Implementation { phase, ..before }).wf(),
        before.presented(present) matches Ok(phase) ==> (Implementation {
            phase,
            synchroniser: before.synchroniser.advanced(),
            ..before
        }).wf(),
        before.retired() matches Ok(after) ==> after.wf(),
        before.rebuilt(swapchain, render_pass, framebuffers) matches Ok(after) ==> after.wf(),
        before.refilled(vertices as int, indices as int) matches Ok(after) ==> after.wf(),
{
    if before.presented(present) is Ok {
        vstd::arithmetic::div_mod::lemma_mod_bound(
            before.synchroniser.current_frame + 1,
            before.synchroniser.max_frames_in_flight as int,
        );
    }
}

/// The generation never goes back: giving up the swapchain and changing
/// the geometry leave it, installing a swapchain moves it on by one.
pub proof fn lemma_generation_is_monotonic(
    before: Implementation,
    vertices: int,
    indices: int,
    swapchain: VKSwapchain,
    render_pass: VKRenderPass,
    framebuffers: VKFramebuffers,
)
    requires
        before.wf(),
    ensures
        before.retired() matches Ok(after) ==> after.generation == before.generation,
        before.refilled(vertices, indices) matches Ok(after) ==> after.generation
            == before.generation,
        before.rebuilt(swapchain, render_pass, framebuffers) matches Ok(after) ==> after.generation
            == before.generation + 1,
{
}

} // verus!
