use vkapp::renderer::vertex::{square, Vertex};
use vkapp::renderer::vulkan::command::Command;
use vkapp::renderer::vulkan::device::{PhysicalDevice, QueueFamily};
use vkapp::renderer::vulkan::geometry::Destination;
use vkapp::renderer::vulkan::instance::Platform;
use vkapp::renderer::vulkan::swapchain::{SurfaceCapabilitiesKHR, SurfaceFormatKHR};
use vkapp::renderer::vulkan::{
    AcquireOutcome, Extent2D, FrameAction, FrameStart, FrameStep, Implementation, InstallStep,
    Matrix4, Phase,
    PresentOutcome, Recorded, RefillStep, RendererError, Semaphore, Submission, TeardownStep,
    VKCommandPool,
    VKDescriptorPool, VKDevice, VKFramebuffers, VKInstance, VKPipeline, VKRenderPass,
    VKSwapchain, VKSynchroniser, VertexBuffer, MAX_FRAMES_IN_FLIGHT,
};

fn vertex(x: f32, y: f32, r: f32, g: f32, b: f32) -> Vertex {
    Vertex { pos: [x.to_bits(), y.to_bits()], color: [r.to_bits(), g.to_bits(), b.to_bits()] }
}

fn triangle() -> (Vec<Vertex>, Vec<u32>) {
    (
        vec![
            vertex(-0.5, -0.5, 1.0, 1.0, 1.0),
            vertex(0.5, -0.5, 1.0, 0.0, 0.0),
            vertex(0.5, 0.5, 0.0, 1.0, 0.0),
        ],
        vec![0, 1, 2],
    )
}

fn eight_vertices() -> (Vec<Vertex>, Vec<u32>) {
    let mut vertices = Vec::new();
    for i in 0..8 {
        vertices.push(vertex(i as f32, -(i as f32), 1.0, 0.5, 0.0));
    }
    (vertices, vec![0, 1, 2, 2, 3, 0, 4, 5, 6, 6, 7, 4])
}

fn identity() -> Matrix4 {
    let mut matrix = [0u32; 16];
    for i in 0..4 {
        matrix[5 * i] = 1.0f32.to_bits();
    }
    matrix
}

fn swapchain(width: u32, height: u32, format: i32) -> VKSwapchain {
    let formats = vec![
        SurfaceFormatKHR { format: 44, color_space: 0 },
        SurfaceFormatKHR { format, color_space: 0 },
    ];
    let capabilities = SurfaceCapabilitiesKHR {
        min_image_count: 2,
        max_image_count: 8,
        current_extent: Extent2D { width, height },
        max_image_extent: Extent2D { width: 4096, height: 4096 },
        current_transform: 1,
    };
    VKSwapchain::new(&formats, &capabilities, &vec![2], 0, 0).unwrap()
}

fn parts(
    images: u32,
    uniforms: u32,
    geometry: (Vec<Vertex>, Vec<u32>),
) -> Result<(Implementation, Vec<Vec<Command>>), RendererError> {
    let instance = VKInstance::new(false, Platform::Unix);
    let devices = vec![PhysicalDevice {
        device_type: 2,
        queue_families: vec![QueueFamily { queue_flags: 0x7, present_support: true }],
    }];
    let device = VKDevice::new(&devices)?;
    let swapchain = swapchain(800, 600, 50);
    let render_pass = VKRenderPass::new(swapchain.format.format);
    let framebuffers = VKFramebuffers::new(images, &swapchain.extent);
    let descriptor = VKDescriptorPool::new(uniforms);
    let pipeline = VKPipeline::new();
    let command_pool = VKCommandPool::new(device.graphics_queue, framebuffers.count);
    let (vertex_buffer, _) = VertexBuffer::new(geometry.0, geometry.1)?;
    let synchroniser = VKSynchroniser::new(MAX_FRAMES_IN_FLIGHT)?;
    Implementation::new(
        instance,
        device,
        swapchain,
        render_pass,
        framebuffers,
        descriptor,
        pipeline,
        command_pool,
        vertex_buffer,
        synchroniser,
    )
}

fn renderer(geometry: (Vec<Vertex>, Vec<u32>)) -> Implementation {
    parts(3, 3, geometry).unwrap().0
}

fn draw(renderer: &mut Implementation, image: u32) -> Submission {
    let action = renderer
        .image_acquired(AcquireOutcome::Image(image), &identity(), &identity(), &identity())
        .unwrap();
    match action {
        FrameAction::Draw(submission) => submission,
        FrameAction::Recreate => panic!("frame was skipped"),
    }
}

fn recreate(renderer: &mut Implementation, width: u32, height: u32, images: u32, format: i32) {
    renderer.recreate_swapchain().unwrap();
    let swapchain = swapchain(width, height, format);
    let render_pass = VKRenderPass::new(swapchain.format.format);
    let framebuffers = VKFramebuffers::new(images, &swapchain.extent);
    renderer.swapchain_recreated(swapchain, render_pass, framebuffers).unwrap();
}

#[test]
fn triangle_is_drawn_once() {
    let (mut renderer, recording) = parts(3, 3, triangle()).unwrap();
    assert!(renderer.is_well_formed());
    assert_eq!(recording.len(), 3);
    assert_eq!(recording[0][8], Command::DrawIndexed { index_count: 3 });
    assert_eq!(renderer.synchroniser.current_frame, 0);
    assert_eq!(
        renderer.draw_frame(),
        Ok(FrameStart {
            generation: 0,
            fence: 0,
            semaphore: Semaphore::ImageAvailable(0),
            timeout: std::u64::MAX
        })
    );
    let submission = draw(&mut renderer, 1);
    assert_eq!(submission.generation, 0);
    assert_eq!(submission.image_index, 1);
    assert_eq!(submission.command_buffer, 1);
    assert_eq!(submission.uniform.buffer, 1);
    assert_eq!(submission.uniform.offset, 0);
    assert_eq!(submission.uniform.words.len(), 48);
    assert_eq!(&submission.uniform.words[0..16], &identity()[..]);
    assert_eq!(&submission.uniform.words[16..32], &identity()[..]);
    assert_eq!(&submission.uniform.words[32..48], &identity()[..]);
    assert_eq!(submission.wait_semaphore, Semaphore::ImageAvailable(0));
    assert_eq!(submission.wait_stage, 0x400);
    assert_eq!(submission.signal_semaphore, Semaphore::RenderFinished(0));
    assert_eq!(submission.fence, 0);
    assert_eq!(submission.present_wait, Semaphore::RenderFinished(0));
    assert_eq!(
        submission.steps,
        vec![
            FrameStep::WriteUniformBuffer,
            FrameStep::ResetFence,
            FrameStep::Submit,
            FrameStep::Present
        ]
    );
    assert_eq!(renderer.phase, Phase::Submitted);
    assert_eq!(renderer.frame_presented(PresentOutcome::Presented), Ok(false));
    assert_eq!(renderer.phase, Phase::Ready);
    assert_eq!(renderer.synchroniser.current_frame, 1 % 2);
    assert!(renderer.is_well_formed());
}

#[test]
fn frames_go_round_the_two_slots() {
    let mut renderer = renderer(square());
    for frame in 0..7u32 {
        assert_eq!(renderer.synchroniser.current_frame, frame % 2);
        let start = renderer.draw_frame().unwrap();
        assert_eq!(start.fence, frame % 2);
        assert_eq!(start.semaphore, Semaphore::ImageAvailable(frame % 2));
        let submission = draw(&mut renderer, frame % 3);
        assert_eq!(submission.fence, frame % 2);
        assert_eq!(submission.wait_semaphore, Semaphore::ImageAvailable(frame % 2));
        assert_eq!(submission.signal_semaphore, Semaphore::RenderFinished(frame % 2));
        assert_eq!(submission.command_buffer, frame % 3);
        assert_eq!(renderer.frame_presented(PresentOutcome::Presented), Ok(false));
        assert_eq!(renderer.synchroniser.current_frame, (frame + 1) % 2);
    }
}

#[test]
fn frames_go_round_three_slots() {
    let mut renderer = renderer(square());
    renderer.synchroniser = VKSynchroniser::new(3).unwrap();
    let mut seen = Vec::new();
    for _ in 0..6 {
        draw(&mut renderer, 0);
        renderer.frame_presented(PresentOutcome::Presented).unwrap();
        seen.push(renderer.synchroniser.current_frame);
    }
    assert_eq!(seen, vec![1, 2, 0, 1, 2, 0]);
}

#[test]
fn stale_acquire_skips_the_frame() {
    let mut renderer = renderer(square());
    draw(&mut renderer, 0);
    renderer.frame_presented(PresentOutcome::Presented).unwrap();
    assert_eq!(renderer.synchroniser.current_frame, 1);
    let action = renderer
        .image_acquired(AcquireOutcome::OutOfDate, &identity(), &identity(), &identity())
        .unwrap();
    assert!(matches!(action, FrameAction::Recreate));
    assert_eq!(renderer.phase, Phase::Stale);
    assert_eq!(renderer.synchroniser.current_frame, 1);
    assert_eq!(renderer.draw_frame(), Err(RendererError::OutOfSequence));
    assert_eq!(
        renderer.frame_presented(PresentOutcome::Presented),
        Err(RendererError::OutOfSequence)
    );
    recreate(&mut renderer, 1024, 768, 3, 50);
    assert_eq!(renderer.phase, Phase::Ready);
    assert_eq!(renderer.synchroniser.current_frame, 1);
    let submission = draw(&mut renderer, 2);
    assert_eq!(submission.generation, 1);
    assert_eq!(submission.fence, 1);
}

#[test]
fn stale_present_counts_as_handled() {
    let mut renderer = renderer(square());
    draw(&mut renderer, 0);
    assert_eq!(renderer.frame_presented(PresentOutcome::OutOfDate), Ok(true));
    assert_eq!(renderer.phase, Phase::Stale);
    assert_eq!(renderer.synchroniser.current_frame, 1);
    recreate(&mut renderer, 640, 480, 3, 50);
    draw(&mut renderer, 0);
    assert_eq!(renderer.frame_presented(PresentOutcome::Suboptimal), Ok(true));
    assert_eq!(renderer.phase, Phase::Stale);
    assert_eq!(renderer.synchroniser.current_frame, 0);
}

#[test]
fn failures_end_the_frame_without_a_step() {
    let mut renderer = renderer(square());
    assert_eq!(
        renderer
            .image_acquired(AcquireOutcome::Failed, &identity(), &identity(), &identity())
            .err(),
        Some(RendererError::AcquireFailed)
    );
    assert_eq!(renderer.phase, Phase::Ready);
    assert_eq!(
        renderer
            .image_acquired(AcquireOutcome::Image(3), &identity(), &identity(), &identity())
            .err(),
        Some(RendererError::ImageIndexOutOfRange)
    );
    assert_eq!(renderer.phase, Phase::Ready);
    draw(&mut renderer, 2);
    assert_eq!(
        renderer
            .image_acquired(AcquireOutcome::Image(0), &identity(), &identity(), &identity())
            .err(),
        Some(RendererError::OutOfSequence)
    );
    assert_eq!(
        renderer.frame_presented(PresentOutcome::Failed),
        Err(RendererError::PresentFailed)
    );
    assert_eq!(renderer.phase, Phase::Submitted);
    assert_eq!(renderer.synchroniser.current_frame, 0);
    assert_eq!(renderer.recreate_swapchain().err(), Some(RendererError::OutOfSequence));
    let (vertices, indices) = square();
    assert_eq!(
        renderer.flush_and_refill_vertex_buffer(vertices, indices).err(),
        Some(RendererError::OutOfSequence)
    );
}

#[test]
fn recreation_waits_destroys_and_records_again() {
    let mut renderer = renderer(square());
    let retirement = renderer.recreate_swapchain().unwrap();
    assert_eq!(retirement.generation, 0);
    assert_eq!(
        retirement.steps,
        vec![
            TeardownStep::DeviceWaitIdle,
            TeardownStep::FreeCommandBuffers,
            TeardownStep::DestroyFramebuffers,
            TeardownStep::DestroyRenderPass,
            TeardownStep::DestroyImageViews,
            TeardownStep::DestroySwapchain,
        ]
    );
    assert_eq!(renderer.phase, Phase::Rebuilding);
    assert!(renderer.is_well_formed());
    assert_eq!(renderer.draw_frame(), Err(RendererError::OutOfSequence));
    assert_eq!(
        renderer
            .image_acquired(AcquireOutcome::Image(0), &identity(), &identity(), &identity())
            .err(),
        Some(RendererError::OutOfSequence)
    );
    assert_eq!(renderer.recreate_swapchain().err(), Some(RendererError::OutOfSequence));
    let swapchain = swapchain(1024, 768, 50);
    let render_pass = VKRenderPass::new(swapchain.format.format);
    let framebuffers = VKFramebuffers::new(2, &swapchain.extent);
    let recreated = renderer.swapchain_recreated(swapchain, render_pass, framebuffers).unwrap();
    assert_eq!(recreated.generation, 1);
    assert_eq!(
        recreated.steps,
        vec![InstallStep::AllocateCommandBuffers, InstallStep::RecordCommandBuffers]
    );
    assert_eq!(recreated.recording.len(), 2);
    let extent = Extent2D { width: 1024, height: 768 };
    for image in 0..2u32 {
        let commands = &recreated.recording[image as usize];
        assert_eq!(commands.len(), 11);
        assert_eq!(commands[1], Command::BeginRenderPass { framebuffer: image, extent });
        assert_eq!(commands[5], Command::SetViewport { extent });
        assert_eq!(commands[6], Command::SetScissor { extent });
        assert_eq!(commands[7], Command::BindDescriptorSet { set: image });
        assert_eq!(commands[8], Command::DrawIndexed { index_count: 6 });
    }
    assert_eq!(renderer.generation, 1);
    assert_eq!(renderer.command_pool.count, 2);
    assert_eq!(renderer.framebuffers.count, 2);
    assert_eq!(renderer.swapchain.extent, extent);
    assert_eq!(
        renderer.recorded,
        Recorded { swapchain_generation: 1, geometry_generation: 0, extent, index_count: 6 }
    );
    assert_eq!(renderer.vertex_buffer.generation, 0);
    assert!(renderer.is_well_formed());
    assert_eq!(renderer.draw_frame().unwrap().generation, 1);
    assert_eq!(
        renderer
            .image_acquired(AcquireOutcome::Image(2), &identity(), &identity(), &identity())
            .err(),
        Some(RendererError::ImageIndexOutOfRange)
    );
    assert_eq!(draw(&mut renderer, 1).generation, 1);
}

#[test]
fn recreation_leaves_pipeline_and_geometry_untouched() {
    let mut renderer = renderer(square());
    let before = renderer.clone();
    renderer.recreate_swapchain().unwrap();
    let swapchain = swapchain(1024, 768, 43);
    let render_pass = VKRenderPass::new(swapchain.format.format);
    let framebuffers = VKFramebuffers::new(2, &swapchain.extent);
    let recreated = renderer.swapchain_recreated(swapchain, render_pass, framebuffers).unwrap();
    assert_eq!(
        recreated.steps,
        vec![InstallStep::AllocateCommandBuffers, InstallStep::RecordCommandBuffers]
    );
    assert_eq!(renderer.swapchain.format.format, 43);
    assert_eq!(renderer.render_pass.color_attachment.format, 43);
    assert_eq!(renderer.pipeline, before.pipeline);
    assert_eq!(renderer.vertex_buffer, before.vertex_buffer);
    assert_eq!(renderer.descriptor, before.descriptor);
    assert_eq!(renderer.synchroniser, before.synchroniser);
    assert_eq!(renderer.device, before.device);
    assert_eq!(renderer.instance, before.instance);
    assert_eq!(renderer.command_pool.queue_family_index, before.command_pool.queue_family_index);
    assert_eq!(renderer.command_pool.flags, before.command_pool.flags);
    assert_eq!(renderer.command_pool.count, 2);
    assert!(renderer.is_well_formed());
    assert_eq!(draw(&mut renderer, 1).generation, 1);
}

#[test]
fn mismatched_parts_are_refused() {
    assert_eq!(parts(0, 3, square()).err(), Some(RendererError::NoSwapchainImages));
    assert_eq!(parts(4, 3, square()).err(), Some(RendererError::TooManyImages));
    assert_eq!(parts(3, 3, (Vec::new(), Vec::new())).err(), Some(RendererError::NoIndices));
    assert_eq!(VKSynchroniser::new(0).err(), Some(RendererError::NoFramesInFlight));

    let mut renderer = renderer(square());
    let before = renderer.clone();
    let made = renderer.swapchain_recreated(
        swapchain(800, 600, 50),
        VKRenderPass::new(50),
        VKFramebuffers::new(3, &Extent2D { width: 800, height: 600 }),
    );
    assert_eq!(made.err(), Some(RendererError::OutOfSequence));
    renderer.recreate_swapchain().unwrap();
    let made = renderer.swapchain_recreated(
        swapchain(800, 600, 50),
        VKRenderPass::new(43),
        VKFramebuffers::new(3, &Extent2D { width: 800, height: 600 }),
    );
    assert_eq!(made.err(), Some(RendererError::MismatchedParts));
    let made = renderer.swapchain_recreated(
        swapchain(800, 600, 50),
        VKRenderPass::new(50),
        VKFramebuffers::new(3, &Extent2D { width: 801, height: 600 }),
    );
    assert_eq!(made.err(), Some(RendererError::MismatchedParts));
    let made = renderer.swapchain_recreated(
        swapchain(800, 600, 50),
        VKRenderPass::new(50),
        VKFramebuffers::new(0, &Extent2D { width: 800, height: 600 }),
    );
    assert_eq!(made.err(), Some(RendererError::NoSwapchainImages));
    let made = renderer.swapchain_recreated(
        swapchain(800, 600, 50),
        VKRenderPass::new(50),
        VKFramebuffers::new(4, &Extent2D { width: 800, height: 600 }),
    );
    assert_eq!(made.err(), Some(RendererError::TooManyImages));
    assert_eq!(renderer.phase, Phase::Rebuilding);
    assert_eq!(renderer.generation, before.generation);
    renderer.generation = std::u64::MAX;
    let made = renderer.swapchain_recreated(
        swapchain(800, 600, 50),
        VKRenderPass::new(50),
        VKFramebuffers::new(3, &Extent2D { width: 800, height: 600 }),
    );
    assert_eq!(made.err(), Some(RendererError::GenerationExhausted));
}

#[test]
fn unsound_parts_are_refused() {
    let make = |vertex_buffer: VertexBuffer, synchroniser: VKSynchroniser| {
        let devices = vec![PhysicalDevice {
            device_type: 2,
            queue_families: vec![QueueFamily { queue_flags: 0x7, present_support: true }],
        }];
        let swapchain = swapchain(800, 600, 50);
        let render_pass = VKRenderPass::new(swapchain.format.format);
        let framebuffers = VKFramebuffers::new(3, &swapchain.extent);
        Implementation::new(
            VKInstance::new(false, Platform::Unix),
            VKDevice::new(&devices).unwrap(),
            swapchain,
            render_pass,
            framebuffers,
            VKDescriptorPool::new(3),
            VKPipeline::new(),
            VKCommandPool::new(0, 3),
            vertex_buffer,
            synchroniser,
        )
        .err()
    };
    let geometry = VertexBuffer { vertex_count: 4, indices_count: 6, generation: 0 };
    let slots = VKSynchroniser { current_frame: 0, max_frames_in_flight: 2, fences_signaled: true };
    assert_eq!(make(geometry, slots), None);
    assert_eq!(
        make(geometry, VKSynchroniser { max_frames_in_flight: 0, ..slots }),
        Some(RendererError::NoFramesInFlight)
    );
    assert_eq!(
        make(geometry, VKSynchroniser { current_frame: 2, ..slots }),
        Some(RendererError::MismatchedParts)
    );
    assert_eq!(
        make(VertexBuffer { indices_count: 0, ..geometry }, slots),
        Some(RendererError::NoIndices)
    );
}

#[test]
fn command_buffer_count_must_match_framebuffers() {
    let instance = VKInstance::new(false, Platform::Unix);
    let devices = vec![PhysicalDevice {
        device_type: 2,
        queue_families: vec![QueueFamily { queue_flags: 0x7, present_support: true }],
    }];
    let device = VKDevice::new(&devices).unwrap();
    let swapchain = swapchain(800, 600, 50);
    let render_pass = VKRenderPass::new(swapchain.format.format);
    let framebuffers = VKFramebuffers::new(3, &swapchain.extent);
    let (vertices, indices) = square();
    let made = Implementation::new(
        instance,
        device,
        swapchain,
        render_pass,
        framebuffers,
        VKDescriptorPool::new(3),
        VKPipeline::new(),
        VKCommandPool::new(0, 2),
        VertexBuffer::new(vertices, indices).unwrap().0,
        VKSynchroniser::new(2).unwrap(),
    );
    assert_eq!(made.err(), Some(RendererError::MismatchedParts));
}

#[test]
fn larger_geometry_is_recorded_again_once() {
    let (mut renderer, recording) = parts(3, 3, square()).unwrap();
    assert_eq!(renderer.vertex_buffer.vertex_count, 4);
    assert_eq!(renderer.vertex_buffer.indices_count, 6);
    assert_eq!(recording[2][8], Command::DrawIndexed { index_count: 6 });
    let (vertices, indices) = eight_vertices();
    let refill = renderer.flush_and_refill_vertex_buffer(vertices, indices).unwrap();
    let recorded = refill.recording.unwrap();
    assert_eq!(recorded.len(), 3);
    for image in 0..3u32 {
        let commands = &recorded[image as usize];
        assert_eq!(commands.len(), 11);
        let draws: Vec<&Command> = commands
            .iter()
            .filter(|command| matches!(command, Command::DrawIndexed { .. }))
            .collect();
        assert_eq!(draws, vec![&Command::DrawIndexed { index_count: 12 }]);
        assert_eq!(commands[7], Command::BindDescriptorSet { set: image });
    }
    assert_eq!(renderer.vertex_buffer.indices_count, 12);
    assert_eq!(renderer.vertex_buffer.vertex_count, 8);
    assert_eq!(renderer.vertex_buffer.generation, 1);
    assert_eq!(refill.upload.retires, Some(0));
    assert_eq!(
        refill.steps,
        vec![
            RefillStep::UploadVertices,
            RefillStep::UploadIndices,
            RefillStep::DeviceWaitIdle,
            RefillStep::ResetCommandBuffers,
            RefillStep::RecordCommandBuffers,
            RefillStep::DestroyRetiredBuffers,
            RefillStep::FreeRetiredMemory,
        ]
    );
    assert_eq!(refill.upload.index.words.len(), 12);
    assert_eq!(refill.upload.vertex.words.len(), 40);
    assert_eq!(renderer.recorded.index_count, 12);
    assert_eq!(renderer.recorded.geometry_generation, 1);
    assert_eq!(renderer.phase, Phase::Ready);
    assert!(renderer.is_well_formed());
}

#[test]
fn geometry_of_the_same_counts_is_not_recorded_again() {
    let mut renderer = renderer(square());
    let (vertices, _) = square();
    let refill = renderer.flush_and_refill_vertex_buffer(vertices, vec![2, 1, 0, 0, 3, 2]).unwrap();
    assert!(refill.recording.is_none());
    assert_eq!(refill.steps, vec![RefillStep::UploadVertices, RefillStep::UploadIndices]);
    assert_eq!(refill.upload.retires, None);
    assert_eq!(refill.upload.vertex.destination, Destination::Existing);
    assert_eq!(refill.upload.index.destination, Destination::Existing);
    assert_eq!(refill.upload.index.words, vec![2, 1, 0, 0, 3, 2]);
    assert_eq!(renderer.vertex_buffer.indices_count, 6);
    assert_eq!(renderer.vertex_buffer.generation, 0);
    assert!(renderer.is_well_formed());
}

#[test]
fn another_index_count_is_recorded_again() {
    let mut renderer = renderer(square());
    let (vertices, _) = square();
    let refill = renderer.flush_and_refill_vertex_buffer(vertices, vec![0, 1, 2]).unwrap();
    let recorded = refill.recording.unwrap();
    assert_eq!(recorded.len(), 3);
    assert_eq!(recorded[0][8], Command::DrawIndexed { index_count: 3 });
    assert_eq!(renderer.vertex_buffer.indices_count, 3);
    assert!(renderer.is_well_formed());
}

#[test]
fn another_vertex_count_is_recorded_again() {
    let mut renderer = renderer(square());
    let (vertices, _) = eight_vertices();
    let refill = renderer.flush_and_refill_vertex_buffer(vertices, vec![0, 1, 2, 2, 3, 0]).unwrap();
    let recorded = refill.recording.unwrap();
    assert_eq!(recorded[1][8], Command::DrawIndexed { index_count: 6 });
    assert_eq!(refill.upload.retires, Some(0));
    assert_eq!(renderer.vertex_buffer.vertex_count, 8);
    assert_eq!(renderer.vertex_buffer.indices_count, 6);
    assert!(renderer.is_well_formed());
}

#[test]
fn refused_geometry_changes_nothing() {
    let mut renderer = renderer(square());
    let (vertices, _) = square();
    assert_eq!(
        renderer.flush_and_refill_vertex_buffer(vertices, Vec::new()).err(),
        Some(RendererError::NoIndices)
    );
    assert_eq!(renderer.vertex_buffer.indices_count, 6);
    renderer.vertex_buffer.generation = std::u64::MAX;
    renderer.recorded.geometry_generation = std::u64::MAX;
    let (vertices, indices) = eight_vertices();
    assert_eq!(
        renderer.flush_and_refill_vertex_buffer(vertices, indices).err(),
        Some(RendererError::GenerationExhausted)
    );
    assert_eq!(renderer.vertex_buffer.indices_count, 6);
    assert!(renderer.is_well_formed());
}

#[test]
fn teardown_waits_and_destroys_in_reverse() {
    let live = renderer(square()).teardown();
    assert_eq!(
        live,
        vec![
            TeardownStep::DeviceWaitIdle,
            TeardownStep::FreeCommandBuffers,
            TeardownStep::DestroyFramebuffers,
            TeardownStep::DestroyRenderPass,
            TeardownStep::DestroyImageViews,
            TeardownStep::DestroySwapchain,
            TeardownStep::DestroyDescriptorPool,
            TeardownStep::DestroyUniformBuffers,
            TeardownStep::FreeUniformMemory,
            TeardownStep::DestroyDescriptorSetLayout,
            TeardownStep::DestroyPipeline,
            TeardownStep::DestroyPipelineLayout,
            TeardownStep::DestroyCommandPool,
            TeardownStep::DestroySurface,
            TeardownStep::DestroyVertexBuffer,
            TeardownStep::DestroyIndexBuffer,
            TeardownStep::FreeVertexMemory,
            TeardownStep::FreeIndexMemory,
            TeardownStep::DestroyRenderFinishedSemaphores,
            TeardownStep::DestroyImageAvailableSemaphores,
            TeardownStep::DestroyFences,
            TeardownStep::DestroyDevice,
            TeardownStep::DestroyInstance,
        ]
    );
    assert_eq!(renderer(square()).cleanup_swapchain(), live[1..6].to_vec());
    let mut given_up = renderer(square());
    given_up.recreate_swapchain().unwrap();
    let rest = given_up.teardown();
    assert_eq!(rest.len(), 18);
    assert_eq!(rest[0], TeardownStep::DeviceWaitIdle);
    assert_eq!(rest[1..], live[6..]);
}

#[test]
fn stale_recording_is_noticed() {
    let mut renderer = renderer(square());
    assert!(renderer.is_well_formed());
    renderer.vertex_buffer.indices_count = 12;
    assert!(!renderer.is_well_formed());
    renderer.vertex_buffer.indices_count = 6;
    renderer.generation = 5;
    assert!(!renderer.is_well_formed());
    renderer.generation = 0;
    renderer.synchroniser.current_frame = 2;
    assert!(!renderer.is_well_formed());
    renderer.synchroniser.current_frame = 1;
    assert!(renderer.is_well_formed());
}

#[test]
fn malformed_renderer_takes_no_step() {
    let mut renderer = renderer(square());
    renderer.vertex_buffer.indices_count = 12;
    let before = renderer.clone();
    assert_eq!(renderer.draw_frame(), Err(RendererError::MismatchedParts));
    assert_eq!(
        renderer
            .image_acquired(AcquireOutcome::Image(0), &identity(), &identity(), &identity())
            .err(),
        Some(RendererError::MismatchedParts)
    );
    assert_eq!(
        renderer.frame_presented(PresentOutcome::Presented),
        Err(RendererError::MismatchedParts)
    );
    assert_eq!(renderer.recreate_swapchain().err(), Some(RendererError::MismatchedParts));
    let (vertices, indices) = square();
    assert_eq!(
        renderer.flush_and_refill_vertex_buffer(vertices, indices).err(),
        Some(RendererError::MismatchedParts)
    );
    renderer.phase = Phase::Rebuilding;
    renderer.synchroniser.current_frame = 7;
    let made = renderer.swapchain_recreated(
        swapchain(800, 600, 50),
        VKRenderPass::new(50),
        VKFramebuffers::new(3, &Extent2D { width: 800, height: 600 }),
    );
    assert_eq!(made.err(), Some(RendererError::MismatchedParts));
    renderer.phase = Phase::Ready;
    renderer.synchroniser.current_frame = 0;
    assert_eq!(renderer, before);
    assert_eq!(renderer.teardown().len(), 23);
}

#[test]
fn messages_name_the_failure() {
    assert_eq!(RendererError::NoSuitableDevice.message(), "Failed to find suitable device.");
    assert_eq!(RendererError::NoMemoryType.message(), "Failed to find suitable memory type!");
    assert_eq!(RendererError::AcquireFailed.message(), "Failed to acquire next image.");
    assert_eq!(RendererError::PresentFailed.message(), "Failed to present frame.");
    let all = [
        RendererError::NoSuitableDevice,
        RendererError::NoSuitableQueueFamily,
        RendererError::NoSurfaceFormat,
        RendererError::NoMemoryType,
        RendererError::NoFramesInFlight,
        RendererError::NoSwapchainImages,
        RendererError::TooManyImages,
        RendererError::MismatchedParts,
        RendererError::NoIndices,
        RendererError::TooLarge,
        RendererError::ImageIndexOutOfRange,
        RendererError::AcquireFailed,
        RendererError::PresentFailed,
        RendererError::OutOfSequence,
        RendererError::GenerationExhausted,
    ];
    for (i, a) in all.iter().enumerate() {
        assert!(a.message().starts_with("Failed to "));
        for b in all.iter().skip(i + 1) {
            assert_ne!(a.message(), b.message());
        }
    }
}
