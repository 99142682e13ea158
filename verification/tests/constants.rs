use ash::vk;
use vkapp::renderer::vertex;
use vkapp::renderer::vulkan::{command, descriptor, device, flags, pipeline, swapchain};

#[test]
fn flag_bits_are_those_of_the_bindings() {
    assert_eq!(flags::QUEUE_GRAPHICS, vk::QueueFlags::GRAPHICS.as_raw());
    assert_eq!(flags::QUEUE_TRANSFER, vk::QueueFlags::TRANSFER.as_raw());
    assert_eq!(flags::MEMORY_DEVICE_LOCAL, vk::MemoryPropertyFlags::DEVICE_LOCAL.as_raw());
    assert_eq!(flags::MEMORY_HOST_VISIBLE, vk::MemoryPropertyFlags::HOST_VISIBLE.as_raw());
    assert_eq!(flags::MEMORY_HOST_COHERENT, vk::MemoryPropertyFlags::HOST_COHERENT.as_raw());
    assert_eq!(flags::BUFFER_TRANSFER_SRC, vk::BufferUsageFlags::TRANSFER_SRC.as_raw());
    assert_eq!(flags::BUFFER_TRANSFER_DST, vk::BufferUsageFlags::TRANSFER_DST.as_raw());
    assert_eq!(flags::BUFFER_UNIFORM, vk::BufferUsageFlags::UNIFORM_BUFFER.as_raw());
    assert_eq!(flags::BUFFER_INDEX, vk::BufferUsageFlags::INDEX_BUFFER.as_raw());
    assert_eq!(flags::BUFFER_VERTEX, vk::BufferUsageFlags::VERTEX_BUFFER.as_raw());
}

#[test]
fn device_and_surface_values_are_those_of_the_bindings() {
    assert_eq!(device::DEVICE_TYPE_DISCRETE_GPU, vk::PhysicalDeviceType::DISCRETE_GPU.as_raw());
    assert_eq!(swapchain::FORMAT_B8G8R8A8_SRGB, vk::Format::B8G8R8A8_SRGB.as_raw());
    assert_eq!(swapchain::COLOR_SPACE_SRGB_NONLINEAR, vk::ColorSpaceKHR::SRGB_NONLINEAR.as_raw());
    assert_eq!(swapchain::PRESENT_MODE_MAILBOX, vk::PresentModeKHR::MAILBOX.as_raw());
    assert_eq!(swapchain::PRESENT_MODE_FIFO, vk::PresentModeKHR::FIFO.as_raw());
    assert_eq!(swapchain::EXTENT_UNDEFINED, std::u32::MAX);
    assert_eq!(swapchain::SHARING_MODE_EXCLUSIVE, vk::SharingMode::EXCLUSIVE.as_raw());
    assert_eq!(swapchain::SHARING_MODE_CONCURRENT, vk::SharingMode::CONCURRENT.as_raw());
    assert_eq!(swapchain::IMAGE_USAGE_COLOR_ATTACHMENT, vk::ImageUsageFlags::COLOR_ATTACHMENT.as_raw());
    assert_eq!(swapchain::COMPOSITE_ALPHA_OPAQUE, vk::CompositeAlphaFlagsKHR::OPAQUE.as_raw());
    assert_eq!(swapchain::IMAGE_VIEW_TYPE_2D, vk::ImageViewType::TYPE_2D.as_raw());
    assert_eq!(swapchain::COMPONENT_SWIZZLE_R, vk::ComponentSwizzle::R.as_raw());
    assert_eq!(swapchain::COMPONENT_SWIZZLE_G, vk::ComponentSwizzle::G.as_raw());
    assert_eq!(swapchain::COMPONENT_SWIZZLE_B, vk::ComponentSwizzle::B.as_raw());
    assert_eq!(swapchain::COMPONENT_SWIZZLE_A, vk::ComponentSwizzle::A.as_raw());
    assert_eq!(swapchain::IMAGE_ASPECT_COLOR, vk::ImageAspectFlags::COLOR.as_raw());
}

#[test]
fn render_pass_values_are_those_of_the_bindings() {
    assert_eq!(swapchain::SAMPLE_COUNT_1, vk::SampleCountFlags::TYPE_1.as_raw());
    assert_eq!(swapchain::ATTACHMENT_LOAD_OP_CLEAR, vk::AttachmentLoadOp::CLEAR.as_raw());
    assert_eq!(swapchain::ATTACHMENT_LOAD_OP_DONT_CARE, vk::AttachmentLoadOp::DONT_CARE.as_raw());
    assert_eq!(swapchain::ATTACHMENT_STORE_OP_STORE, vk::AttachmentStoreOp::STORE.as_raw());
    assert_eq!(swapchain::ATTACHMENT_STORE_OP_DONT_CARE, vk::AttachmentStoreOp::DONT_CARE.as_raw());
    assert_eq!(swapchain::IMAGE_LAYOUT_UNDEFINED, vk::ImageLayout::UNDEFINED.as_raw());
    assert_eq!(
        swapchain::IMAGE_LAYOUT_COLOR_ATTACHMENT_OPTIMAL,
        vk::ImageLayout::COLOR_ATTACHMENT_OPTIMAL.as_raw()
    );
    assert_eq!(swapchain::IMAGE_LAYOUT_PRESENT_SRC, vk::ImageLayout::PRESENT_SRC_KHR.as_raw());
    assert_eq!(swapchain::PIPELINE_BIND_POINT_GRAPHICS, vk::PipelineBindPoint::GRAPHICS.as_raw());
    assert_eq!(swapchain::SUBPASS_EXTERNAL, vk::SUBPASS_EXTERNAL);
    assert_eq!(
        swapchain::PIPELINE_STAGE_COLOR_ATTACHMENT_OUTPUT,
        vk::PipelineStageFlags::COLOR_ATTACHMENT_OUTPUT.as_raw()
    );
    assert_eq!(
        swapchain::ACCESS_COLOR_ATTACHMENT_WRITE,
        vk::AccessFlags::COLOR_ATTACHMENT_WRITE.as_raw()
    );
}

#[test]
fn pipeline_values_are_those_of_the_bindings() {
    let rgba = vk::ColorComponentFlags::R
        | vk::ColorComponentFlags::G
        | vk::ColorComponentFlags::B
        | vk::ColorComponentFlags::A;
    assert_eq!(pipeline::COLOR_COMPONENT_RGBA, rgba.as_raw());
    assert_eq!(pipeline::BLEND_OP_ADD, vk::BlendOp::ADD.as_raw());
    assert_eq!(pipeline::BLEND_FACTOR_ZERO, vk::BlendFactor::ZERO.as_raw());
    assert_eq!(pipeline::BLEND_FACTOR_ONE, vk::BlendFactor::ONE.as_raw());
    assert_eq!(pipeline::LOGIC_OP_COPY, vk::LogicOp::COPY.as_raw());
    assert_eq!(pipeline::DYNAMIC_STATE_VIEWPORT, vk::DynamicState::VIEWPORT.as_raw());
    assert_eq!(pipeline::DYNAMIC_STATE_SCISSOR, vk::DynamicState::SCISSOR.as_raw());
    assert_eq!(pipeline::POLYGON_MODE_FILL, vk::PolygonMode::FILL.as_raw());
    assert_eq!(pipeline::FRONT_FACE_CLOCKWISE, vk::FrontFace::CLOCKWISE.as_raw());
    assert_eq!(pipeline::CULL_MODE_BACK, vk::CullModeFlags::BACK.as_raw());
    assert_eq!(
        pipeline::PRIMITIVE_TOPOLOGY_TRIANGLE_LIST,
        vk::PrimitiveTopology::TRIANGLE_LIST.as_raw()
    );
    assert_eq!(pipeline::SHADER_STAGE_VERTEX, vk::ShaderStageFlags::VERTEX.as_raw());
    assert_eq!(pipeline::SHADER_STAGE_FRAGMENT, vk::ShaderStageFlags::FRAGMENT.as_raw());
}

#[test]
fn remaining_values_are_those_of_the_bindings() {
    assert_eq!(
        command::COMMAND_POOL_RESET_COMMAND_BUFFER,
        vk::CommandPoolCreateFlags::RESET_COMMAND_BUFFER.as_raw()
    );
    assert_eq!(
        descriptor::DESCRIPTOR_TYPE_UNIFORM_BUFFER,
        vk::DescriptorType::UNIFORM_BUFFER.as_raw()
    );
    assert_eq!(vertex::FORMAT_R32G32_SFLOAT, vk::Format::R32G32_SFLOAT.as_raw());
    assert_eq!(vertex::FORMAT_R32G32B32_SFLOAT, vk::Format::R32G32B32_SFLOAT.as_raw());
    assert_eq!(vertex::INPUT_RATE_VERTEX, vk::VertexInputRate::VERTEX.as_raw());
    assert_eq!(vkapp::renderer::vulkan::geometry::MAX_MEMORY_TYPES, vk::MAX_MEMORY_TYPES);
    assert_eq!(vkapp::renderer::vulkan::NO_TIMEOUT, std::u64::MAX);
}

#[test]
fn float_patterns_are_those_of_the_floats() {
    assert_eq!(vertex::F32_ZERO, 0.0f32.to_bits());
    assert_eq!(vertex::F32_ONE, 1.0f32.to_bits());
    assert_eq!(vertex::F32_HALF, 0.5f32.to_bits());
    assert_eq!(vertex::F32_MINUS_HALF, (-0.5f32).to_bits());
    assert_eq!(command::CLEAR_CHANNEL, 0.0f32.to_bits());
}
