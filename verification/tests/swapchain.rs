use vkapp::renderer::vulkan::swapchain::{
    SurfaceCapabilitiesKHR, SurfaceFormatKHR, ATTACHMENT_LOAD_OP_CLEAR, ATTACHMENT_STORE_OP_STORE,
    IMAGE_LAYOUT_PRESENT_SRC, IMAGE_LAYOUT_UNDEFINED,
};
use vkapp::renderer::vulkan::{
    Extent2D, RendererError, VKFramebuffers, VKRenderPass, VKSwapchain,
};

const BGRA_SRGB: i32 = 50;
const BGRA_UNORM: i32 = 44;
const RGBA_SRGB: i32 = 43;
const SRGB_NONLINEAR: i32 = 0;
const IMMEDIATE: i32 = 0;
const MAILBOX: i32 = 1;
const FIFO: i32 = 2;
const FIFO_RELAXED: i32 = 3;

fn format(format: i32, color_space: i32) -> SurfaceFormatKHR {
    SurfaceFormatKHR { format, color_space }
}

fn capabilities(min: u32, max: u32, width: u32, height: u32) -> SurfaceCapabilitiesKHR {
    SurfaceCapabilitiesKHR {
        min_image_count: min,
        max_image_count: max,
        current_extent: Extent2D { width, height },
        max_image_extent: Extent2D { width: 4096, height: 2160 },
        current_transform: 1,
    }
}

#[test]
fn mailbox_is_selected_when_offered() {
    assert_eq!(VKSwapchain::choose_present_mode(&vec![FIFO, MAILBOX]), MAILBOX);
    assert_eq!(VKSwapchain::choose_present_mode(&vec![MAILBOX]), MAILBOX);
    assert_eq!(
        VKSwapchain::choose_present_mode(&vec![IMMEDIATE, FIFO, FIFO_RELAXED, MAILBOX]),
        MAILBOX
    );
}

#[test]
fn fifo_is_selected_without_mailbox() {
    assert_eq!(VKSwapchain::choose_present_mode(&vec![FIFO]), FIFO);
    assert_eq!(VKSwapchain::choose_present_mode(&vec![IMMEDIATE, FIFO_RELAXED]), FIFO);
    assert_eq!(VKSwapchain::choose_present_mode(&Vec::new()), FIFO);
}

#[test]
fn preferred_format_is_selected_when_offered() {
    let formats = vec![
        format(BGRA_UNORM, SRGB_NONLINEAR),
        format(RGBA_SRGB, SRGB_NONLINEAR),
        format(BGRA_SRGB, SRGB_NONLINEAR),
    ];
    assert_eq!(VKSwapchain::choose_format(&formats), Some(format(BGRA_SRGB, SRGB_NONLINEAR)));
    let only = vec![format(BGRA_SRGB, SRGB_NONLINEAR)];
    assert_eq!(VKSwapchain::choose_format(&only), Some(format(BGRA_SRGB, SRGB_NONLINEAR)));
}

#[test]
fn second_candidate_is_the_fallback_format() {
    let formats = vec![
        format(BGRA_UNORM, SRGB_NONLINEAR),
        format(RGBA_SRGB, SRGB_NONLINEAR),
        format(BGRA_SRGB, 7),
    ];
    assert_eq!(VKSwapchain::choose_format(&formats), Some(format(RGBA_SRGB, SRGB_NONLINEAR)));
}

#[test]
fn no_format_without_preferred_and_fallback() {
    assert_eq!(VKSwapchain::choose_format(&Vec::new()), None);
    assert_eq!(VKSwapchain::choose_format(&vec![format(BGRA_UNORM, SRGB_NONLINEAR)]), None);
    let made = VKSwapchain::new(
        &vec![format(BGRA_UNORM, SRGB_NONLINEAR)],
        &capabilities(2, 3, 800, 600),
        &vec![FIFO],
        0,
        0,
    );
    assert_eq!(made.err(), Some(RendererError::NoSurfaceFormat));
}

#[test]
fn image_count_is_one_above_the_minimum_within_the_maximum() {
    assert_eq!(VKSwapchain::choose_image_count(2, 8), 3);
    assert_eq!(VKSwapchain::choose_image_count(2, 3), 3);
    assert_eq!(VKSwapchain::choose_image_count(3, 3), 3);
    assert_eq!(VKSwapchain::choose_image_count(1, 1), 1);
    assert_eq!(VKSwapchain::choose_image_count(2, 0), 0);
    assert_eq!(VKSwapchain::choose_image_count(std::u32::MAX, std::u32::MAX), std::u32::MAX);
    assert_eq!(VKSwapchain::choose_image_count(std::u32::MAX - 1, std::u32::MAX), std::u32::MAX);
}

#[test]
fn extent_is_the_current_one_unless_undefined() {
    let defined = capabilities(2, 3, 800, 600);
    assert_eq!(VKSwapchain::choose_extent(&defined), Extent2D { width: 800, height: 600 });
    let undefined = capabilities(2, 3, std::u32::MAX, std::u32::MAX);
    assert_eq!(VKSwapchain::choose_extent(&undefined), Extent2D { width: 4096, height: 2160 });
}

#[test]
fn swapchain_for_one_family() {
    let swapchain = VKSwapchain::new(
        &vec![format(BGRA_SRGB, SRGB_NONLINEAR)],
        &capabilities(2, 8, 800, 600),
        &vec![FIFO, MAILBOX],
        0,
        0,
    )
    .unwrap();
    assert_eq!(swapchain.format, format(BGRA_SRGB, SRGB_NONLINEAR));
    assert_eq!(swapchain.extent, Extent2D { width: 800, height: 600 });
    assert_eq!(swapchain.min_image_count, 3);
    assert_eq!(swapchain.present_mode, MAILBOX);
    assert_eq!(swapchain.image_sharing_mode, 0);
    assert!(swapchain.queue_family_indices.is_empty());
    assert_eq!(swapchain.pre_transform, 1);
    assert_eq!(swapchain.image_usage, 0x10);
    assert_eq!(swapchain.image_array_layers, 1);
    assert_eq!(swapchain.composite_alpha, 1);
    assert!(swapchain.clipped);
    assert_eq!(swapchain.image_view.format, BGRA_SRGB);
    assert_eq!(swapchain.image_view.view_type, 1);
    assert_eq!(swapchain.image_view.level_count, 1);
    assert_eq!(swapchain.image_view.layer_count, 1);
}

#[test]
fn swapchain_shared_by_two_families() {
    let swapchain = VKSwapchain::new(
        &vec![format(BGRA_UNORM, SRGB_NONLINEAR), format(RGBA_SRGB, SRGB_NONLINEAR)],
        &capabilities(2, 2, std::u32::MAX, 0),
        &vec![FIFO],
        0,
        2,
    )
    .unwrap();
    assert_eq!(swapchain.format, format(RGBA_SRGB, SRGB_NONLINEAR));
    assert_eq!(swapchain.extent, Extent2D { width: 4096, height: 2160 });
    assert_eq!(swapchain.min_image_count, 2);
    assert_eq!(swapchain.present_mode, FIFO);
    assert_eq!(swapchain.image_sharing_mode, 1);
    assert_eq!(swapchain.queue_family_indices, vec![0, 2]);
    assert_eq!(swapchain.image_view.format, RGBA_SRGB);
}

#[test]
fn render_pass_clears_and_presents() {
    let pass = VKRenderPass::new(BGRA_SRGB);
    assert_eq!(pass.color_attachment.format, BGRA_SRGB);
    assert_eq!(pass.color_attachment.samples, 1);
    assert_eq!(pass.color_attachment.load_op, ATTACHMENT_LOAD_OP_CLEAR);
    assert_eq!(pass.color_attachment.store_op, ATTACHMENT_STORE_OP_STORE);
    assert_eq!(pass.color_attachment.initial_layout, IMAGE_LAYOUT_UNDEFINED);
    assert_eq!(pass.color_attachment.final_layout, IMAGE_LAYOUT_PRESENT_SRC);
    assert_eq!(pass.color_reference.attachment, 0);
    assert_eq!(pass.dependency.src_subpass, std::u32::MAX);
    assert_eq!(pass.dependency.dst_subpass, 0);
    assert_eq!(pass.dependency.src_stage_mask, 0x400);
    assert_eq!(pass.dependency.dst_stage_mask, 0x400);
    assert_eq!(pass.dependency.src_access_mask, 0);
    assert_eq!(pass.dependency.dst_access_mask, 0x100);
}

#[test]
fn one_framebuffer_for_each_view() {
    let framebuffers = VKFramebuffers::new(3, &Extent2D { width: 800, height: 600 });
    assert_eq!(framebuffers, VKFramebuffers { count: 3, width: 800, height: 600, layers: 1 });
}
