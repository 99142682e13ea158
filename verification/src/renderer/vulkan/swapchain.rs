//! The swapchain and what is built on it: the render pass and the
//! framebuffers. The three are made together and replaced together.
use vstd::prelude::*;
use crate::renderer::vulkan::error::RendererError;

verus! {

/// `VK_FORMAT_B8G8R8A8_SRGB`.
pub const FORMAT_B8G8R8A8_SRGB: i32 = 50;

/// `VK_COLOR_SPACE_SRGB_NONLINEAR_KHR`.
pub const COLOR_SPACE_SRGB_NONLINEAR: i32 = 0;

/// `VK_PRESENT_MODE_MAILBOX_KHR`.
pub const PRESENT_MODE_MAILBOX: i32 = 1;

/// `VK_PRESENT_MODE_FIFO_KHR`.
pub const PRESENT_MODE_FIFO: i32 = 2;

/// The width a surface reports when it leaves the extent to the swapchain.
pub const EXTENT_UNDEFINED: u32 = 0xFFFF_FFFF;

/// Where in the candidate list the format is taken from when the
/// preferred one is not offered.
pub const FALLBACK_FORMAT_INDEX: usize = 1;

/// `VK_SHARING_MODE_EXCLUSIVE`.
pub const SHARING_MODE_EXCLUSIVE: i32 = 0;

/// `VK_SHARING_MODE_CONCURRENT`.
pub const SHARING_MODE_CONCURRENT: i32 = 1;

/// `VK_IMAGE_USAGE_COLOR_ATTACHMENT_BIT`.
pub const IMAGE_USAGE_COLOR_ATTACHMENT: u32 = 0x10;

/// `VK_COMPOSITE_ALPHA_OPAQUE_BIT_KHR`.
pub const COMPOSITE_ALPHA_OPAQUE: u32 = 0x1;

/// `VK_IMAGE_VIEW_TYPE_2D`.
pub const IMAGE_VIEW_TYPE_2D: i32 = 1;

/// `VK_COMPONENT_SWIZZLE_R`.
pub const COMPONENT_SWIZZLE_R: i32 = 3;

/// `VK_COMPONENT_SWIZZLE_G`.
pub const COMPONENT_SWIZZLE_G: i32 = 4;

/// `VK_COMPONENT_SWIZZLE_B`.
pub const COMPONENT_SWIZZLE_B: i32 = 5;

/// `VK_COMPONENT_SWIZZLE_A`.
pub const COMPONENT_SWIZZLE_A: i32 = 6;

/// `VK_IMAGE_ASPECT_COLOR_BIT`.
pub const IMAGE_ASPECT_COLOR: u32 = 0x1;

/// `VK_SAMPLE_COUNT_1_BIT`.
pub const SAMPLE_COUNT_1: u32 = 0x1;

/// `VK_ATTACHMENT_LOAD_OP_CLEAR`.
pub const ATTACHMENT_LOAD_OP_CLEAR: i32 = 1;

/// `VK_ATTACHMENT_LOAD_OP_DONT_CARE`.
pub const ATTACHMENT_LOAD_OP_DONT_CARE: i32 = 2;

/// `VK_ATTACHMENT_STORE_OP_STORE`.
pub const ATTACHMENT_STORE_OP_STORE: i32 = 0;

/// `VK_ATTACHMENT_STORE_OP_DONT_CARE`.
pub const ATTACHMENT_STORE_OP_DONT_CARE: i32 = 1;

/// `VK_IMAGE_LAYOUT_UNDEFINED`.
pub const IMAGE_LAYOUT_UNDEFINED: i32 = 0;

/// `VK_IMAGE_LAYOUT_COLOR_ATTACHMENT_OPTIMAL`.
pub const IMAGE_LAYOUT_COLOR_ATTACHMENT_OPTIMAL: i32 = 2;

/// `VK_IMAGE_LAYOUT_PRESENT_SRC_KHR`.
pub const IMAGE_LAYOUT_PRESENT_SRC: i32 = 1_000_001_002;

/// `VK_PIPELINE_BIND_POINT_GRAPHICS`.
pub const PIPELINE_BIND_POINT_GRAPHICS: i32 = 0;

/// `VK_SUBPASS_EXTERNAL`.
pub const SUBPASS_EXTERNAL: u32 = 0xFFFF_FFFF;

/// `VK_PIPELINE_STAGE_COLOR_ATTACHMENT_OUTPUT_BIT`.
pub const PIPELINE_STAGE_COLOR_ATTACHMENT_OUTPUT: u32 = 0x400;

/// `VK_ACCESS_COLOR_ATTACHMENT_WRITE_BIT`.
pub const ACCESS_COLOR_ATTACHMENT_WRITE: u32 = 0x100;

/// A size in pixels.
#[derive(Clone, Copy, Debug, PartialEq, Eq, Structural)]
pub struct Extent2D {
    pub width: u32,
    pub height: u32,
}

/// A pixel format together with the colour space it is shown in.
#[derive(Clone, Copy, Debug, PartialEq, Eq, Structural)]
pub struct SurfaceFormatKHR {
    pub format: i32,
    pub color_space: i32,
}

/// What the surface reports it can do, as far as the swapchain needs it.
#[derive(Clone, Copy, Debug, PartialEq, Eq, Structural)]
pub struct SurfaceCapabilitiesKHR {
    pub min_image_count: u32,
    pub max_image_count: u32,
    pub current_extent: Extent2D,
    pub max_image_extent: Extent2D,
    pub current_transform: u32,
}

/// How each swapchain image is viewed: as a whole 2D colour image with
/// its channels in place.
#[derive(Clone, Copy, Debug, PartialEq, Eq, Structural)]
pub struct ImageViewDescription {
    pub view_type: i32,
    pub format: i32,
    pub swizzle_r: i32,
    pub swizzle_g: i32,
    pub swizzle_b: i32,
    pub swizzle_a: i32,
    pub aspect_mask: u32,
    pub base_mip_level: u32,
    pub level_count: u32,
    pub base_array_layer: u32,
    pub layer_count: u32,
}

/// The swapchain to create.
#[derive(Clone, Debug, PartialEq, Eq)]
pub struct VKSwapchain {
    pub extent: Extent2D,
    pub format: SurfaceFormatKHR,
    pub min_image_count: u32,
    pub present_mode: i32,
    pub image_sharing_mode: i32,
    /// The families that share the images; empty when only one does.
    pub queue_family_indices: Vec<u32>,
    pub pre_transform: u32,
    pub image_usage: u32,
    pub image_array_layers: u32,
    pub composite_alpha: u32,
    pub clipped: bool,
    pub image_view: ImageViewDescription,
}

/// The format asked for first: 8-bit BGRA, sRGB, nonlinear.
pub open spec fn preferred_format() -> SurfaceFormatKHR {
    SurfaceFormatKHR { format: FORMAT_B8G8R8A8_SRGB, color_space: COLOR_SPACE_SRGB_NONLINEAR }
}

/// The format chosen from the candidates: the preferred one when it is
/// offered; otherwise the candidate at `FALLBACK_FORMAT_INDEX`, or nothing
/// when the list is too short to have one.
pub open spec fn chosen_format(formats: Seq<SurfaceFormatKHR>) -> Option<SurfaceFormatKHR> {
    if formats.contains(preferred_format()) {
        Some(preferred_format())
    } else if formats.len() > FALLBACK_FORMAT_INDEX {
        Some(formats[FALLBACK_FORMAT_INDEX as int])
    } else {
        None
    }
}

/// Mailbox when it is offered, FIFO otherwise.
pub open spec fn chosen_present_mode(present_modes: Seq<i32>) -> i32 {
    if present_modes.contains(PRESENT_MODE_MAILBOX) {
        PRESENT_MODE_MAILBOX
    } else {
        PRESENT_MODE_FIFO
    }
}

/// One image more than the minimum, but no more than the maximum.
pub open spec fn chosen_image_count(min_image_count: u32, max_image_count: u32) -> u32 {
    if min_image_count + 1 <= max_image_count {
        (min_image_count + 1) as u32
    } else {
        max_image_count
    }
}

/// The surface's current extent, or the largest it allows when it leaves
/// the choice open.
pub open spec fn chosen_extent(capabilities: SurfaceCapabilitiesKHR) -> Extent2D {
    if capabilities.current_extent.width != EXTENT_UNDEFINED {
        capabilities.current_extent
    } else {
        capabilities.max_image_extent
    }
}

/// The families named in the create call: none when one family both draws
/// and presents, both when they differ.
pub open spec fn sharing_families(graphics_queue: u32, presentation_queue: u32) -> Seq<u32> {
    if graphics_queue == presentation_queue {
        seq![]
    } else {
        seq![graphics_queue, presentation_queue]
    }
}

/// The view every swapchain image gets.
pub open spec fn color_view(format: i32) -> ImageViewDescription {
    ImageViewDescription {
        view_type: IMAGE_VIEW_TYPE_2D,
        format,
        swizzle_r: COMPONENT_SWIZZLE_R,
        swizzle_g: COMPONENT_SWIZZLE_G,
        swizzle_b: COMPONENT_SWIZZLE_B,
        swizzle_a: COMPONENT_SWIZZLE_A,
        aspect_mask: IMAGE_ASPECT_COLOR,
        base_mip_level: 0,
        level_count: 1,
        base_array_layer: 0,
        layer_count: 1,
    }
}

/// A count between the surface's limits, when the limits leave room.
pub proof fn lemma_image_count_within_limits(min_image_count: u32, max_image_count: u32)
    requires
        min_image_count <= max_image_count,
    ensures
        min_image_count <= chosen_image_count(min_image_count, max_image_count) <= max_image_count,
{
}

impl VKSwapchain {
    /// What is asked of the surface matches what was chosen from its
    /// formats, capabilities and present modes.
    pub open spec fn chosen_from(
        &self,
        format: SurfaceFormatKHR,
        capabilities: SurfaceCapabilitiesKHR,
        present_modes: Seq<i32>,
        graphics_queue: u32,
        presentation_queue: u32,
    ) -> bool {
        &&& self.format == format
        &&& self.extent == chosen_extent(capabilities)
        &&& self.min_image_count == chosen_image_count(
            capabilities.min_image_count,
            capabilities.max_image_count,
        )
        &&& self.present_mode == chosen_present_mode(present_modes)
        &&& self.image_sharing_mode == if graphics_queue == presentation_queue {
            SHARING_MODE_EXCLUSIVE
        } else {
            SHARING_MODE_CONCURRENT
        }
        &&& self.queue_family_indices@ == sharing_families(graphics_queue, presentation_queue)
        &&& self.pre_transform == capabilities.current_transform
        &&& self.image_usage == IMAGE_USAGE_COLOR_ATTACHMENT
        &&& self.image_array_layers == 1
        &&& self.composite_alpha == COMPOSITE_ALPHA_OPAQUE
        &&& self.clipped
        &&& self.image_view == color_view(format.format)
    }

    /// Decides the swapchain from what the surface offers.
    ///
    /// Fails with `NoSurfaceFormat` exactly when the preferred format is
    /// not offered and the list has no fallback entry.
    pub fn new(
        formats: &Vec<SurfaceFormatKHR>,
        capabilities: &SurfaceCapabilitiesKHR,
        present_modes: &Vec<i32>,
        graphics_queue: u32,
        presentation_queue: u32,
    ) -> (made: Result<Self, RendererError>)
        ensures
            match chosen_format(formats@) {
                Some(format) => made matches Ok(swapchain) && swapchain.chosen_from(
                    format,
                    *capabilities,
                    present_modes@,
                    graphics_queue,
                    presentation_queue,
                ),
                None => made matches Err(error) && error == RendererError::NoSurfaceFormat,
            },
    {
        let format = match Self::choose_format(formats) {
            Some(format) => format,
            None => {
                return Err(RendererError::NoSurfaceFormat);
            },
        };
        let extent = Self::choose_extent(capabilities);
        let min_image_count = Self::choose_image_count(
            capabilities.min_image_count,
            capabilities.max_image_count,
        );
        let present_mode = Self::choose_present_mode(present_modes);
        let mut queue_family_indices: Vec<u32> = Vec::new();
        let image_sharing_mode = if graphics_queue == presentation_queue {
            SHARING_MODE_EXCLUSIVE
        } else {
            queue_family_indices.push(graphics_queue);
            queue_family_indices.push(presentation_queue);
            SHARING_MODE_CONCURRENT
        };
        assert(queue_family_indices@ =~= sharing_families(graphics_queue, presentation_queue));
        Ok(
            VKSwapchain {
                extent,
                format,
                min_image_count,
                present_mode,
                image_sharing_mode,
                queue_family_indices,
                pre_transform: capabilities.current_transform,
                image_usage: IMAGE_USAGE_COLOR_ATTACHMENT,
                image_array_layers: 1,
                composite_alpha: COMPOSITE_ALPHA_OPAQUE,
                clipped: true,
                image_view: ImageViewDescription {
                    view_type: IMAGE_VIEW_TYPE_2D,
                    format: format.format,
                    swizzle_r: COMPONENT_SWIZZLE_R,
                    swizzle_g: COMPONENT_SWIZZLE_G,
                    swizzle_b: COMPONENT_SWIZZLE_B,
                    swizzle_a: COMPONENT_SWIZZLE_A,
                    aspect_mask: IMAGE_ASPECT_COLOR,
                    base_mip_level: 0,
                    level_count: 1,
                    base_array_layer: 0,
                    layer_count: 1,
                },
            },
        )
    }

    /// The surface format to use, if the candidates allow one.
    pub fn choose_format(formats: &Vec<SurfaceFormatKHR>) -> (choice: Option<SurfaceFormatKHR>)
        ensures
            choice == chosen_format(formats@),
    {
        let mut i: usize = 0;
        while i < formats.len()
            invariant
                i <= formats@.len(),
                forall|j: int| 0 <= j < i ==> formats@[j] != preferred_format(),
            decreases formats@.len() - i,
        {
            let format = formats[i];
            if format.format == FORMAT_B8G8R8A8_SRGB && format.color_space
                == COLOR_SPACE_SRGB_NONLINEAR {
                assert(formats@[i as int] == preferred_format());
                return Some(format);
            }
            i += 1;
        }
        if formats.len() > FALLBACK_FORMAT_INDEX {
            Some(formats[FALLBACK_FORMAT_INDEX])
        } else {
            None
        }
    }

    /// The present mode to use.
    pub fn choose_present_mode(present_modes: &Vec<i32>) -> (mode: i32)
        ensures
            mode == chosen_present_mode(present_modes@),
    {
        let mut i: usize = 0;
        while i < present_modes.len()
            invariant
                i <= present_modes@.len(),
                forall|j: int| 0 <= j < i ==> present_modes@[j] != PRESENT_MODE_MAILBOX,
            decreases present_modes@.len() - i,
        {
            if present_modes[i] == PRESENT_MODE_MAILBOX {
                return PRESENT_MODE_MAILBOX;
            }
            i += 1;
        }
        PRESENT_MODE_FIFO
    }

    /// The number of images to ask for.
    pub fn choose_image_count(min_image_count: u32, max_image_count: u32) -> (count: u32)
        ensures
            count == chosen_image_count(min_image_count, max_image_count),
    {
        if min_image_count < max_image_count {
            min_image_count + 1
        } else {
            max_image_count
        }
    }

    /// The size of the images to ask for.
    pub fn choose_extent(capabilities: &SurfaceCapabilitiesKHR) -> (extent: Extent2D)
        ensures
            extent == chosen_extent(*capabilities),
    {
        if capabilities.current_extent.width != EXTENT_UNDEFINED {
            capabilities.current_extent
        } else {
            capabilities.max_image_extent
        }
    }
}

/// The one colour attachment of the render pass.
#[derive(Clone, Copy, Debug, PartialEq, Eq, Structural)]
pub struct AttachmentDescription {
    pub format: i32,
    pub samples: u32,
    pub load_op: i32,
    pub store_op: i32,
    pub stencil_load_op: i32,
    pub stencil_store_op: i32,
    pub initial_layout: i32,
    pub final_layout: i32,
}

/// Which attachment a subpass draws to, and in what layout.
#[derive(Clone, Copy, Debug, PartialEq, Eq, Structural)]
pub struct AttachmentReference {
    pub attachment: u32,
    pub layout: i32,
}

/// What a subpass waits for before it writes its attachment.
#[derive(Clone, Copy, Debug, PartialEq, Eq, Structural)]
pub struct SubpassDependency {
    pub src_subpass: u32,
    pub dst_subpass: u32,
    pub src_stage_mask: u32,
    pub dst_stage_mask: u32,
    pub src_access_mask: u32,
    pub dst_access_mask: u32,
}

/// The render pass to create: one subpass drawing to one colour
/// attachment that is cleared on load and handed to presentation.
#[derive(Clone, Copy, Debug, PartialEq, Eq, Structural)]
pub struct VKRenderPass {
    pub color_attachment: AttachmentDescription,
    pub color_reference: AttachmentReference,
    pub pipeline_bind_point: i32,
    pub dependency: SubpassDependency,
}

impl VKRenderPass {
    /// What the render pass for images of `format` consists of.
    pub open spec fn for_format(format: i32) -> VKRenderPass {
        VKRenderPass {
            color_attachment: AttachmentDescription {
                format,
                samples: SAMPLE_COUNT_1,
                load_op: ATTACHMENT_LOAD_OP_CLEAR,
                store_op: ATTACHMENT_STORE_OP_STORE,
                stencil_load_op: ATTACHMENT_LOAD_OP_DONT_CARE,
                stencil_store_op: ATTACHMENT_STORE_OP_DONT_CARE,
                initial_layout: IMAGE_LAYOUT_UNDEFINED,
                final_layout: IMAGE_LAYOUT_PRESENT_SRC,
            },
            color_reference: AttachmentReference {
                attachment: 0,
                layout: IMAGE_LAYOUT_COLOR_ATTACHMENT_OPTIMAL,
            },
            pipeline_bind_point: PIPELINE_BIND_POINT_GRAPHICS,
            dependency: SubpassDependency {
                src_subpass: SUBPASS_EXTERNAL,
                dst_subpass: 0,
                src_stage_mask: PIPELINE_STAGE_COLOR_ATTACHMENT_OUTPUT,
                dst_stage_mask: PIPELINE_STAGE_COLOR_ATTACHMENT_OUTPUT,
                src_access_mask: 0,
                dst_access_mask: ACCESS_COLOR_ATTACHMENT_WRITE,
            },
        }
    }

    /// The render pass for images of `format`.
    pub fn new(format: i32) -> (pass: Self)
        ensures
            pass == Self::for_format(format),
    {
        VKRenderPass {
            color_attachment: AttachmentDescription {
                format,
                samples: SAMPLE_COUNT_1,
                load_op: ATTACHMENT_LOAD_OP_CLEAR,
                store_op: ATTACHMENT_STORE_OP_STORE,
                stencil_load_op: ATTACHMENT_LOAD_OP_DONT_CARE,
                stencil_store_op: ATTACHMENT_STORE_OP_DONT_CARE,
                initial_layout: IMAGE_LAYOUT_UNDEFINED,
                final_layout: IMAGE_LAYOUT_PRESENT_SRC,
            },
            color_reference: AttachmentReference {
                attachment: 0,
                layout: IMAGE_LAYOUT_COLOR_ATTACHMENT_OPTIMAL,
            },
            pipeline_bind_point: PIPELINE_BIND_POINT_GRAPHICS,
            dependency: SubpassDependency {
                src_subpass: SUBPASS_EXTERNAL,
                dst_subpass: 0,
                src_stage_mask: PIPELINE_STAGE_COLOR_ATTACHMENT_OUTPUT,
                dst_stage_mask: PIPELINE_STAGE_COLOR_ATTACHMENT_OUTPUT,
                src_access_mask: 0,
                dst_access_mask: ACCESS_COLOR_ATTACHMENT_WRITE,
            },
        }
    }

    /// The format of the images the pass draws to.
    pub open spec fn format(&self) -> i32 {
        self.color_attachment.format
    }
}

/// The framebuffers to create: one for each image view, each with that
/// view as its only attachment.
#[derive(Clone, Copy, Debug, PartialEq, Eq, Structural)]
pub struct VKFramebuffers {
    /// How many framebuffers there are; framebuffer `i` wraps view `i`.
    pub count: u32,
    pub width: u32,
    pub height: u32,
    pub layers: u32,
}

impl VKFramebuffers {
    /// One framebuffer of the given extent for each of the image views.
    pub fn new(swapchain_image_views: u32, extent: &Extent2D) -> (framebuffers: Self)
        ensures
            framebuffers == (VKFramebuffers {
                count: swapchain_image_views,
                width: extent.width,
                height: extent.height,
                layers: 1,
            }),
    {
        VKFramebuffers {
            count: swapchain_image_views,
            width: extent.width,
            height: extent.height,
            layers: 1,
        }
    }

    /// The size the framebuffers were made for.
    pub open spec fn extent(&self) -> Extent2D {
        Extent2D { width: self.width, height: self.height }
    }
}

} // verus!
