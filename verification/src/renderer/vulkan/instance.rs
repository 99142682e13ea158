//! The Vulkan instance: versions, extensions and validation.
use vstd::prelude::*;
use crate::renderer::vulkan::flags::{make_version, packed_version};

verus! {

/// The window system the surface comes from.
#[derive(Clone, Copy, Debug, PartialEq, Eq, Structural)]
pub enum Platform {
    Windows,
    MacOs,
    Unix,
}

/// An instance extension the renderer may enable.
#[derive(Clone, Copy, Debug, PartialEq, Eq, Structural)]
pub enum InstanceExtension {
    /// `VK_KHR_surface`.
    Surface,
    /// `VK_KHR_win32_surface`.
    Win32Surface,
    /// `VK_MVK_macos_surface`.
    MacOsSurface,
    /// `VK_KHR_xlib_surface`.
    XlibSurface,
    /// `VK_EXT_debug_utils`.
    DebugUtils,
}

/// An instance layer the renderer may enable.
#[derive(Clone, Copy, Debug, PartialEq, Eq, Structural)]
pub enum InstanceLayer {
    /// `VK_LAYER_KHRONOS_validation`.
    KhronosValidation,
}

/// The instance to create.
#[derive(Clone, Debug, PartialEq, Eq)]
pub struct VKInstance {
    pub api_version: u32,
    pub application_version: u32,
    pub engine_version: u32,
    pub extensions: Vec<InstanceExtension>,
    pub layers: Vec<InstanceLayer>,
}

/// The surface extension of a window system.
pub open spec fn platform_surface(platform: Platform) -> InstanceExtension {
    match platform {
        Platform::Windows => InstanceExtension::Win32Surface,
        Platform::MacOs => InstanceExtension::MacOsSurface,
        Platform::Unix => InstanceExtension::XlibSurface,
    }
}

/// The extensions to enable: the surface, the platform's own surface,
/// and debug messages when validation is on.
pub open spec fn required_extensions(validation_enabled: bool, platform: Platform) -> Seq<
    InstanceExtension,
> {
    let surface = seq![InstanceExtension::Surface, platform_surface(platform)];
    if validation_enabled {
        surface.push(InstanceExtension::DebugUtils)
    } else {
        surface
    }
}

/// The layers to enable: validation when it is on, none otherwise.
pub open spec fn required_layers(validation_enabled: bool) -> Seq<InstanceLayer> {
    if validation_enabled {
        seq![InstanceLayer::KhronosValidation]
    } else {
        seq![]
    }
}

impl VKInstance {
    /// The name of the application and of its engine.
    pub fn application_name() -> (name: &'static str)
        ensures
            name@ == "VKAPP"@,
    {
        "VKAPP"
    }

    /// The instance for a window system, with or without validation:
    /// Vulkan 1.2, application and engine at version 0.0.1.
    pub fn new(validation_enabled: bool, platform: Platform) -> (instance: Self)
        ensures
            instance.api_version == packed_version(1, 2, 0),
            instance.application_version == packed_version(0, 0, 1),
            instance.engine_version == packed_version(0, 0, 1),
            instance.extensions@ == required_extensions(validation_enabled, platform),
            instance.layers@ == required_layers(validation_enabled),
    {
        let mut extensions: Vec<InstanceExtension> = Vec::new();
        extensions.push(InstanceExtension::Surface);
        extensions.push(
            match platform {
                Platform::Windows => InstanceExtension::Win32Surface,
                Platform::MacOs => InstanceExtension::MacOsSurface,
                Platform::Unix => InstanceExtension::XlibSurface,
            },
        );
        let mut layers: Vec<InstanceLayer> = Vec::new();
        if validation_enabled {
            extensions.push(InstanceExtension::DebugUtils);
            layers.push(InstanceLayer::KhronosValidation);
        }
        assert(extensions@ =~= required_extensions(validation_enabled, platform));
        assert(layers@ =~= required_layers(validation_enabled));
        VKInstance {
            api_version: make_version(1, 2, 0),
            application_version: make_version(0, 0, 1),
            engine_version: make_version(0, 0, 1),
            extensions,
            layers,
        }
    }
}

/// Vulkan 1.2.0 packs to 0x402000 and version 0.0.1 to 1.
pub proof fn lemma_versions()
    ensures
        packed_version(1, 2, 0) == 0x40_2000,
        packed_version(0, 0, 1) == 1,
{
    assert(((1u32 << 22u32) | (2u32 << 12u32) | 0u32) == 0x40_2000u32) by (bit_vector);
    assert(((0u32 << 22u32) | (0u32 << 12u32) | 1u32) == 1u32) by (bit_vector);
}

} // verus!
