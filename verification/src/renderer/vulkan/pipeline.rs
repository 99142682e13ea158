//! The graphics pipeline: two shader stages and fixed-function state that
//! never changes once the pipeline exists.
use vstd::prelude::*;
use crate::renderer::vertex::{
    Vertex, VertexInputAttributeDescription, VertexInputBindingDescription, F32_ONE, F32_ZERO,
};

verus! {

/// All four `VK_COLOR_COMPONENT_*_BIT`s.
pub const COLOR_COMPONENT_RGBA: u32 = 0xF;

/// `VK_BLEND_OP_ADD`.
pub const BLEND_OP_ADD: i32 = 0;

/// `VK_BLEND_FACTOR_ZERO`.
pub const BLEND_FACTOR_ZERO: i32 = 0;

/// `VK_BLEND_FACTOR_ONE`.
pub const BLEND_FACTOR_ONE: i32 = 1;

/// `VK_LOGIC_OP_COPY`.
pub const LOGIC_OP_COPY: i32 = 3;

/// `VK_DYNAMIC_STATE_VIEWPORT`.
pub const DYNAMIC_STATE_VIEWPORT: i32 = 0;

/// `VK_DYNAMIC_STATE_SCISSOR`.
pub const DYNAMIC_STATE_SCISSOR: i32 = 1;

/// `VK_POLYGON_MODE_FILL`.
pub const POLYGON_MODE_FILL: i32 = 0;

/// `VK_FRONT_FACE_CLOCKWISE`.
pub const FRONT_FACE_CLOCKWISE: i32 = 1;

/// `VK_CULL_MODE_BACK_BIT`.
pub const CULL_MODE_BACK: u32 = 0x2;

/// `VK_PRIMITIVE_TOPOLOGY_TRIANGLE_LIST`.
pub const PRIMITIVE_TOPOLOGY_TRIANGLE_LIST: i32 = 3;

/// `VK_SHADER_STAGE_VERTEX_BIT`.
pub const SHADER_STAGE_VERTEX: u32 = 0x1;

/// `VK_SHADER_STAGE_FRAGMENT_BIT`.
pub const SHADER_STAGE_FRAGMENT: u32 = 0x10;

/// How the one colour attachment is written.
#[derive(Clone, Copy, Debug, PartialEq, Eq, Structural)]
pub struct ColorBlendAttachment {
    pub color_write_mask: u32,
    pub blend_enable: bool,
    pub color_blend_op: i32,
    pub alpha_blend_op: i32,
    pub src_color_blend_factor: i32,
    pub dst_color_blend_factor: i32,
    pub src_alpha_blend_factor: i32,
    pub dst_alpha_blend_factor: i32,
}

/// How primitives become fragments.
#[derive(Clone, Copy, Debug, PartialEq, Eq, Structural)]
pub struct RasterizationState {
    pub rasterizer_discard_enable: bool,
    pub depth_clamp_enable: bool,
    pub polygon_mode: i32,
    pub front_face: i32,
    pub cull_mode: u32,
    /// Bit pattern of the line width.
    pub line_width: u32,
    pub depth_bias_enable: bool,
}

/// How fragments are sampled.
#[derive(Clone, Copy, Debug, PartialEq, Eq, Structural)]
pub struct MultisampleState {
    pub rasterization_samples: u32,
    pub sample_shading_enable: bool,
    /// Bit pattern of the minimum sample shading fraction.
    pub min_sample_shading: u32,
    pub alpha_to_coverage_enable: bool,
    pub alpha_to_one_enable: bool,
}

/// The two programmable stages of the pipeline.
#[derive(Clone, Copy, Debug, PartialEq, Eq, Structural)]
pub enum Shader {
    /// The vertex program.
    MainVert,
    /// The fragment program.
    MainFrag,
}

/// One shader stage: the program, the stage it runs at and its entry
/// point, which is always `main`.
#[derive(Clone, Copy, Debug, PartialEq, Eq, Structural)]
pub struct ShaderStage {
    pub shader: Shader,
    pub stage: u32,
}

/// The pipeline to create.
#[derive(Clone, Debug, PartialEq, Eq)]
pub struct VKPipeline {
    /// Descriptor set layouts in the pipeline layout: the one of the
    /// uniform buffer.
    pub set_layout_count: u32,
    pub push_constant_range_count: u32,
    pub stages: Vec<ShaderStage>,
    pub vertex_bindings: Vec<VertexInputBindingDescription>,
    pub vertex_attributes: Vec<VertexInputAttributeDescription>,
    pub topology: i32,
    pub primitive_restart_enable: bool,
    pub viewport_count: u32,
    pub scissor_count: u32,
    pub dynamic_states: Vec<i32>,
    pub rasterization: RasterizationState,
    pub multisample: MultisampleState,
    pub color_blend_attachment: ColorBlendAttachment,
    pub logic_op_enable: bool,
    pub logic_op: i32,
    /// Bit patterns of the four blend constants.
    pub blend_constants: [u32; 4],
    pub depth_stencil: bool,
    pub tessellation: bool,
    pub subpass: u32,
    pub base_pipeline_index: i32,
}

/// Opaque writes of all four channels, with no blending.
pub open spec fn opaque_blend() -> ColorBlendAttachment {
    ColorBlendAttachment {
        color_write_mask: COLOR_COMPONENT_RGBA,
        blend_enable: false,
        color_blend_op: BLEND_OP_ADD,
        alpha_blend_op: BLEND_OP_ADD,
        src_color_blend_factor: BLEND_FACTOR_ONE,
        dst_color_blend_factor: BLEND_FACTOR_ZERO,
        src_alpha_blend_factor: BLEND_FACTOR_ONE,
        dst_alpha_blend_factor: BLEND_FACTOR_ZERO,
    }
}

/// Filled triangles, clockwise front faces, back faces culled.
pub open spec fn filled_triangles() -> RasterizationState {
    RasterizationState {
        rasterizer_discard_enable: false,
        depth_clamp_enable: false,
        polygon_mode: POLYGON_MODE_FILL,
        front_face: FRONT_FACE_CLOCKWISE,
        cull_mode: CULL_MODE_BACK,
        line_width: F32_ONE,
        depth_bias_enable: false,
    }
}

/// One sample per pixel.
pub open spec fn single_sample() -> MultisampleState {
    MultisampleState {
        rasterization_samples: 1,
        sample_shading_enable: false,
        min_sample_shading: F32_ONE,
        alpha_to_coverage_enable: false,
        alpha_to_one_enable: false,
    }
}

impl VKPipeline {
    /// The pipeline is the one this renderer draws with.
    pub open spec fn fixed(&self) -> bool {
        &&& self.set_layout_count == 1
        &&& self.push_constant_range_count == 0
        &&& self.stages@ == seq![
            ShaderStage { shader: Shader::MainVert, stage: SHADER_STAGE_VERTEX },
            ShaderStage { shader: Shader::MainFrag, stage: SHADER_STAGE_FRAGMENT },
        ]
        &&& self.vertex_bindings@ == Vertex::binding_descriptions()
        &&& self.vertex_attributes@ == Vertex::attribute_descriptions()
        &&& self.topology == PRIMITIVE_TOPOLOGY_TRIANGLE_LIST
        &&& !self.primitive_restart_enable
        &&& self.viewport_count == 1
        &&& self.scissor_count == 1
        &&& self.dynamic_states@ == seq![DYNAMIC_STATE_SCISSOR, DYNAMIC_STATE_VIEWPORT]
        &&& self.rasterization == filled_triangles()
        &&& self.multisample == single_sample()
        &&& self.color_blend_attachment == opaque_blend()
        &&& !self.logic_op_enable
        &&& self.logic_op == LOGIC_OP_COPY
        &&& self.blend_constants@ == seq![F32_ZERO, F32_ZERO, F32_ZERO, F32_ZERO]
        &&& !self.depth_stencil
        &&& !self.tessellation
        &&& self.subpass == 0
        &&& self.base_pipeline_index == -1
    }

    /// The name of the entry point of every stage.
    pub fn entry_point() -> (name: &'static str)
        ensures
            name@ == "main"@,
    {
        "main"
    }

    /// The pipeline this renderer draws with.
    pub fn new() -> (pipeline: Self)
        ensures
            pipeline.fixed(),
    {
        let mut stages: Vec<ShaderStage> = Vec::new();
        stages.push(ShaderStage { shader: Shader::MainVert, stage: SHADER_STAGE_VERTEX });
        stages.push(ShaderStage { shader: Shader::MainFrag, stage: SHADER_STAGE_FRAGMENT });
        let bindings = Vertex::get_binding_descriptions();
        let mut vertex_bindings: Vec<VertexInputBindingDescription> = Vec::new();
        vertex_bindings.push(bindings[0]);
        let attributes = Vertex::get_attribute_descriptions();
        let mut vertex_attributes: Vec<VertexInputAttributeDescription> = Vec::new();
        vertex_attributes.push(attributes[0]);
        vertex_attributes.push(attributes[1]);
        let mut dynamic_states: Vec<i32> = Vec::new();
        dynamic_states.push(DYNAMIC_STATE_SCISSOR);
        dynamic_states.push(DYNAMIC_STATE_VIEWPORT);
        let blend_constants = [F32_ZERO, F32_ZERO, F32_ZERO, F32_ZERO];
        proof {
            assert(stages@ =~= seq![
                ShaderStage { shader: Shader::MainVert, stage: SHADER_STAGE_VERTEX },
                ShaderStage { shader: Shader::MainFrag, stage: SHADER_STAGE_FRAGMENT },
            ]);
            assert(vertex_bindings@ =~= Vertex::binding_descriptions());
            assert(vertex_attributes@ =~= Vertex::attribute_descriptions());
            assert(dynamic_states@ =~= seq![DYNAMIC_STATE_SCISSOR, DYNAMIC_STATE_VIEWPORT]);
            assert(blend_constants@ =~= seq![F32_ZERO, F32_ZERO, F32_ZERO, F32_ZERO]);
        }
        VKPipeline {
            set_layout_count: 1,
            push_constant_range_count: 0,
            stages,
            vertex_bindings,
            vertex_attributes,
            topology: PRIMITIVE_TOPOLOGY_TRIANGLE_LIST,
            primitive_restart_enable: false,
            viewport_count: 1,
            scissor_count: 1,
            dynamic_states,
            rasterization: RasterizationState {
                rasterizer_discard_enable: false,
                depth_clamp_enable: false,
                polygon_mode: POLYGON_MODE_FILL,
                front_face: FRONT_FACE_CLOCKWISE,
                cull_mode: CULL_MODE_BACK,
                line_width: F32_ONE,
                depth_bias_enable: false,
            },
            multisample: MultisampleState {
                rasterization_samples: 1,
                sample_shading_enable: false,
                min_sample_shading: F32_ONE,
                alpha_to_coverage_enable: false,
                alpha_to_one_enable: false,
            },
            color_blend_attachment: ColorBlendAttachment {
                color_write_mask: COLOR_COMPONENT_RGBA,
                blend_enable: false,
                color_blend_op: BLEND_OP_ADD,
                alpha_blend_op: BLEND_OP_ADD,
                src_color_blend_factor: BLEND_FACTOR_ONE,
                dst_color_blend_factor: BLEND_FACTOR_ZERO,
                src_alpha_blend_factor: BLEND_FACTOR_ONE,
                dst_alpha_blend_factor: BLEND_FACTOR_ZERO,
            },
            logic_op_enable: false,
            logic_op: LOGIC_OP_COPY,
            blend_constants,
            depth_stencil: false,
            tessellation: false,
            subpass: 0,
            base_pipeline_index: -1,
        }
    }
}

} // verus!
