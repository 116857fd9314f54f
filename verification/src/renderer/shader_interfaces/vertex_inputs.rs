//! Vertex input layouts of the pipelines.
use vstd::prelude::*;

verus! {

/// `VK_FORMAT_R32G32B32A32_SFLOAT`
pub const FORMAT_R32G32B32A32_SFLOAT: i32 = 109;

/// Bytes of a `[f32; 4]`.
pub const VEC4_SIZE: u32 = 16;
/// Bytes of a 4x4 `f32` matrix.
pub const MAT4_SIZE: u32 = 64;

/// Whether a binding advances per vertex or per instance.
#[derive(Debug, Clone, Copy, PartialEq, Eq, Structural)]
pub enum VertexInputRate {
    Vertex,
    Instance,
}

/// A vertex buffer binding.
#[derive(Debug, Clone, Copy, PartialEq, Eq, Structural)]
pub struct VertexInputBindingDescription {
    pub binding: u32,
    pub stride: u32,
    pub input_rate: VertexInputRate,
}

/// A vertex attribute: its shader location, binding, raw `VkFormat` and offset.
#[derive(Debug, Clone, Copy, PartialEq, Eq, Structural)]
pub struct VertexInputAttributeDescription {
    pub location: u32,
    pub binding: u32,
    pub format: i32,
    pub offset: u32,
}

/// The bindings and attributes of a vertex type.
pub struct VertexInputState {
    pub vertex_binding_descriptions: Vec<VertexInputBindingDescription>,
    pub vertex_attribute_descriptions: Vec<VertexInputAttributeDescription>,
}

/// A vertex type with its input layout.
pub trait VulkanVertex {
    /// The vertex buffer bindings of the type.
    spec fn binding_descriptions_of() -> Seq<VertexInputBindingDescription>;

    /// The vertex attributes of the type.
    spec fn attribute_descriptions_of() -> Seq<VertexInputAttributeDescription>;

    fn binding_descriptions() -> (res: Vec<VertexInputBindingDescription>)
        ensures
            res@ == Self::binding_descriptions_of(),
    ;

    fn attribute_descriptions() -> (res: Vec<VertexInputAttributeDescription>)
        ensures
            res@ == Self::attribute_descriptions_of(),
    ;

    /// The vertex input state of a pipeline drawing this type: its bindings and attributes.
    fn vertex_input_state() -> (res: VertexInputState)
        ensures
            res.vertex_binding_descriptions@ == Self::binding_descriptions_of(),
            res.vertex_attribute_descriptions@ == Self::attribute_descriptions_of(),
    {
        VertexInputState {
            vertex_binding_descriptions: Self::binding_descriptions(),
            vertex_attribute_descriptions: Self::attribute_descriptions(),
        }
    }
}

/// Should match inputs in `gizmos.frag`
/// (location 0: in_position: Vec4, per vertex; locations 1 to 4: in_orientation: Mat4, per instance)
#[derive(Default, Debug, Clone, Copy)]
pub struct GizmoVertex {}

impl VulkanVertex for GizmoVertex {
    open spec fn binding_descriptions_of() -> Seq<VertexInputBindingDescription> {
        seq![
            VertexInputBindingDescription { binding: 0, stride: VEC4_SIZE, input_rate: VertexInputRate::Vertex },
            VertexInputBindingDescription { binding: 1, stride: MAT4_SIZE, input_rate: VertexInputRate::Instance },
        ]
    }

    open spec fn attribute_descriptions_of() -> Seq<VertexInputAttributeDescription> {
        seq![
            VertexInputAttributeDescription { location: 0, binding: 0, format: FORMAT_R32G32B32A32_SFLOAT, offset: 0 },
            VertexInputAttributeDescription { location: 1, binding: 1, format: FORMAT_R32G32B32A32_SFLOAT, offset: 0 },
            VertexInputAttributeDescription { location: 2, binding: 1, format: FORMAT_R32G32B32A32_SFLOAT, offset: VEC4_SIZE },
            VertexInputAttributeDescription { location: 3, binding: 1, format: FORMAT_R32G32B32A32_SFLOAT, offset: 32 },
            VertexInputAttributeDescription { location: 4, binding: 1, format: FORMAT_R32G32B32A32_SFLOAT, offset: 48 },
        ]
    }

    fn binding_descriptions() -> (res: Vec<VertexInputBindingDescription>)
        ensures
            res@ == seq![
                VertexInputBindingDescription { binding: 0, stride: VEC4_SIZE, input_rate: VertexInputRate::Vertex },
                VertexInputBindingDescription { binding: 1, stride: MAT4_SIZE, input_rate: VertexInputRate::Instance },
            ],
    {
        vec![
            VertexInputBindingDescription { binding: 0, stride: VEC4_SIZE, input_rate: VertexInputRate::Vertex },
            VertexInputBindingDescription { binding: 1, stride: MAT4_SIZE, input_rate: VertexInputRate::Instance },
        ]
    }

    /// In order for a mat4 to be used as a vertex input, 4 vec4 locations are used; the
    /// driver then combines these locations into 1 so the shader can access the mat4.
    fn attribute_descriptions() -> (res: Vec<VertexInputAttributeDescription>)
        ensures
            res@ == seq![
                VertexInputAttributeDescription { location: 0, binding: 0, format: FORMAT_R32G32B32A32_SFLOAT, offset: 0 },
                VertexInputAttributeDescription { location: 1, binding: 1, format: FORMAT_R32G32B32A32_SFLOAT, offset: 0 },
                VertexInputAttributeDescription { location: 2, binding: 1, format: FORMAT_R32G32B32A32_SFLOAT, offset: VEC4_SIZE },
                VertexInputAttributeDescription { location: 3, binding: 1, format: FORMAT_R32G32B32A32_SFLOAT, offset: 32 },
                VertexInputAttributeDescription { location: 4, binding: 1, format: FORMAT_R32G32B32A32_SFLOAT, offset: 48 },
            ],
    {
        vec![
            VertexInputAttributeDescription { location: 0, binding: 0, format: FORMAT_R32G32B32A32_SFLOAT, offset: 0 },
            VertexInputAttributeDescription { location: 1, binding: 1, format: FORMAT_R32G32B32A32_SFLOAT, offset: 0 },
            VertexInputAttributeDescription { location: 2, binding: 1, format: FORMAT_R32G32B32A32_SFLOAT, offset: VEC4_SIZE },
            VertexInputAttributeDescription { location: 3, binding: 1, format: FORMAT_R32G32B32A32_SFLOAT, offset: 32 },
            VertexInputAttributeDescription { location: 4, binding: 1, format: FORMAT_R32G32B32A32_SFLOAT, offset: 48 },
        ]
    }
}

/// Should match inputs in `skybox.vert` (location 0: in_position: Vec4)
#[derive(Default, Debug, Clone, Copy)]
pub struct SkyboxVertex {}

impl VulkanVertex for SkyboxVertex {
    open spec fn binding_descriptions_of() -> Seq<VertexInputBindingDescription> {
        seq![VertexInputBindingDescription { binding: 0, stride: VEC4_SIZE, input_rate: VertexInputRate::Vertex }]
    }

    open spec fn attribute_descriptions_of() -> Seq<VertexInputAttributeDescription> {
        seq![VertexInputAttributeDescription { location: 0, binding: 0, format: FORMAT_R32G32B32A32_SFLOAT, offset: 0 }]
    }

    fn binding_descriptions() -> (res: Vec<VertexInputBindingDescription>)
        ensures
            res@ == seq![VertexInputBindingDescription { binding: 0, stride: VEC4_SIZE, input_rate: VertexInputRate::Vertex }],
    {
        vec![VertexInputBindingDescription { binding: 0, stride: VEC4_SIZE, input_rate: VertexInputRate::Vertex }]
    }

    fn attribute_descriptions() -> (res: Vec<VertexInputAttributeDescription>)
        ensures
            res@ == seq![VertexInputAttributeDescription { location: 0, binding: 0, format: FORMAT_R32G32B32A32_SFLOAT, offset: 0 }],
    {
        vec![VertexInputAttributeDescription { location: 0, binding: 0, format: FORMAT_R32G32B32A32_SFLOAT, offset: 0 }]
    }
}

} // verus!
