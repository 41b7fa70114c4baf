//! Shader modules and pipeline descriptors.
//!
//! Pipelines are described with handles and borrowed strings; the core stores
//! them in a flat, identifier-based form with owned entry-point names, which
//! is what the backend consumes.

use vstd::prelude::*;

use crate::id::ResourceId;
use crate::texture::CompareFunction;
use crate::texture::TextureFormat;

verus! {

/// A handle to a compiled shader module.
#[derive(Debug, PartialEq)]
pub struct ShaderModule {
    pub(crate) id: ResourceId,
}

impl ShaderModule {
    /// The identifier the registry issued for this module.
    pub open(crate) spec fn spec_id(self) -> ResourceId {
        self.id
    }

    /// The identifier the registry issued for this module.
    pub fn id(&self) -> (r: ResourceId)
        ensures
            r == self.spec_id(),
    {
        self.id
    }
}

/// A description of a programmable pipeline stage.
#[derive(Clone, Copy)]
pub struct ProgrammableStageDescriptor<'a> {
    /// The compiled shader module for this stage.
    pub module: &'a ShaderModule,
    /// The name of the entry point in the compiled shader.
    pub entry_point: &'a str,
}

/// A programmable stage in the flat form the backend consumes.
pub struct ProgrammableStage {
    pub module: ResourceId,
    pub entry_point: String,
}

/// Whether `flat` is the flat form of `desc`: the module's identifier and the
/// same entry-point name.
pub open spec fn spec_stage_flattened(desc: ProgrammableStageDescriptor<'_>, flat: ProgrammableStage) -> bool {
    flat.module == desc.module.spec_id() && flat.entry_point@ == desc.entry_point@
}

/// Flattens one programmable stage.
pub fn flatten_stage(desc: &ProgrammableStageDescriptor<'_>) -> (r: ProgrammableStage)
    ensures
        spec_stage_flattened(*desc, r),
{
    ProgrammableStage { module: desc.module.id(), entry_point: desc.entry_point.to_owned() }
}

/// How vertex buffer elements advance.
#[derive(Clone, Copy, Debug, PartialEq, Eq, Structural)]
pub enum InputStepMode {
    Vertex,
    Instance,
}

/// The data type of one vertex attribute.
#[derive(Clone, Copy, Debug, PartialEq, Eq, Structural)]
pub enum VertexFormat {
    Uchar4,
    Uchar4Norm,
    Short2,
    Float,
    Float2,
    Float3,
    Float4,
    Uint,
    Int,
}

/// One attribute of a vertex.
#[derive(Clone, Copy, Debug, PartialEq, Eq, Structural)]
pub struct VertexAttributeDescriptor {
    pub offset: u64,
    pub format: VertexFormat,
    pub shader_location: u32,
}

/// A description of a vertex buffer.
#[derive(Clone, Debug)]
pub struct VertexBufferDescriptor {
    /// The stride, in bytes, between elements of this buffer.
    pub stride: u64,
    pub step_mode: InputStepMode,
    /// The attributes which comprise a single vertex.
    pub attributes: Vec<VertexAttributeDescriptor>,
}

/// How vertices are assembled into primitives.
#[derive(Clone, Copy, Debug, PartialEq, Eq, Structural)]
pub enum PrimitiveTopology {
    PointList,
    LineList,
    LineStrip,
    TriangleList,
    TriangleStrip,
}

/// Which winding counts as the front face.
#[derive(Clone, Copy, Debug, PartialEq, Eq, Structural)]
pub enum FrontFace {
    Ccw,
    Cw,
}

/// Which faces are culled.
#[derive(Clone, Copy, Debug, PartialEq, Eq, Structural)]
pub enum CullMode {
    Disabled,
    Front,
    Back,
}

/// The rasterization process for a pipeline.
#[derive(Clone, Copy, Debug, PartialEq, Eq, Structural)]
pub struct RasterizationStateDescriptor {
    pub front_face: FrontFace,
    pub cull_mode: CullMode,
    pub depth_bias: i32,
}

/// One input to a blend equation.
#[derive(Clone, Copy, Debug, PartialEq, Eq, Structural)]
pub enum BlendFactor {
    Zero,
    One,
    SrcColor,
    OneMinusSrcColor,
    SrcAlpha,
    OneMinusSrcAlpha,
    DstColor,
    OneMinusDstColor,
    DstAlpha,
    OneMinusDstAlpha,
}

/// How source and destination are combined.
#[derive(Clone, Copy, Debug, PartialEq, Eq, Structural)]
pub enum BlendOperation {
    Add,
    Subtract,
    ReverseSubtract,
    Min,
    Max,
}

/// One blend equation.
#[derive(Clone, Copy, Debug, PartialEq, Eq, Structural)]
pub struct BlendDescriptor {
    pub src_factor: BlendFactor,
    pub dst_factor: BlendFactor,
    pub operation: BlendOperation,
}

impl BlendDescriptor {
    /// The replacing blend: the source wins outright.
    pub fn replace() -> (r: BlendDescriptor)
        ensures
            r == (BlendDescriptor {
                src_factor: BlendFactor::One,
                dst_factor: BlendFactor::Zero,
                operation: BlendOperation::Add,
            }),
    {
        BlendDescriptor {
            src_factor: BlendFactor::One,
            dst_factor: BlendFactor::Zero,
            operation: BlendOperation::Add,
        }
    }
}

/// Which channels draw calls may write.
#[derive(Clone, Copy, Debug, PartialEq, Eq, Structural)]
pub struct ColorWrite {
    pub red: bool,
    pub green: bool,
    pub blue: bool,
    pub alpha: bool,
}

impl ColorWrite {
    /// All channels writable.
    pub fn all() -> (r: ColorWrite)
        ensures
            r == (ColorWrite { red: true, green: true, blue: true, alpha: true }),
    {
        ColorWrite { red: true, green: true, blue: true, alpha: true }
    }
}

/// The effect of draw calls on one color target.
#[derive(Clone, Copy, Debug, PartialEq, Eq, Structural)]
pub struct ColorStateDescriptor {
    pub format: TextureFormat,
    pub alpha_blend: BlendDescriptor,
    pub color_blend: BlendDescriptor,
    pub write_mask: ColorWrite,
}

/// What a stencil test failure or pass does.
#[derive(Clone, Copy, Debug, PartialEq, Eq, Structural)]
pub enum StencilOperation {
    Keep,
    Zero,
    Replace,
    Invert,
    IncrementClamp,
    DecrementClamp,
    IncrementWrap,
    DecrementWrap,
}

/// The stencil behavior for one face.
#[derive(Clone, Copy, Debug, PartialEq, Eq, Structural)]
pub struct StencilStateFaceDescriptor {
    pub compare: CompareFunction,
    pub fail_op: StencilOperation,
    pub depth_fail_op: StencilOperation,
    pub pass_op: StencilOperation,
}

/// The effect of draw calls on the depth and stencil aspects of the target.
#[derive(Clone, Copy, Debug, PartialEq, Eq, Structural)]
pub struct DepthStencilStateDescriptor {
    pub format: TextureFormat,
    pub depth_write_enabled: bool,
    pub depth_compare: CompareFunction,
    pub stencil_front: StencilStateFaceDescriptor,
    pub stencil_back: StencilStateFaceDescriptor,
    pub stencil_read_mask: u32,
    pub stencil_write_mask: u32,
}

/// The format of index buffers used with a pipeline.
#[derive(Clone, Copy, Debug, PartialEq, Eq, Structural)]
pub enum IndexFormat {
    Uint16,
    Uint32,
}

/// A complete description of a render pipeline.
pub struct RenderPipelineDescriptor<'a> {
    /// The layout of bind groups for this pipeline.
    pub layout: &'a crate::binding::PipelineLayout,
    /// The compiled vertex stage and its entry point.
    pub vertex_stage: ProgrammableStageDescriptor<'a>,
    /// The compiled fragment stage and its entry point, if any.
    pub fragment_stage: Option<ProgrammableStageDescriptor<'a>>,
    /// The rasterization process for this pipeline.
    pub rasterization_state: Option<RasterizationStateDescriptor>,
    /// The primitive topology used to interpret vertices.
    pub primitive_topology: PrimitiveTopology,
    /// The effect of draw calls on the color aspect of the output targets.
    pub color_states: Vec<ColorStateDescriptor>,
    /// The effect of draw calls on the depth and stencil aspects, if any.
    pub depth_stencil_state: Option<DepthStencilStateDescriptor>,
    /// The format of any index buffers used with this pipeline.
    pub index_format: IndexFormat,
    /// The format of any vertex buffers used with this pipeline.
    pub vertex_buffers: Vec<VertexBufferDescriptor>,
    /// The number of samples calculated per pixel.
    pub sample_count: u32,
    /// Bitmask restricting the samples of a pixel modified by this pipeline.
    pub sample_mask: u32,
    /// Whether an extra sample mask is derived from the alpha output.
    pub alpha_to_coverage_enabled: bool,
}

/// A complete description of a compute pipeline.
pub struct ComputePipelineDescriptor<'a> {
    /// The layout of bind groups for this pipeline.
    pub layout: &'a crate::binding::PipelineLayout,
    /// The compiled compute stage and its entry point.
    pub compute_stage: ProgrammableStageDescriptor<'a>,
}

/// A handle to a rendering (graphics) pipeline.
#[derive(Debug, PartialEq)]
pub struct RenderPipeline {
    pub(crate) id: ResourceId,
}

impl RenderPipeline {
    /// The identifier the registry issued for this pipeline.
    pub open(crate) spec fn spec_id(self) -> ResourceId {
        self.id
    }

    /// The identifier the registry issued for this pipeline.
    pub fn id(&self) -> (r: ResourceId)
        ensures
            r == self.spec_id(),
    {
        self.id
    }
}

/// A handle to a compute pipeline.
#[derive(Debug, PartialEq)]
pub struct ComputePipeline {
    pub(crate) id: ResourceId,
}

impl ComputePipeline {
    /// The identifier the registry issued for this pipeline.
    pub open(crate) spec fn spec_id(self) -> ResourceId {
        self.id
    }

    /// The identifier the registry issued for this pipeline.
    pub fn id(&self) -> (r: ResourceId)
        ensures
            r == self.spec_id(),
    {
        self.id
    }
}

} // verus!
