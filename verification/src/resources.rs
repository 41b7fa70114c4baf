//! Creation and destruction of the dependent resource kinds: textures and
//! their views, samplers, shader modules, bind group layouts and groups,
//! pipeline layouts, pipelines, and command encoders.
//!
//! Every creation registers the resource under a fresh identifier of the
//! owning device's context and stores the descriptor in the flat form the
//! backend consumes; the registry contracts guarantee the identifier was
//! never issued before and that nothing else moved.

use vstd::prelude::*;

use crate::binding::BindGroup;
use crate::binding::BindGroupDescriptor;
use crate::binding::BindGroupLayout;
use crate::binding::BindGroupLayoutDescriptor;
use crate::binding::FlatBindGroupEntry;
use crate::binding::FlatBindGroupLayoutEntry;
use crate::binding::PipelineLayout;
use crate::binding::PipelineLayoutDescriptor;
use crate::binding::flatten_bindings;
use crate::binding::flatten_layout;
use crate::binding::spec_flatten_bindings;
use crate::binding::spec_flatten_layout;
use crate::context::Context;
use crate::device::Device;
use crate::encoder::CommandEncoder;
use crate::error::Error;
use crate::error::ValidationCause;
use crate::id::ResourceId;
use crate::pipeline::ComputePipeline;
use crate::pipeline::ComputePipelineDescriptor;
use crate::pipeline::ProgrammableStage;
use crate::pipeline::RenderPipeline;
use crate::pipeline::RenderPipelineDescriptor;
use crate::pipeline::ShaderModule;
use crate::pipeline::flatten_stage;
use crate::texture::Sampler;
use crate::texture::SamplerDescriptor;
use crate::texture::Texture;
use crate::texture::TextureDescriptor;
use crate::texture::TextureView;
use crate::texture::TextureViewDescriptor;

verus! {

/// What the context stores per texture.
pub(crate) struct TextureResource {
    pub(crate) desc: TextureDescriptor,
    pub(crate) device: ResourceId,
}

/// What the context stores per texture view.
pub(crate) struct TextureViewResource {
    pub(crate) texture: ResourceId,
    /// The view's descriptor; a default view of the whole texture has none.
    pub(crate) desc: Option<TextureViewDescriptor>,
}

/// What the context stores per sampler.
pub(crate) struct SamplerResource {
    pub(crate) desc: SamplerDescriptor,
    pub(crate) device: ResourceId,
}

/// What the context stores per shader module: the SPIR-V words, kept as an
/// opaque blob for the backend.
pub(crate) struct ShaderModuleResource {
    pub(crate) code: Vec<u32>,
    pub(crate) device: ResourceId,
}

/// What the context stores per bind group layout.
pub(crate) struct BindGroupLayoutResource {
    pub(crate) entries: Vec<FlatBindGroupLayoutEntry>,
    pub(crate) device: ResourceId,
}

/// What the context stores per bind group.
pub(crate) struct BindGroupResource {
    pub(crate) layout: ResourceId,
    pub(crate) entries: Vec<FlatBindGroupEntry>,
    pub(crate) device: ResourceId,
}

/// What the context stores per pipeline layout.
pub(crate) struct PipelineLayoutResource {
    pub(crate) bind_group_layouts: Vec<ResourceId>,
    pub(crate) device: ResourceId,
}

/// What the context stores per render pipeline: the whole descriptor, with
/// the handles replaced by identifiers and the entry-point names owned.
pub(crate) struct RenderPipelineResource {
    pub(crate) layout: ResourceId,
    pub(crate) vertex_stage: ProgrammableStage,
    pub(crate) fragment_stage: Option<ProgrammableStage>,
    pub(crate) rasterization_state: Option<crate::pipeline::RasterizationStateDescriptor>,
    pub(crate) primitive_topology: crate::pipeline::PrimitiveTopology,
    pub(crate) color_states: Vec<crate::pipeline::ColorStateDescriptor>,
    pub(crate) depth_stencil_state: Option<crate::pipeline::DepthStencilStateDescriptor>,
    pub(crate) index_format: crate::pipeline::IndexFormat,
    pub(crate) vertex_buffers: Vec<crate::pipeline::VertexBufferDescriptor>,
    pub(crate) sample_count: u32,
    pub(crate) sample_mask: u32,
    pub(crate) alpha_to_coverage_enabled: bool,
    pub(crate) device: ResourceId,
}

/// What the context stores per compute pipeline.
pub(crate) struct ComputePipelineResource {
    pub(crate) layout: ResourceId,
    pub(crate) compute_stage: ProgrammableStage,
    pub(crate) device: ResourceId,
}

/// The identifiers of a sequence of borrowed bind group layouts.
pub open spec fn spec_layout_ids(ls: Seq<&BindGroupLayout>) -> Seq<ResourceId> {
    ls.map_values(|l: &BindGroupLayout| l.spec_id())
}

impl Context {
    /// None of the dependent resource registries changed.
    pub open(crate) spec fn spec_same_resources(self, pre: Context) -> bool {
        &&& self.textures == pre.textures
        &&& self.texture_views == pre.texture_views
        &&& self.samplers == pre.samplers
        &&& self.shader_modules == pre.shader_modules
        &&& self.bind_group_layouts == pre.bind_group_layouts
        &&& self.bind_groups == pre.bind_groups
        &&& self.pipeline_layouts == pre.pipeline_layouts
        &&& self.render_pipelines == pre.render_pipelines
        &&& self.compute_pipelines == pre.compute_pipelines
        &&& self.encoders == pre.encoders
    }

    /// Everything but the resource kind being created is unchanged.
    pub open(crate) spec fn spec_same_core(self, pre: Context) -> bool {
        &&& self.spec_backend() == pre.spec_backend()
        &&& self.spec_same_buffers(pre)
        &&& self.spec_same_devices(pre)
        &&& self.spec_same_futures(pre)
        &&& self.spec_same_adapters(pre)
        &&& self.spec_same_queues(pre)
    }

    /// Whether `id` names a live texture.
    pub open(crate) spec fn spec_texture_live(self, id: ResourceId) -> bool {
        self.textures.live(id)
    }

    /// A live texture's descriptor.
    pub open(crate) spec fn spec_texture_desc(self, id: ResourceId) -> TextureDescriptor {
        self.textures.value_of(id).desc
    }

    /// The device a live texture was created from.
    pub open(crate) spec fn spec_texture_device(self, id: ResourceId) -> ResourceId {
        self.textures.value_of(id).device
    }

    /// Whether `id` names a live texture view.
    pub open(crate) spec fn spec_texture_view_live(self, id: ResourceId) -> bool {
        self.texture_views.live(id)
    }

    /// The texture a live view looks into.
    pub open(crate) spec fn spec_texture_view_texture(self, id: ResourceId) -> ResourceId {
        self.texture_views.value_of(id).texture
    }

    /// A live view's descriptor, or none for a default view.
    pub open(crate) spec fn spec_texture_view_desc(self, id: ResourceId) -> Option<
        TextureViewDescriptor,
    > {
        self.texture_views.value_of(id).desc
    }

    /// Whether `id` names a live sampler.
    pub open(crate) spec fn spec_sampler_live(self, id: ResourceId) -> bool {
        self.samplers.live(id)
    }

    /// A live sampler's descriptor.
    pub open(crate) spec fn spec_sampler_desc(self, id: ResourceId) -> SamplerDescriptor {
        self.samplers.value_of(id).desc
    }

    /// Whether `id` names a live shader module.
    pub open(crate) spec fn spec_shader_module_live(self, id: ResourceId) -> bool {
        self.shader_modules.live(id)
    }

    /// A live shader module's SPIR-V words.
    pub open(crate) spec fn spec_shader_module_code(self, id: ResourceId) -> Seq<u32> {
        self.shader_modules.value_of(id).code@
    }

    /// Whether `id` names a live bind group layout.
    pub open(crate) spec fn spec_bind_group_layout_live(self, id: ResourceId) -> bool {
        self.bind_group_layouts.live(id)
    }

    /// A live bind group layout's flat entries.
    pub open(crate) spec fn spec_bind_group_layout_entries(self, id: ResourceId) -> Seq<
        FlatBindGroupLayoutEntry,
    > {
        self.bind_group_layouts.value_of(id).entries@
    }

    /// Whether `id` names a live bind group.
    pub open(crate) spec fn spec_bind_group_live(self, id: ResourceId) -> bool {
        self.bind_groups.live(id)
    }

    /// The layout a live bind group was created against.
    pub open(crate) spec fn spec_bind_group_layout_of(self, id: ResourceId) -> ResourceId {
        self.bind_groups.value_of(id).layout
    }

    /// A live bind group's flat entries.
    pub open(crate) spec fn spec_bind_group_entries(self, id: ResourceId) -> Seq<
        FlatBindGroupEntry,
    > {
        self.bind_groups.value_of(id).entries@
    }

    /// Whether `id` names a live pipeline layout.
    pub open(crate) spec fn spec_pipeline_layout_live(self, id: ResourceId) -> bool {
        self.pipeline_layouts.live(id)
    }

    /// A live pipeline layout's bind group layouts, in slot order.
    pub open(crate) spec fn spec_pipeline_layout_bind_group_layouts(self, id: ResourceId) -> Seq<
        ResourceId,
    > {
        self.pipeline_layouts.value_of(id).bind_group_layouts@
    }

    /// Whether `id` names a live render pipeline.
    pub open(crate) spec fn spec_render_pipeline_live(self, id: ResourceId) -> bool {
        self.render_pipelines.live(id)
    }

    /// A live render pipeline's layout.
    pub open(crate) spec fn spec_render_pipeline_layout(self, id: ResourceId) -> ResourceId {
        self.render_pipelines.value_of(id).layout
    }

    /// A live render pipeline's vertex stage: the module and the entry-point
    /// name.
    pub open(crate) spec fn spec_render_pipeline_vertex(self, id: ResourceId) -> (
        ResourceId,
        Seq<char>,
    ) {
        (
            self.render_pipelines.value_of(id).vertex_stage.module,
            self.render_pipelines.value_of(id).vertex_stage.entry_point@,
        )
    }

    /// Whether a live render pipeline has a fragment stage.
    pub open(crate) spec fn spec_render_pipeline_has_fragment(self, id: ResourceId) -> bool {
        self.render_pipelines.value_of(id).fragment_stage is Some
    }

    /// A live render pipeline's fragment stage, if any: the module and the
    /// entry-point name.
    pub open(crate) spec fn spec_render_pipeline_fragment(self, id: ResourceId) -> Option<
        (ResourceId, Seq<char>),
    > {
        match self.render_pipelines.value_of(id).fragment_stage {
            Some(fs) => Some((fs.module, fs.entry_point@)),
            None => None,
        }
    }

    /// A live render pipeline's rasterization process, if any.
    pub open(crate) spec fn spec_render_pipeline_rasterization(self, id: ResourceId) -> Option<
        crate::pipeline::RasterizationStateDescriptor,
    > {
        self.render_pipelines.value_of(id).rasterization_state
    }

    /// A live render pipeline's primitive topology.
    pub open(crate) spec fn spec_render_pipeline_topology(
        self,
        id: ResourceId,
    ) -> crate::pipeline::PrimitiveTopology {
        self.render_pipelines.value_of(id).primitive_topology
    }

    /// A live render pipeline's color target states, in target order.
    pub open(crate) spec fn spec_render_pipeline_color_states(self, id: ResourceId) -> Seq<
        crate::pipeline::ColorStateDescriptor,
    > {
        self.render_pipelines.value_of(id).color_states@
    }

    /// A live render pipeline's depth and stencil state, if any.
    pub open(crate) spec fn spec_render_pipeline_depth_stencil(self, id: ResourceId) -> Option<
        crate::pipeline::DepthStencilStateDescriptor,
    > {
        self.render_pipelines.value_of(id).depth_stencil_state
    }

    /// A live render pipeline's index buffer format.
    pub open(crate) spec fn spec_render_pipeline_index_format(
        self,
        id: ResourceId,
    ) -> crate::pipeline::IndexFormat {
        self.render_pipelines.value_of(id).index_format
    }

    /// A live render pipeline's vertex buffer layouts, in slot order.
    pub open(crate) spec fn spec_render_pipeline_vertex_buffers(self, id: ResourceId) -> Seq<
        crate::pipeline::VertexBufferDescriptor,
    > {
        self.render_pipelines.value_of(id).vertex_buffers@
    }

    /// A live render pipeline's sample count.
    pub open(crate) spec fn spec_render_pipeline_sample_count(self, id: ResourceId) -> u32 {
        self.render_pipelines.value_of(id).sample_count
    }

    /// A live render pipeline's sample mask.
    pub open(crate) spec fn spec_render_pipeline_sample_mask(self, id: ResourceId) -> u32 {
        self.render_pipelines.value_of(id).sample_mask
    }

    /// Whether a live render pipeline derives an extra sample mask from the
    /// alpha output.
    pub open(crate) spec fn spec_render_pipeline_alpha_to_coverage(self, id: ResourceId) -> bool {
        self.render_pipelines.value_of(id).alpha_to_coverage_enabled
    }

    /// Whether `id` names a live compute pipeline.
    pub open(crate) spec fn spec_compute_pipeline_live(self, id: ResourceId) -> bool {
        self.compute_pipelines.live(id)
    }

    /// A live compute pipeline's layout.
    pub open(crate) spec fn spec_compute_pipeline_layout(self, id: ResourceId) -> ResourceId {
        self.compute_pipelines.value_of(id).layout
    }

    /// A live compute pipeline's stage: the module and the entry-point name.
    pub open(crate) spec fn spec_compute_pipeline_stage(self, id: ResourceId) -> (
        ResourceId,
        Seq<char>,
    ) {
        (
            self.compute_pipelines.value_of(id).compute_stage.module,
            self.compute_pipelines.value_of(id).compute_stage.entry_point@,
        )
    }

    /// Whether `id` names a live command encoder.
    pub open(crate) spec fn spec_encoder_live(self, id: ResourceId) -> bool {
        self.encoders.live(id)
    }

    /// Creates a new texture.
    pub fn device_create_texture(&mut self, device: &Device, desc: &TextureDescriptor) -> (r:
        Texture)
        requires
            old(self).wf(),
            old(self).spec_device_live(device.spec_id()),
        ensures
            final(self).wf(),
            final(self).spec_same_core(*old(self)),
            !old(self).spec_texture_live(r.spec_id()),
            final(self).spec_texture_live(r.spec_id()),
            final(self).spec_texture_desc(r.spec_id()) == *desc,
            final(self).spec_texture_device(r.spec_id()) == device.spec_id(),
            r.spec_device_id() == device.spec_id(),
            r.spec_desc() == *desc,
            r.spec_owned(),
            !r.spec_destroyed(),
            forall|o: ResourceId|
                o != r.spec_id() ==> (final(self).spec_texture_live(o) <==> old(
                    self,
                ).spec_texture_live(o)),
    {
        let id = self.textures.allocate(TextureResource { desc: *desc, device: device.id() });
        Texture { id, device_id: device.id(), desc: *desc, owned: true, destroyed: false }
    }

    /// Creates a view of a texture; with no descriptor, the default view of
    /// the whole texture.
    pub fn texture_create_view(&mut self, texture: &Texture, desc: Option<&TextureViewDescriptor>) -> (r: TextureView)
        requires
            old(self).wf(),
            old(self).spec_texture_live(texture.spec_id()),
        ensures
            final(self).wf(),
            final(self).spec_same_core(*old(self)),
            !old(self).spec_texture_view_live(r.spec_id()),
            final(self).spec_texture_view_live(r.spec_id()),
            final(self).spec_texture_view_texture(r.spec_id()) == texture.spec_id(),
            final(self).spec_texture_view_desc(r.spec_id()) == (match desc {
                Some(d) => Some(*d),
                None => None::<TextureViewDescriptor>,
            }),
            r.spec_owned(),
            !r.spec_destroyed(),
    {
        let stored = match desc {
            Some(d) => Some(*d),
            None => None,
        };
        let id = self.texture_views.allocate(
            TextureViewResource { texture: texture.id(), desc: stored },
        );
        TextureView { id, owned: true, destroyed: false }
    }

    /// Creates a new sampler.
    pub fn device_create_sampler(&mut self, device: &Device, desc: &SamplerDescriptor) -> (r:
        Sampler)
        requires
            old(self).wf(),
            old(self).spec_device_live(device.spec_id()),
        ensures
            final(self).wf(),
            final(self).spec_same_core(*old(self)),
            !old(self).spec_sampler_live(r.spec_id()),
            final(self).spec_sampler_live(r.spec_id()),
            final(self).spec_sampler_desc(r.spec_id()) == *desc,
            !r.spec_destroyed(),
    {
        let id = self.samplers.allocate(SamplerResource { desc: *desc, device: device.id() });
        Sampler { id, destroyed: false }
    }

    /// Creates a shader module from SPIR-V source code, carried as an opaque
    /// blob of words.
    pub fn device_create_shader_module(&mut self, device: &Device, spv: Vec<u32>) -> (r:
        ShaderModule)
        requires
            old(self).wf(),
            old(self).spec_device_live(device.spec_id()),
        ensures
            final(self).wf(),
            final(self).spec_same_core(*old(self)),
            !old(self).spec_shader_module_live(r.spec_id()),
            final(self).spec_shader_module_live(r.spec_id()),
            final(self).spec_shader_module_code(r.spec_id()) == spv@,
    {
        let id = self.shader_modules.allocate(
            ShaderModuleResource { code: spv, device: device.id() },
        );
        ShaderModule { id }
    }

    /// Creates a bind group layout, storing the descriptor's entries in the
    /// flat form the backend consumes.
    pub fn device_create_bind_group_layout(
        &mut self,
        device: &Device,
        desc: &BindGroupLayoutDescriptor,
    ) -> (r: BindGroupLayout)
        requires
            old(self).wf(),
            old(self).spec_device_live(device.spec_id()),
        ensures
            final(self).wf(),
            final(self).spec_same_core(*old(self)),
            !old(self).spec_bind_group_layout_live(r.spec_id()),
            final(self).spec_bind_group_layout_live(r.spec_id()),
            final(self).spec_bind_group_layout_entries(r.spec_id()) == spec_flatten_layout(
                desc.bindings@,
            ),
    {
        let entries = flatten_layout(&desc.bindings);
        let id = self.bind_group_layouts.allocate(
            BindGroupLayoutResource { entries, device: device.id() },
        );
        BindGroupLayout { id }
    }

    /// Creates a bind group, storing the bindings in the flat,
    /// identifier-based form the backend consumes.
    pub fn device_create_bind_group(&mut self, device: &Device, desc: &BindGroupDescriptor<'_>) -> (r: BindGroup)
        requires
            old(self).wf(),
            old(self).spec_device_live(device.spec_id()),
        ensures
            final(self).wf(),
            final(self).spec_same_core(*old(self)),
            !old(self).spec_bind_group_live(r.spec_id()),
            final(self).spec_bind_group_live(r.spec_id()),
            final(self).spec_bind_group_layout_of(r.spec_id()) == desc.layout.spec_id(),
            final(self).spec_bind_group_entries(r.spec_id()) == spec_flatten_bindings(
                desc.bindings@,
            ),
    {
        let entries = flatten_bindings(&desc.bindings);
        let id = self.bind_groups.allocate(
            BindGroupResource { layout: desc.layout.id(), entries, device: device.id() },
        );
        BindGroup { id }
    }

    /// Creates a pipeline layout from a list of bind group layouts.
    ///
    /// A descriptor with more layouts than the device's bind group limit is a
    /// validation error: it is delivered to the device's sink, and the
    /// returned handle's identifier is already dead.
    pub fn device_create_pipeline_layout(
        &mut self,
        device: &Device,
        desc: &PipelineLayoutDescriptor<'_>,
    ) -> (r: PipelineLayout)
        requires
            old(self).wf(),
            old(self).spec_device_live(device.spec_id()),
        ensures
            final(self).wf(),
            final(self).spec_backend() == old(self).spec_backend(),
            final(self).spec_same_buffers(*old(self)),
            final(self).spec_same_futures(*old(self)),
            final(self).spec_same_adapters(*old(self)),
            final(self).spec_same_queues(*old(self)),
            final(self).spec_devices_framed(*old(self), device.spec_id()),
            !old(self).spec_pipeline_layout_live(r.spec_id()),
            desc.bind_group_layouts@.len() <= old(self).spec_device_limits(
                device.spec_id(),
            ).max_bind_groups ==> {
                &&& final(self).spec_pipeline_layout_live(r.spec_id())
                &&& final(self).spec_pipeline_layout_bind_group_layouts(r.spec_id())
                    == spec_layout_ids(desc.bind_group_layouts@)
                &&& final(self).spec_same_devices(*old(self))
            },
            desc.bind_group_layouts@.len() > old(self).spec_device_limits(
                device.spec_id(),
            ).max_bind_groups ==> {
                &&& !final(self).spec_pipeline_layout_live(r.spec_id())
                &&& final(self).spec_error_delivered(
                    *old(self),
                    device.spec_id(),
                    Error::Validation(ValidationCause::TooManyBindGroups),
                )
            },
    {
        let limit = match self.devices.resolve(device.id()) {
            Ok(res) => res.limits.max_bind_groups,
            Err(_) => vstd::pervasive::unreached(),
        };
        let mut ids: Vec<ResourceId> = Vec::new();
        let mut i: usize = 0;
        while i < desc.bind_group_layouts.len()
            invariant
                i <= desc.bind_group_layouts@.len(),
                ids@ == spec_layout_ids(desc.bind_group_layouts@.subrange(0, i as int)),
            decreases desc.bind_group_layouts@.len() - i,
        {
            ids.push(desc.bind_group_layouts[i].id());
            i = i + 1;
            proof {
                assert(desc.bind_group_layouts@.subrange(0, i as int).map_values(
                    |l: &BindGroupLayout| l.spec_id(),
                ) =~= desc.bind_group_layouts@.subrange(0, i as int - 1).map_values(
                    |l: &BindGroupLayout| l.spec_id(),
                ).push(desc.bind_group_layouts@[i as int - 1].spec_id()));
            }
        }
        proof {
            assert(desc.bind_group_layouts@.subrange(0, desc.bind_group_layouts@.len() as int)
                =~= desc.bind_group_layouts@);
        }
        if ids.len() > limit as usize {
            let id = self.pipeline_layouts.allocate(
                PipelineLayoutResource { bind_group_layouts: ids, device: device.id() },
            );
            let freed = self.pipeline_layouts.free(id);
            match freed {
                Ok(_) => {
                },
                Err(_) => {
                    proof {
                        assert(false);
                    }
                },
            }
            let ghost mid = *self;
            self.deliver_error(
                device.id(),
                Error::Validation(ValidationCause::TooManyBindGroups),
            );
            proof {
                assert(mid.devices == old(self).devices);
                assert forall|o: ResourceId| o != device.spec_id() implies (
                self.spec_device_live(o) <==> old(self).spec_device_live(o)) by {
                    assert(mid.spec_device_live(o) <==> old(self).spec_device_live(o));
                }
                assert forall|o: ResourceId|
                    o != device.spec_id() && old(self).spec_device_live(o) implies self.spec_device_unchanged(*old(self), o) by {
                    assert(mid.spec_device_unchanged(*old(self), o));
                    assert(self.spec_device_unchanged(mid, o));
                }
            }
            PipelineLayout { id }
        } else {
            let id = self.pipeline_layouts.allocate(
                PipelineLayoutResource { bind_group_layouts: ids, device: device.id() },
            );
            PipelineLayout { id }
        }
    }

    /// Creates a render pipeline: every part of the descriptor is stored,
    /// with the handles replaced by identifiers and the entry-point names
    /// owned.
    pub fn device_create_render_pipeline(
        &mut self,
        device: &Device,
        desc: RenderPipelineDescriptor<'_>,
    ) -> (r: RenderPipeline)
        requires
            old(self).wf(),
            old(self).spec_device_live(device.spec_id()),
        ensures
            final(self).wf(),
            final(self).spec_same_core(*old(self)),
            !old(self).spec_render_pipeline_live(r.spec_id()),
            final(self).spec_render_pipeline_live(r.spec_id()),
            final(self).spec_render_pipeline_layout(r.spec_id()) == desc.layout.spec_id(),
            final(self).spec_render_pipeline_vertex(r.spec_id()) == (
                desc.vertex_stage.module.spec_id(),
                desc.vertex_stage.entry_point@,
            ),
            final(self).spec_render_pipeline_has_fragment(r.spec_id())
                == (desc.fragment_stage is Some),
            desc.fragment_stage matches Some(fs) ==> final(self).spec_render_pipeline_fragment(
                r.spec_id(),
            ) == Some((fs.module.spec_id(), fs.entry_point@)),
            final(self).spec_render_pipeline_rasterization(r.spec_id())
                == desc.rasterization_state,
            final(self).spec_render_pipeline_topology(r.spec_id()) == desc.primitive_topology,
            final(self).spec_render_pipeline_color_states(r.spec_id()) == desc.color_states@,
            final(self).spec_render_pipeline_depth_stencil(r.spec_id())
                == desc.depth_stencil_state,
            final(self).spec_render_pipeline_index_format(r.spec_id()) == desc.index_format,
            final(self).spec_render_pipeline_vertex_buffers(r.spec_id())
                == desc.vertex_buffers@,
            final(self).spec_render_pipeline_sample_count(r.spec_id()) == desc.sample_count,
            final(self).spec_render_pipeline_sample_mask(r.spec_id()) == desc.sample_mask,
            final(self).spec_render_pipeline_alpha_to_coverage(r.spec_id())
                == desc.alpha_to_coverage_enabled,
    {
        let vertex_stage = flatten_stage(&desc.vertex_stage);
        let fragment_stage = match &desc.fragment_stage {
            Some(fs) => Some(flatten_stage(fs)),
            None => None,
        };
        let id = self.render_pipelines.allocate(
            RenderPipelineResource {
                layout: desc.layout.id(),
                vertex_stage,
                fragment_stage,
                rasterization_state: desc.rasterization_state,
                primitive_topology: desc.primitive_topology,
                color_states: desc.color_states,
                depth_stencil_state: desc.depth_stencil_state,
                index_format: desc.index_format,
                vertex_buffers: desc.vertex_buffers,
                sample_count: desc.sample_count,
                sample_mask: desc.sample_mask,
                alpha_to_coverage_enabled: desc.alpha_to_coverage_enabled,
                device: device.id(),
            },
        );
        RenderPipeline { id }
    }

    /// Creates a compute pipeline, storing its stage with an owned
    /// entry-point name.
    pub fn device_create_compute_pipeline(
        &mut self,
        device: &Device,
        desc: ComputePipelineDescriptor<'_>,
    ) -> (r: ComputePipeline)
        requires
            old(self).wf(),
            old(self).spec_device_live(device.spec_id()),
        ensures
            final(self).wf(),
            final(self).spec_same_core(*old(self)),
            !old(self).spec_compute_pipeline_live(r.spec_id()),
            final(self).spec_compute_pipeline_live(r.spec_id()),
            final(self).spec_compute_pipeline_layout(r.spec_id()) == desc.layout.spec_id(),
            final(self).spec_compute_pipeline_stage(r.spec_id()) == (
                desc.compute_stage.module.spec_id(),
                desc.compute_stage.entry_point@,
            ),
    {
        let compute_stage = flatten_stage(&desc.compute_stage);
        let id = self.compute_pipelines.allocate(
            ComputePipelineResource { layout: desc.layout.id(), compute_stage, device: device.id() },
        );
        ComputePipeline { id }
    }

    /// Creates an empty command encoder, recording and ready for commands.
    pub fn device_create_command_encoder(&mut self, device: &Device) -> (r: CommandEncoder)
        requires
            old(self).wf(),
            old(self).spec_device_live(device.spec_id()),
        ensures
            final(self).wf(),
            final(self).spec_same_core(*old(self)),
            final(self).spec_encoder_live(r.spec_id()),
            r.spec_device_id() == device.spec_id(),
            r.spec_state() is Recording,
            r.spec_commands() == Seq::<crate::encoder::Command>::empty(),
    {
        let id = self.encoders.allocate(device.id());
        CommandEncoder::new(id, device.id())
    }

    /// The layout of one of a compute pipeline's bind groups, for creating
    /// compatible bind groups by reflection.
    pub fn compute_pipeline_get_bind_group_layout(
        &self,
        pipeline: &ComputePipeline,
        index: u32,
    ) -> (r: Option<BindGroupLayout>)
        ensures
            r is Some <==> (self.spec_compute_pipeline_live(pipeline.spec_id())
                && self.spec_pipeline_layout_live(
                self.spec_compute_pipeline_layout(pipeline.spec_id()),
            ) && index < self.spec_pipeline_layout_bind_group_layouts(
                self.spec_compute_pipeline_layout(pipeline.spec_id()),
            ).len()),
            r matches Some(l) ==> l.spec_id() == self.spec_pipeline_layout_bind_group_layouts(
                self.spec_compute_pipeline_layout(pipeline.spec_id()),
            )[index as int],
    {
        let layout_id = match self.compute_pipelines.resolve(pipeline.id()) {
            Ok(res) => res.layout,
            Err(_) => {
                return None;
            },
        };
        match self.pipeline_layouts.resolve(layout_id) {
            Ok(res) => {
                if (index as usize) < res.bind_group_layouts.len() {
                    Some(BindGroupLayout { id: res.bind_group_layouts[index as usize] })
                } else {
                    None
                }
            },
            Err(_) => None,
        }
    }

    /// The layout of one of a render pipeline's bind groups, for creating
    /// compatible bind groups by reflection.
    pub fn render_pipeline_get_bind_group_layout(
        &self,
        pipeline: &RenderPipeline,
        index: u32,
    ) -> (r: Option<BindGroupLayout>)
        ensures
            r is Some <==> (self.spec_render_pipeline_live(pipeline.spec_id())
                && self.spec_pipeline_layout_live(
                self.spec_render_pipeline_layout(pipeline.spec_id()),
            ) && index < self.spec_pipeline_layout_bind_group_layouts(
                self.spec_render_pipeline_layout(pipeline.spec_id()),
            ).len()),
            r matches Some(l) ==> l.spec_id() == self.spec_pipeline_layout_bind_group_layouts(
                self.spec_render_pipeline_layout(pipeline.spec_id()),
            )[index as int],
    {
        let layout_id = match self.render_pipelines.resolve(pipeline.id()) {
            Ok(res) => res.layout,
            Err(_) => {
                return None;
            },
        };
        match self.pipeline_layouts.resolve(layout_id) {
            Ok(res) => {
                if (index as usize) < res.bind_group_layouts.len() {
                    Some(BindGroupLayout { id: res.bind_group_layouts[index as usize] })
                } else {
                    None
                }
            },
            Err(_) => None,
        }
    }
}

impl Context {
    /// Releases an adapter; its identifier never resolves again.
    pub fn adapter_drop(&mut self, adapter: &crate::device::Adapter)
        requires
            old(self).wf(),
        ensures
            final(self).wf(),
            final(self).spec_backend() == old(self).spec_backend(),
            final(self).spec_same_buffers(*old(self)),
            final(self).spec_same_devices(*old(self)),
            final(self).spec_same_futures(*old(self)),
            final(self).spec_same_queues(*old(self)),
            final(self).spec_same_resources(*old(self)),
            !final(self).spec_adapter_live(adapter.spec_id()),
            forall|o: ResourceId|
                o != adapter.spec_id() ==> (final(self).spec_adapter_live(o) <==> old(
                    self,
                ).spec_adapter_live(o)),
    {
        let freed = self.adapters.free(adapter.id());
        match freed {
            Ok(_) => {
            },
            Err(_) => {
            },
        }
    }

    /// Releases a sampler; its identifier never resolves again.
    pub fn sampler_drop(&mut self, sampler: &Sampler)
        requires
            old(self).wf(),
        ensures
            final(self).wf(),
            final(self).spec_same_core(*old(self)),
            !final(self).spec_sampler_live(sampler.spec_id()),
            forall|o: ResourceId|
                o != sampler.spec_id() ==> (final(self).spec_sampler_live(o) <==> old(
                    self,
                ).spec_sampler_live(o)),
    {
        let freed = self.samplers.free(sampler.id());
        match freed {
            Ok(_) => {
            },
            Err(_) => {
            },
        }
    }

    /// Releases a shader module; its identifier never resolves again.
    pub fn shader_module_drop(&mut self, module: &ShaderModule)
        requires
            old(self).wf(),
        ensures
            final(self).wf(),
            final(self).spec_same_core(*old(self)),
            !final(self).spec_shader_module_live(module.spec_id()),
            forall|o: ResourceId|
                o != module.spec_id() ==> (final(self).spec_shader_module_live(o) <==> old(
                    self,
                ).spec_shader_module_live(o)),
    {
        let freed = self.shader_modules.free(module.id());
        match freed {
            Ok(_) => {
            },
            Err(_) => {
            },
        }
    }

    /// Releases a bind group layout; its identifier never resolves again.
    pub fn bind_group_layout_drop(&mut self, layout: &BindGroupLayout)
        requires
            old(self).wf(),
        ensures
            final(self).wf(),
            final(self).spec_same_core(*old(self)),
            !final(self).spec_bind_group_layout_live(layout.spec_id()),
            forall|o: ResourceId|
                o != layout.spec_id() ==> (final(self).spec_bind_group_layout_live(o) <==> old(
                    self,
                ).spec_bind_group_layout_live(o)),
    {
        let freed = self.bind_group_layouts.free(layout.id());
        match freed {
            Ok(_) => {
            },
            Err(_) => {
            },
        }
    }

    /// Releases a pipeline layout; its identifier never resolves again.
    pub fn pipeline_layout_drop(&mut self, layout: &PipelineLayout)
        requires
            old(self).wf(),
        ensures
            final(self).wf(),
            final(self).spec_same_core(*old(self)),
            !final(self).spec_pipeline_layout_live(layout.spec_id()),
            forall|o: ResourceId|
                o != layout.spec_id() ==> (final(self).spec_pipeline_layout_live(o) <==> old(
                    self,
                ).spec_pipeline_layout_live(o)),
    {
        let freed = self.pipeline_layouts.free(layout.id());
        match freed {
            Ok(_) => {
            },
            Err(_) => {
            },
        }
    }

    /// Releases a render pipeline; its identifier never resolves again.
    pub fn render_pipeline_drop(&mut self, pipeline: &RenderPipeline)
        requires
            old(self).wf(),
        ensures
            final(self).wf(),
            final(self).spec_same_core(*old(self)),
            !final(self).spec_render_pipeline_live(pipeline.spec_id()),
            forall|o: ResourceId|
                o != pipeline.spec_id() ==> (final(self).spec_render_pipeline_live(o) <==> old(
                    self,
                ).spec_render_pipeline_live(o)),
    {
        let freed = self.render_pipelines.free(pipeline.id());
        match freed {
            Ok(_) => {
            },
            Err(_) => {
            },
        }
    }

    /// Releases a compute pipeline; its identifier never resolves again.
    pub fn compute_pipeline_drop(&mut self, pipeline: &ComputePipeline)
        requires
            old(self).wf(),
        ensures
            final(self).wf(),
            final(self).spec_same_core(*old(self)),
            !final(self).spec_compute_pipeline_live(pipeline.spec_id()),
            forall|o: ResourceId|
                o != pipeline.spec_id() ==> (final(self).spec_compute_pipeline_live(o) <==> old(
                    self,
                ).spec_compute_pipeline_live(o)),
    {
        let freed = self.compute_pipelines.free(pipeline.id());
        match freed {
            Ok(_) => {
            },
            Err(_) => {
            },
        }
    }
}

impl Texture {
    /// Frees the texture and retires its identifier; a handle that does not
    /// own its texture, or already destroyed it, leaves everything alone.
    pub fn destroy(&mut self, ctx: &mut Context)
        requires
            old(ctx).wf(),
        ensures
            final(ctx).wf(),
            final(ctx).spec_same_core(*old(ctx)),
            final(self).spec_id() == old(self).spec_id(),
            old(self).spec_owned() && !old(self).spec_destroyed() ==> (final(self).spec_destroyed() && !final(ctx).spec_texture_live(old(self).spec_id())),
            !(old(self).spec_owned() && !old(self).spec_destroyed()) ==> *final(ctx) == *old(ctx),
            forall|o: ResourceId|
                o != old(self).spec_id() ==> (final(ctx).spec_texture_live(o) <==> old(ctx).spec_texture_live(o)),
    {
        if self.owned && !self.destroyed {
            let freed = ctx.textures.free(self.id);
            match freed {
                Ok(_) => {
                },
                Err(_) => {
                },
            }
            self.destroyed = true;
        }
    }
}

impl TextureView {
    /// Frees the view and retires its identifier; a handle that does not own
    /// its view, or already destroyed it, leaves everything alone.
    pub fn destroy(&mut self, ctx: &mut Context)
        requires
            old(ctx).wf(),
        ensures
            final(ctx).wf(),
            final(ctx).spec_same_core(*old(ctx)),
            final(self).spec_id() == old(self).spec_id(),
            old(self).spec_owned() && !old(self).spec_destroyed() ==> (final(self).spec_destroyed() && !final(ctx).spec_texture_view_live(old(self).spec_id())),
            !(old(self).spec_owned() && !old(self).spec_destroyed()) ==> *final(ctx) == *old(ctx),
    {
        if self.owned && !self.destroyed {
            let freed = ctx.texture_views.free(self.id);
            match freed {
                Ok(_) => {
                },
                Err(_) => {
                },
            }
            self.destroyed = true;
        }
    }
}

impl BindGroup {
    /// Frees the bind group and retires its identifier.
    pub fn destroy(&mut self, ctx: &mut Context)
        requires
            old(ctx).wf(),
        ensures
            final(ctx).wf(),
            final(ctx).spec_same_core(*old(ctx)),
            !final(ctx).spec_bind_group_live(old(self).spec_id()),
            forall|o: ResourceId|
                o != old(self).spec_id() ==> (final(ctx).spec_bind_group_live(o) <==> old(ctx).spec_bind_group_live(o)),
    {
        let freed = ctx.bind_groups.free(self.id);
        match freed {
            Ok(_) => {
            },
            Err(_) => {
            },
        }
    }
}

} // verus!
