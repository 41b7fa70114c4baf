//! Bind groups and their layouts.
//!
//! The public descriptors describe bindings in a rich, nested form; the
//! backend consumes a flat form where the binding kind, the dynamic-offset
//! flag, multisampling, the view dimension and the storage format are all
//! separate fields. The flattening is a pure function, spelled out by the
//! spec functions next to it.

use vstd::prelude::*;

use crate::buffer::Bounded;
use crate::buffer::BufferRange;
use crate::id::ResourceId;
use crate::texture::Sampler;
use crate::texture::TextureFormat;
use crate::texture::TextureView;
use crate::texture::TextureViewDimension;

verus! {

/// Which pipeline stages can see a binding.
#[derive(Clone, Copy, Debug, PartialEq, Eq, Structural)]
pub struct ShaderStage {
    pub vertex: bool,
    pub fragment: bool,
    pub compute: bool,
}

/// Specific type of a binding.
#[derive(Clone, Copy, Debug, PartialEq, Eq, Structural)]
pub enum BindingType {
    UniformBuffer { dynamic: bool },
    StorageBuffer { dynamic: bool, readonly: bool },
    Sampler { comparison: bool },
    SampledTexture { dimension: TextureViewDimension, multisampled: bool },
    StorageTexture { dimension: TextureViewDimension, format: TextureFormat, readonly: bool },
}

/// A description of a single binding inside a bind group layout.
#[derive(Clone, Copy, Debug, PartialEq, Eq, Structural)]
pub struct BindGroupLayoutEntry {
    pub binding: u32,
    pub visibility: ShaderStage,
    pub ty: BindingType,
}

/// A description of a bind group layout.
#[derive(Clone, Debug)]
pub struct BindGroupLayoutDescriptor {
    pub bindings: Vec<BindGroupLayoutEntry>,
}

/// The flat binding kind the backend consumes.
#[derive(Clone, Copy, Debug, PartialEq, Eq, Structural)]
pub enum FlatBindingType {
    UniformBuffer,
    StorageBuffer,
    ReadonlyStorageBuffer,
    Sampler,
    ComparisonSampler,
    SampledTexture,
    ReadonlyStorageTexture,
    WriteonlyStorageTexture,
}

/// One layout entry in the flat form the backend consumes.
#[derive(Clone, Copy, Debug, PartialEq, Eq, Structural)]
pub struct FlatBindGroupLayoutEntry {
    pub binding: u32,
    pub visibility: ShaderStage,
    pub ty: FlatBindingType,
    pub has_dynamic_offset: bool,
    pub multisampled: bool,
    pub view_dimension: TextureViewDimension,
    pub storage_texture_format: TextureFormat,
}

/// The flat form of one layout entry.
///
/// The storage format field is meaningful only for storage textures; for
/// every other binding kind the backend ignores it and an arbitrary fixed
/// format is filled in. Likewise the view dimension defaults to two
/// dimensions for non-texture bindings.
pub open spec fn spec_flatten_layout_entry(e: BindGroupLayoutEntry) -> FlatBindGroupLayoutEntry {
    FlatBindGroupLayoutEntry {
        binding: e.binding,
        visibility: e.visibility,
        ty: match e.ty {
            BindingType::UniformBuffer { .. } => FlatBindingType::UniformBuffer,
            BindingType::StorageBuffer { readonly: false, .. } => FlatBindingType::StorageBuffer,
            BindingType::StorageBuffer { readonly: true, .. } => {
                FlatBindingType::ReadonlyStorageBuffer
            },
            BindingType::Sampler { comparison: false } => FlatBindingType::Sampler,
            BindingType::Sampler { .. } => FlatBindingType::ComparisonSampler,
            BindingType::SampledTexture { .. } => FlatBindingType::SampledTexture,
            BindingType::StorageTexture { readonly: true, .. } => {
                FlatBindingType::ReadonlyStorageTexture
            },
            BindingType::StorageTexture { .. } => FlatBindingType::WriteonlyStorageTexture,
        },
        has_dynamic_offset: match e.ty {
            BindingType::UniformBuffer { dynamic } => dynamic,
            BindingType::StorageBuffer { dynamic, .. } => dynamic,
            _ => false,
        },
        multisampled: match e.ty {
            BindingType::SampledTexture { multisampled, .. } => multisampled,
            _ => false,
        },
        view_dimension: match e.ty {
            BindingType::SampledTexture { dimension, .. } => dimension,
            BindingType::StorageTexture { dimension, .. } => dimension,
            _ => TextureViewDimension::D2,
        },
        storage_texture_format: match e.ty {
            BindingType::StorageTexture { format, .. } => format,
            _ => TextureFormat::Rgb10a2Unorm,
        },
    }
}

/// The flat form of a whole layout.
pub open spec fn spec_flatten_layout(entries: Seq<BindGroupLayoutEntry>) -> Seq<
    FlatBindGroupLayoutEntry,
> {
    entries.map_values(|e: BindGroupLayoutEntry| spec_flatten_layout_entry(e))
}

/// Flattens one layout entry.
pub fn flatten_layout_entry(e: &BindGroupLayoutEntry) -> (r: FlatBindGroupLayoutEntry)
    ensures
        r == spec_flatten_layout_entry(*e),
{
    let ty = match e.ty {
        BindingType::UniformBuffer { .. } => FlatBindingType::UniformBuffer,
        BindingType::StorageBuffer { readonly: false, .. } => FlatBindingType::StorageBuffer,
        BindingType::StorageBuffer { readonly: true, .. } => FlatBindingType::ReadonlyStorageBuffer,
        BindingType::Sampler { comparison: false } => FlatBindingType::Sampler,
        BindingType::Sampler { .. } => FlatBindingType::ComparisonSampler,
        BindingType::SampledTexture { .. } => FlatBindingType::SampledTexture,
        BindingType::StorageTexture { readonly: true, .. } => {
            FlatBindingType::ReadonlyStorageTexture
        },
        BindingType::StorageTexture { .. } => FlatBindingType::WriteonlyStorageTexture,
    };
    let has_dynamic_offset = match e.ty {
        BindingType::UniformBuffer { dynamic } => dynamic,
        BindingType::StorageBuffer { dynamic, .. } => dynamic,
        _ => false,
    };
    let multisampled = match e.ty {
        BindingType::SampledTexture { multisampled, .. } => multisampled,
        _ => false,
    };
    let view_dimension = match e.ty {
        BindingType::SampledTexture { dimension, .. } => dimension,
        BindingType::StorageTexture { dimension, .. } => dimension,
        _ => TextureViewDimension::D2,
    };
    let storage_texture_format = match e.ty {
        BindingType::StorageTexture { format, .. } => format,
        _ => TextureFormat::Rgb10a2Unorm,
    };
    FlatBindGroupLayoutEntry {
        binding: e.binding,
        visibility: e.visibility,
        ty,
        has_dynamic_offset,
        multisampled,
        view_dimension,
        storage_texture_format,
    }
}

/// Flattens a whole layout, keeping entry order.
pub fn flatten_layout(entries: &Vec<BindGroupLayoutEntry>) -> (r: Vec<FlatBindGroupLayoutEntry>)
    ensures
        r@ == spec_flatten_layout(entries@),
{
    let mut flat: Vec<FlatBindGroupLayoutEntry> = Vec::new();
    let mut i: usize = 0;
    while i < entries.len()
        invariant
            i <= entries.len(),
            flat@ == spec_flatten_layout(entries@.subrange(0, i as int)),
        decreases entries.len() - i,
    {
        flat.push(flatten_layout_entry(&entries[i]));
        i = i + 1;
        proof {
            assert(entries@.subrange(0, i as int).map_values(
                |e: BindGroupLayoutEntry| spec_flatten_layout_entry(e),
            ) =~= entries@.subrange(0, i as int - 1).map_values(
                |e: BindGroupLayoutEntry| spec_flatten_layout_entry(e),
            ).push(spec_flatten_layout_entry(entries@[i as int - 1])));
        }
    }
    proof {
        assert(entries@.subrange(0, entries@.len() as int) =~= entries@);
    }
    flat
}

/// An opaque handle to a bind group layout.
#[derive(Debug, PartialEq)]
pub struct BindGroupLayout {
    pub(crate) id: ResourceId,
}

impl BindGroupLayout {
    /// The identifier the registry issued for this layout.
    pub open(crate) spec fn spec_id(self) -> ResourceId {
        self.id
    }

    /// The identifier the registry issued for this layout.
    pub fn id(&self) -> (r: ResourceId)
        ensures
            r == self.spec_id(),
    {
        self.id
    }
}

/// A resource that can be bound to a pipeline.
#[derive(Clone, Copy)]
pub enum BindingResource<'a> {
    Buffer(BufferRange<'a, Bounded>),
    Sampler(&'a Sampler),
    TextureView(&'a TextureView),
}

/// A bindable resource and the slot to bind it to.
#[derive(Clone, Copy)]
pub struct Binding<'a> {
    pub binding: u32,
    pub resource: BindingResource<'a>,
}

/// A description of a group of bindings and the resources to be bound.
pub struct BindGroupDescriptor<'a> {
    /// The layout for this bind group.
    pub layout: &'a BindGroupLayout,
    /// The resources to bind to this bind group.
    pub bindings: Vec<Binding<'a>>,
}

/// One binding in the flat, identifier-based form the backend consumes.
#[derive(Clone, Copy, Debug, PartialEq, Eq, Structural)]
pub enum FlatBindingResource {
    Buffer { buffer: ResourceId, offset: u64, size: u64 },
    Sampler { sampler: ResourceId },
    TextureView { view: ResourceId },
}

/// One bind group entry in flat form.
#[derive(Clone, Copy, Debug, PartialEq, Eq, Structural)]
pub struct FlatBindGroupEntry {
    pub binding: u32,
    pub resource: FlatBindingResource,
}

/// The flat form of one binding.
pub open spec fn spec_flatten_binding(b: Binding<'_>) -> FlatBindGroupEntry {
    FlatBindGroupEntry {
        binding: b.binding,
        resource: match b.resource {
            BindingResource::Buffer(range) => FlatBindingResource::Buffer {
                buffer: range.spec_buffer().spec_id(),
                offset: range.spec_offset(),
                size: range.spec_size()->Some_0,
            },
            BindingResource::Sampler(sampler) => FlatBindingResource::Sampler {
                sampler: sampler.spec_id(),
            },
            BindingResource::TextureView(view) => FlatBindingResource::TextureView {
                view: view.spec_id(),
            },
        },
    }
}

/// The flat form of a whole bind group.
pub open spec fn spec_flatten_bindings(bs: Seq<Binding<'_>>) -> Seq<FlatBindGroupEntry> {
    bs.map_values(|b: Binding<'_>| spec_flatten_binding(b))
}

/// Flattens one binding.
pub fn flatten_binding(b: &Binding<'_>) -> (r: FlatBindGroupEntry)
    ensures
        r == spec_flatten_binding(*b),
{
    FlatBindGroupEntry {
        binding: b.binding,
        resource: match &b.resource {
            BindingResource::Buffer(range) => FlatBindingResource::Buffer {
                buffer: range.buffer.id(),
                offset: range.offset,
                size: range.size,
            },
            BindingResource::Sampler(sampler) => FlatBindingResource::Sampler {
                sampler: sampler.id(),
            },
            BindingResource::TextureView(view) => FlatBindingResource::TextureView {
                view: view.id(),
            },
        },
    }
}

/// Flattens a whole bind group descriptor's bindings, keeping order.
pub fn flatten_bindings(bs: &Vec<Binding<'_>>) -> (r: Vec<FlatBindGroupEntry>)
    ensures
        r@ == spec_flatten_bindings(bs@),
{
    let mut flat: Vec<FlatBindGroupEntry> = Vec::new();
    let mut i: usize = 0;
    while i < bs.len()
        invariant
            i <= bs.len(),
            flat@ == spec_flatten_bindings(bs@.subrange(0, i as int)),
        decreases bs.len() - i,
    {
        flat.push(flatten_binding(&bs[i]));
        i = i + 1;
        proof {
            assert(bs@.subrange(0, i as int).map_values(|b: Binding<'_>| spec_flatten_binding(b))
                =~= bs@.subrange(0, i as int - 1).map_values(
                |b: Binding<'_>| spec_flatten_binding(b),
            ).push(spec_flatten_binding(bs@[i as int - 1])));
        }
    }
    proof {
        assert(bs@.subrange(0, bs@.len() as int) =~= bs@);
    }
    flat
}

/// An opaque handle to a bind group.
#[derive(Debug, PartialEq)]
pub struct BindGroup {
    pub(crate) id: ResourceId,
}

impl BindGroup {
    /// The identifier the registry issued for this bind group.
    pub open(crate) spec fn spec_id(self) -> ResourceId {
        self.id
    }

    /// The identifier the registry issued for this bind group.
    pub fn id(&self) -> (r: ResourceId)
        ensures
            r == self.spec_id(),
    {
        self.id
    }
}

/// An opaque handle to a pipeline layout.
#[derive(Debug, PartialEq)]
pub struct PipelineLayout {
    pub(crate) id: ResourceId,
}

impl PipelineLayout {
    /// The identifier the registry issued for this pipeline layout.
    pub open(crate) spec fn spec_id(self) -> ResourceId {
        self.id
    }

    /// The identifier the registry issued for this pipeline layout.
    pub fn id(&self) -> (r: ResourceId)
        ensures
            r == self.spec_id(),
    {
        self.id
    }
}

/// A description of a pipeline layout.
pub struct PipelineLayoutDescriptor<'a> {
    pub bind_group_layouts: Vec<&'a BindGroupLayout>,
}

} // verus!
