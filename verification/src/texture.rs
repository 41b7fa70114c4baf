//! Textures, texture views and samplers.
//!
//! The core tracks these resources by identifier and carries their
//! descriptors to the backend; it does not model texel storage. Copies that
//! touch textures are recorded and validated for encoder state, but their
//! contents live with the backend.

use vstd::prelude::*;

use crate::id::ResourceId;

verus! {

/// The extent of a texture operation in texels.
#[derive(Clone, Copy, Debug, PartialEq, Eq, Structural)]
pub struct Extent3d {
    pub width: u32,
    pub height: u32,
    pub depth: u32,
}

/// The base texel of a texture copy.
#[derive(Clone, Copy, Debug, PartialEq, Eq, Structural)]
pub struct Origin3d {
    pub x: u32,
    pub y: u32,
    pub z: u32,
}

impl Origin3d {
    /// The origin at the first texel.
    pub fn zero() -> (r: Origin3d)
        ensures
            r == (Origin3d { x: 0, y: 0, z: 0 }),
    {
        Origin3d { x: 0, y: 0, z: 0 }
    }
}

/// How many dimensions a texture has.
#[derive(Clone, Copy, Debug, PartialEq, Eq, Structural)]
pub enum TextureDimension {
    D1,
    D2,
    D3,
}

/// The texel format of a texture.
#[derive(Clone, Copy, Debug, PartialEq, Eq, Structural)]
pub enum TextureFormat {
    R8Unorm,
    Rg8Unorm,
    Rgba8Unorm,
    Rgba8UnormSrgb,
    Bgra8Unorm,
    Bgra8UnormSrgb,
    Rgb10a2Unorm,
    Depth24PlusStencil8,
}

/// What a texture may be used for.
#[derive(Clone, Copy, Debug, PartialEq, Eq, Structural)]
pub struct TextureUsage {
    pub copy_src: bool,
    pub copy_dst: bool,
    pub sampled: bool,
    pub storage: bool,
    pub output_attachment: bool,
}

impl TextureUsage {
    /// No usage at all.
    pub fn empty() -> (r: TextureUsage)
        ensures
            r == (TextureUsage {
                copy_src: false,
                copy_dst: false,
                sampled: false,
                storage: false,
                output_attachment: false,
            }),
    {
        TextureUsage {
            copy_src: false,
            copy_dst: false,
            sampled: false,
            storage: false,
            output_attachment: false,
        }
    }
}

/// Describes a texture to be created.
#[derive(Clone, Copy, Debug, PartialEq, Eq, Structural)]
pub struct TextureDescriptor {
    pub size: Extent3d,
    pub mip_level_count: u32,
    pub sample_count: u32,
    pub dimension: TextureDimension,
    pub format: TextureFormat,
    pub usage: TextureUsage,
}

/// A handle to a texture on the GPU.
///
/// The handle keeps the descriptor the texture was created with, so copies
/// can be validated against its extents without consulting the registry.
#[derive(Debug, PartialEq)]
pub struct Texture {
    pub(crate) id: ResourceId,
    pub(crate) device_id: ResourceId,
    pub(crate) desc: TextureDescriptor,
    /// Whether this handle owns the texture and must free it; swap-chain
    /// textures are borrowed, not owned.
    pub(crate) owned: bool,
    pub(crate) destroyed: bool,
}

impl Texture {
    /// The identifier the registry issued for this texture.
    pub open(crate) spec fn spec_id(self) -> ResourceId {
        self.id
    }

    /// The identifier of the owning device.
    pub open(crate) spec fn spec_device_id(self) -> ResourceId {
        self.device_id
    }

    /// Whether this handle owns the texture.
    pub open(crate) spec fn spec_owned(self) -> bool {
        self.owned
    }

    /// Whether this handle has already issued its backend free.
    pub open(crate) spec fn spec_destroyed(self) -> bool {
        self.destroyed
    }

    /// The descriptor the texture was created with.
    pub open(crate) spec fn spec_desc(self) -> TextureDescriptor {
        self.desc
    }

    /// The identifier the registry issued for this texture.
    pub fn id(&self) -> (r: ResourceId)
        ensures
            r == self.spec_id(),
    {
        self.id
    }

    /// The descriptor the texture was created with.
    pub fn desc(&self) -> (r: TextureDescriptor)
        ensures
            r == self.spec_desc(),
    {
        self.desc
    }
}

/// The extent of one mip level along one axis: each level halves the base,
/// never below one texel.
pub open spec fn spec_mip_dimension(base: u32, mip: u32) -> u32 {
    if mip >= 32 {
        1u32
    } else if base >> mip == 0 {
        1u32
    } else {
        base >> mip
    }
}

/// The extent of one mip level along one axis.
pub fn mip_dimension(base: u32, mip: u32) -> (r: u32)
    ensures
        r == spec_mip_dimension(base, mip),
{
    if mip >= 32 {
        1
    } else {
        let d = base >> mip;
        if d == 0 {
            1
        } else {
            d
        }
    }
}

/// Whether a copy of `size` texels at `origin` of mip level `mip_level` lies
/// inside a texture of descriptor `desc`: the level exists and the copied
/// block stays inside the level's extent on every axis.
pub open spec fn spec_texture_copy_fits(
    desc: TextureDescriptor,
    mip_level: u32,
    origin: Origin3d,
    size: Extent3d,
) -> bool {
    &&& mip_level < desc.mip_level_count
    &&& origin.x + size.width <= spec_mip_dimension(desc.size.width, mip_level)
    &&& origin.y + size.height <= spec_mip_dimension(desc.size.height, mip_level)
    &&& origin.z + size.depth <= spec_mip_dimension(desc.size.depth, mip_level)
}

/// Which aspect of a texture a view exposes.
#[derive(Clone, Copy, Debug, PartialEq, Eq, Structural)]
pub enum TextureAspect {
    All,
    StencilOnly,
    DepthOnly,
}

/// The dimensionality a view presents a texture with.
#[derive(Clone, Copy, Debug, PartialEq, Eq, Structural)]
pub enum TextureViewDimension {
    D1,
    D2,
    D2Array,
    Cube,
    CubeArray,
    D3,
}

/// Describes a view of a texture.
#[derive(Clone, Copy, Debug, PartialEq, Eq, Structural)]
pub struct TextureViewDescriptor {
    pub format: TextureFormat,
    pub dimension: TextureViewDimension,
    pub aspect: TextureAspect,
    pub base_mip_level: u32,
    pub level_count: u32,
    pub base_array_layer: u32,
    pub array_layer_count: u32,
}

/// A handle to a texture view.
#[derive(Debug, PartialEq)]
pub struct TextureView {
    pub(crate) id: ResourceId,
    /// Whether this handle owns the view and must free it.
    pub(crate) owned: bool,
    pub(crate) destroyed: bool,
}

impl TextureView {
    /// The identifier the registry issued for this view.
    pub open(crate) spec fn spec_id(self) -> ResourceId {
        self.id
    }

    /// Whether this handle owns the view.
    pub open(crate) spec fn spec_owned(self) -> bool {
        self.owned
    }

    /// Whether this handle has already issued its backend free.
    pub open(crate) spec fn spec_destroyed(self) -> bool {
        self.destroyed
    }

    /// The identifier the registry issued for this view.
    pub fn id(&self) -> (r: ResourceId)
        ensures
            r == self.spec_id(),
    {
        self.id
    }
}

/// How a sampler wraps coordinates outside a texture.
#[derive(Clone, Copy, Debug, PartialEq, Eq, Structural)]
pub enum AddressMode {
    ClampToEdge,
    Repeat,
    MirrorRepeat,
}

/// How a sampler blends between texels.
#[derive(Clone, Copy, Debug, PartialEq, Eq, Structural)]
pub enum FilterMode {
    Nearest,
    Linear,
}

/// The comparison a comparison sampler applies.
#[derive(Clone, Copy, Debug, PartialEq, Eq, Structural)]
pub enum CompareFunction {
    Never,
    Less,
    Equal,
    LessEqual,
    Greater,
    NotEqual,
    GreaterEqual,
    Always,
}

/// Describes a sampler: address modes per axis, filters, and the comparison
/// applied when the sampler is a comparison sampler.
#[derive(Clone, Copy, Debug, PartialEq, Eq, Structural)]
pub struct SamplerDescriptor {
    pub address_mode_u: AddressMode,
    pub address_mode_v: AddressMode,
    pub address_mode_w: AddressMode,
    pub mag_filter: FilterMode,
    pub min_filter: FilterMode,
    pub mipmap_filter: FilterMode,
    pub compare: Option<CompareFunction>,
}

/// A handle to a sampler.
#[derive(Debug, PartialEq)]
pub struct Sampler {
    pub(crate) id: ResourceId,
    pub(crate) destroyed: bool,
}

impl Sampler {
    /// The identifier the registry issued for this sampler.
    pub open(crate) spec fn spec_id(self) -> ResourceId {
        self.id
    }

    /// Whether this handle has already issued its backend free.
    pub open(crate) spec fn spec_destroyed(self) -> bool {
        self.destroyed
    }

    /// The identifier the registry issued for this sampler.
    pub fn id(&self) -> (r: ResourceId)
        ensures
            r == self.spec_id(),
    {
        self.id
    }
}

} // verus!
