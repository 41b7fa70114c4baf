//! Render and compute passes: scoped sub-recordings within a command
//! encoder.
//!
//! A pass collects its commands locally while it is open; ending the pass
//! flushes them into the parent encoder's command stream. The encoder allows
//! at most one open pass at a time and refuses a pass that belongs to a
//! different encoder.

use vstd::prelude::*;

use crate::buffer::BufferRange;
use crate::buffer::Unbounded;
use crate::buffer::Unsure;
use crate::id::ResourceId;

verus! {

/// An offset applied to a dynamic binding when a bind group is set.
pub type DynamicOffset = u32;

/// A color carried by value through the core.
///
/// The core never interprets channel values; each field holds the raw bit
/// pattern of one double-precision channel, exactly as the backend will
/// receive it.
#[derive(Clone, Copy, Debug, PartialEq, Eq, Structural)]
pub struct Color {
    pub r_bits: u64,
    pub g_bits: u64,
    pub b_bits: u64,
    pub a_bits: u64,
}

impl Color {
    /// The all-zero color, used where a load operation needs no clear value.
    pub fn zero() -> (r: Color)
        ensures
            r == spec_default_color(),
    {
        Color { r_bits: 0, g_bits: 0, b_bits: 0, a_bits: 0 }
    }
}

/// How an attachment is initialized at the start of a pass.
#[derive(Clone, Copy, Debug, PartialEq, Eq, Structural)]
pub enum LoadOp<V> {
    /// Clear the attachment to this value.
    Clear(V),
    /// Keep whatever the attachment already holds.
    Load,
}

/// What a pass does with one attachment: how to load it, and whether to
/// store the result.
#[derive(Clone, Copy, Debug, PartialEq, Eq, Structural)]
pub struct Operations<V> {
    pub load: LoadOp<V>,
    pub store: bool,
}

/// The load half of a flattened pass channel.
#[derive(Clone, Copy, Debug, PartialEq, Eq, Structural)]
pub enum PassLoadOp {
    Clear,
    Load,
}

/// The store half of a flattened pass channel.
#[derive(Clone, Copy, Debug, PartialEq, Eq, Structural)]
pub enum PassStoreOp {
    Clear,
    Store,
}

/// One attachment channel in the form the backend consumes: a load op, a
/// store op, a clear value, and whether the channel is read-only.
#[derive(Clone, Copy, Debug, PartialEq, Eq, Structural)]
pub struct PassChannel<V> {
    pub load_op: PassLoadOp,
    pub store_op: PassStoreOp,
    pub clear_value: V,
    pub read_only: bool,
}

/// The all-zero color used where a load operation needs no clear value.
pub open spec fn spec_default_color() -> Color {
    Color { r_bits: 0, g_bits: 0, b_bits: 0, a_bits: 0 }
}

/// The flattening [`map_pass_channel`] performs.
///
/// Present operations become a writable channel whose store op is `Store`
/// exactly when storing was requested and whose clear value is the requested
/// one (or the default when loading); an absent operations value means the
/// attachment is used read-only, loaded and stored.
pub open spec fn spec_map_pass_channel<V>(ops: Option<Operations<V>>, default_value: V) -> PassChannel<
    V,
> {
    match ops {
        Some(o) => PassChannel {
            load_op: match o.load {
                LoadOp::Clear(_) => PassLoadOp::Clear,
                LoadOp::Load => PassLoadOp::Load,
            },
            store_op: if o.store {
                PassStoreOp::Store
            } else {
                PassStoreOp::Clear
            },
            clear_value: match o.load {
                LoadOp::Clear(v) => v,
                LoadOp::Load => default_value,
            },
            read_only: false,
        },
        None => PassChannel {
            load_op: PassLoadOp::Load,
            store_op: PassStoreOp::Store,
            clear_value: default_value,
            read_only: true,
        },
    }
}

/// Flattens one attachment's operations into the channel form the backend
/// consumes.
pub fn map_pass_channel<V: Copy>(ops: Option<Operations<V>>, default_value: V) -> (r: PassChannel<
    V,
>)
    ensures
        r == spec_map_pass_channel(ops, default_value),
{
    match ops {
        Some(o) => {
            let (load_op, clear_value) = match o.load {
                LoadOp::Clear(v) => (PassLoadOp::Clear, v),
                LoadOp::Load => (PassLoadOp::Load, default_value),
            };
            PassChannel {
                load_op,
                store_op: if o.store {
                    PassStoreOp::Store
                } else {
                    PassStoreOp::Clear
                },
                clear_value,
                read_only: false,
            }
        },
        None => PassChannel {
            load_op: PassLoadOp::Load,
            store_op: PassStoreOp::Store,
            clear_value: default_value,
            read_only: true,
        },
    }
}

/// One color attachment of a render pass.
#[derive(Clone, Copy, Debug, PartialEq, Eq, Structural)]
pub struct RenderPassColorAttachment {
    /// The texture view rendered to.
    pub attachment: ResourceId,
    /// The texture view multisampled output resolves into, if any.
    pub resolve_target: Option<ResourceId>,
    /// What to do with the attachment at the pass boundaries.
    pub ops: Operations<Color>,
}

/// The depth and stencil attachment of a render pass.
#[derive(Clone, Copy, Debug, PartialEq, Eq, Structural)]
pub struct RenderPassDepthStencilAttachment {
    pub attachment: ResourceId,
    pub depth_ops: Option<Operations<u32>>,
    pub stencil_ops: Option<Operations<u32>>,
}

/// A description of all the attachments of a render pass.
#[derive(Clone, Debug)]
pub struct RenderPassDescriptor {
    pub color_attachments: Vec<RenderPassColorAttachment>,
    pub depth_stencil_attachment: Option<RenderPassDepthStencilAttachment>,
}

/// One color attachment in flattened form.
#[derive(Clone, Copy, Debug, PartialEq, Eq, Structural)]
pub struct ColorAttachmentTarget {
    pub attachment: ResourceId,
    pub resolve_target: Option<ResourceId>,
    pub channel: PassChannel<Color>,
}

/// The depth and stencil attachment in flattened form.
#[derive(Clone, Copy, Debug, PartialEq, Eq, Structural)]
pub struct DepthStencilTarget {
    pub attachment: ResourceId,
    pub depth: PassChannel<u32>,
    pub stencil: PassChannel<u32>,
}

/// Flattens one color attachment.
pub open spec fn spec_flatten_color(ca: RenderPassColorAttachment) -> ColorAttachmentTarget {
    ColorAttachmentTarget {
        attachment: ca.attachment,
        resolve_target: ca.resolve_target,
        channel: spec_map_pass_channel(Some(ca.ops), spec_default_color()),
    }
}

/// Flattens the depth and stencil attachment.
pub open spec fn spec_flatten_depth_stencil(dsa: RenderPassDepthStencilAttachment) -> DepthStencilTarget {
    DepthStencilTarget {
        attachment: dsa.attachment,
        depth: spec_map_pass_channel(dsa.depth_ops, 0u32),
        stencil: spec_map_pass_channel(dsa.stencil_ops, 0u32),
    }
}

/// One recorded render-pass command.
#[derive(Clone, Debug)]
pub enum RenderCommand {
    SetPipeline { pipeline: ResourceId },
    SetBindGroup { index: u32, bind_group: ResourceId, offsets: Vec<DynamicOffset> },
    SetIndexBuffer { buffer: ResourceId, offset: u64, size: u64 },
    SetVertexBuffer { slot: u32, buffer: ResourceId, offset: u64, size: u64 },
    SetBlendColor { color: Color },
    SetScissorRect { x: u32, y: u32, w: u32, h: u32 },
    SetStencilReference { reference: u32 },
    Draw { vertex_count: u32, instance_count: u32, first_vertex: u32, first_instance: u32 },
    DrawIndexed {
        index_count: u32,
        instance_count: u32,
        first_index: u32,
        base_vertex: i32,
        first_instance: u32,
    },
    DrawIndirect { buffer: ResourceId, offset: u64 },
    DrawIndexedIndirect { buffer: ResourceId, offset: u64 },
}

/// One recorded compute-pass command.
#[derive(Clone, Debug)]
pub enum ComputeCommand {
    SetPipeline { pipeline: ResourceId },
    SetBindGroup { index: u32, bind_group: ResourceId, offsets: Vec<DynamicOffset> },
    Dispatch { x: u32, y: u32, z: u32 },
    DispatchIndirect { buffer: ResourceId, offset: u64 },
}

/// An in-progress recording of a render pass.
///
/// The pass belongs to the encoder that began it and must be handed back to
/// that encoder to end; its commands reach the encoder's stream only then.
pub struct RenderPass {
    pub(crate) parent: ResourceId,
    pub(crate) color_targets: Vec<ColorAttachmentTarget>,
    pub(crate) depth_stencil_target: Option<DepthStencilTarget>,
    pub(crate) commands: Vec<RenderCommand>,
}

impl RenderPass {
    /// The encoder this pass was begun on.
    pub open(crate) spec fn spec_parent(self) -> ResourceId {
        self.parent
    }

    /// The flattened color attachments the pass renders to.
    pub open(crate) spec fn spec_color_targets(self) -> Seq<ColorAttachmentTarget> {
        self.color_targets@
    }

    /// The flattened depth and stencil attachment, if any.
    pub open(crate) spec fn spec_depth_stencil_target(self) -> Option<DepthStencilTarget> {
        self.depth_stencil_target
    }

    /// The commands recorded so far, in recording order.
    pub open(crate) spec fn spec_commands(self) -> Seq<RenderCommand> {
        self.commands@
    }

    /// Everything but the command list is unchanged, and the command list
    /// grew by exactly `cmd`.
    pub open spec fn spec_recorded(self, pre: RenderPass, cmd: RenderCommand) -> bool {
        &&& self.spec_commands() == pre.spec_commands().push(cmd)
        &&& self.spec_parent() == pre.spec_parent()
        &&& self.spec_color_targets() == pre.spec_color_targets()
        &&& self.spec_depth_stencil_target() == pre.spec_depth_stencil_target()
    }

    /// Sets the active render pipeline.
    pub fn set_pipeline(&mut self, pipeline: ResourceId)
        ensures
            final(self).spec_recorded(*old(self), RenderCommand::SetPipeline { pipeline }),
    {
        self.commands.push(RenderCommand::SetPipeline { pipeline });
    }

    /// Sets the active bind group for a given bind group index.
    pub fn set_bind_group(&mut self, index: u32, bind_group: ResourceId, offsets: Vec<DynamicOffset>)
        ensures
            final(self).spec_recorded(
                *old(self),
                RenderCommand::SetBindGroup { index, bind_group, offsets },
            ),
    {
        self.commands.push(RenderCommand::SetBindGroup { index, bind_group, offsets });
    }

    /// Sets the active index buffer. A range with no known size means the
    /// rest of the buffer, recorded as size zero.
    pub fn set_index_buffer(&mut self, buffer: BufferRange<'_, Unsure>)
        ensures
            final(self).spec_recorded(
                *old(self),
                (RenderCommand::SetIndexBuffer {
                    buffer: buffer.spec_buffer().spec_id(),
                    offset: buffer.spec_offset(),
                    size: match buffer.spec_size() {
                        Some(s) => s,
                        None => 0u64,
                    },
                }),
            ),
    {
        let size = match buffer.size() {
            Some(s) => s,
            None => 0,
        };
        self.commands.push(
            RenderCommand::SetIndexBuffer { buffer: buffer.buffer.id(), offset: buffer.offset(), size },
        );
    }

    /// Assigns a vertex buffer to a slot. A range with no known size means
    /// the rest of the buffer, recorded as size zero.
    pub fn set_vertex_buffer(&mut self, slot: u32, buffer: BufferRange<'_, Unsure>)
        ensures
            final(self).spec_recorded(
                *old(self),
                (RenderCommand::SetVertexBuffer {
                    slot,
                    buffer: buffer.spec_buffer().spec_id(),
                    offset: buffer.spec_offset(),
                    size: match buffer.spec_size() {
                        Some(s) => s,
                        None => 0u64,
                    },
                }),
            ),
    {
        let size = match buffer.size() {
            Some(s) => s,
            None => 0,
        };
        self.commands.push(
            RenderCommand::SetVertexBuffer {
                slot,
                buffer: buffer.buffer.id(),
                offset: buffer.offset(),
                size,
            },
        );
    }

    /// Sets the blend color.
    pub fn set_blend_color(&mut self, color: Color)
        ensures
            final(self).spec_recorded(*old(self), RenderCommand::SetBlendColor { color }),
    {
        self.commands.push(RenderCommand::SetBlendColor { color });
    }

    /// Sets the scissor region.
    pub fn set_scissor_rect(&mut self, x: u32, y: u32, w: u32, h: u32)
        ensures
            final(self).spec_recorded(*old(self), RenderCommand::SetScissorRect { x, y, w, h }),
    {
        self.commands.push(RenderCommand::SetScissorRect { x, y, w, h });
    }

    /// Sets the stencil reference.
    pub fn set_stencil_reference(&mut self, reference: u32)
        ensures
            final(self).spec_recorded(*old(self), RenderCommand::SetStencilReference { reference }),
    {
        self.commands.push(RenderCommand::SetStencilReference { reference });
    }

    /// Draws primitives from the active vertex buffers.
    pub fn draw(&mut self, vertices: core::ops::Range<u32>, instances: core::ops::Range<u32>)
        requires
            vertices.start <= vertices.end,
            instances.start <= instances.end,
        ensures
            final(self).spec_recorded(
                *old(self),
                (RenderCommand::Draw {
                    vertex_count: (vertices.end - vertices.start) as u32,
                    instance_count: (instances.end - instances.start) as u32,
                    first_vertex: vertices.start,
                    first_instance: instances.start,
                }),
            ),
    {
        self.commands.push(
            RenderCommand::Draw {
                vertex_count: vertices.end - vertices.start,
                instance_count: instances.end - instances.start,
                first_vertex: vertices.start,
                first_instance: instances.start,
            },
        );
    }

    /// Draws indexed primitives using the active index and vertex buffers.
    pub fn draw_indexed(
        &mut self,
        indices: core::ops::Range<u32>,
        base_vertex: i32,
        instances: core::ops::Range<u32>,
    )
        requires
            indices.start <= indices.end,
            instances.start <= instances.end,
        ensures
            final(self).spec_recorded(
                *old(self),
                (RenderCommand::DrawIndexed {
                    index_count: (indices.end - indices.start) as u32,
                    instance_count: (instances.end - instances.start) as u32,
                    first_index: indices.start,
                    base_vertex,
                    first_instance: instances.start,
                }),
            ),
    {
        self.commands.push(
            RenderCommand::DrawIndexed {
                index_count: indices.end - indices.start,
                instance_count: instances.end - instances.start,
                first_index: indices.start,
                base_vertex,
                first_instance: instances.start,
            },
        );
    }

    /// Draws primitives with arguments read from the indirect buffer.
    pub fn draw_indirect(&mut self, indirect_buffer: BufferRange<'_, Unbounded>)
        ensures
            final(self).spec_recorded(
                *old(self),
                (RenderCommand::DrawIndirect {
                    buffer: indirect_buffer.spec_buffer().spec_id(),
                    offset: indirect_buffer.spec_offset(),
                }),
            ),
    {
        self.commands.push(
            RenderCommand::DrawIndirect {
                buffer: indirect_buffer.buffer.id(),
                offset: indirect_buffer.offset(),
            },
        );
    }

    /// Draws indexed primitives with arguments read from the indirect buffer.
    pub fn draw_indexed_indirect(&mut self, indirect_buffer: BufferRange<'_, Unbounded>)
        ensures
            final(self).spec_recorded(
                *old(self),
                (RenderCommand::DrawIndexedIndirect {
                    buffer: indirect_buffer.spec_buffer().spec_id(),
                    offset: indirect_buffer.spec_offset(),
                }),
            ),
    {
        self.commands.push(
            RenderCommand::DrawIndexedIndirect {
                buffer: indirect_buffer.buffer.id(),
                offset: indirect_buffer.offset(),
            },
        );
    }
}

/// An in-progress recording of a compute pass.
pub struct ComputePass {
    pub(crate) parent: ResourceId,
    pub(crate) commands: Vec<ComputeCommand>,
}

impl ComputePass {
    /// The encoder this pass was begun on.
    pub open(crate) spec fn spec_parent(self) -> ResourceId {
        self.parent
    }

    /// The commands recorded so far, in recording order.
    pub open(crate) spec fn spec_commands(self) -> Seq<ComputeCommand> {
        self.commands@
    }

    /// The parent is unchanged and the command list grew by exactly `cmd`.
    pub open spec fn spec_recorded(self, pre: ComputePass, cmd: ComputeCommand) -> bool {
        &&& self.spec_commands() == pre.spec_commands().push(cmd)
        &&& self.spec_parent() == pre.spec_parent()
    }

    /// Sets the active compute pipeline.
    pub fn set_pipeline(&mut self, pipeline: ResourceId)
        ensures
            final(self).spec_recorded(*old(self), ComputeCommand::SetPipeline { pipeline }),
    {
        self.commands.push(ComputeCommand::SetPipeline { pipeline });
    }

    /// Sets the active bind group for a given bind group index.
    pub fn set_bind_group(&mut self, index: u32, bind_group: ResourceId, offsets: Vec<DynamicOffset>)
        ensures
            final(self).spec_recorded(
                *old(self),
                ComputeCommand::SetBindGroup { index, bind_group, offsets },
            ),
    {
        self.commands.push(ComputeCommand::SetBindGroup { index, bind_group, offsets });
    }

    /// Dispatches `x` by `y` by `z` work groups.
    pub fn dispatch(&mut self, x: u32, y: u32, z: u32)
        ensures
            final(self).spec_recorded(*old(self), ComputeCommand::Dispatch { x, y, z }),
    {
        self.commands.push(ComputeCommand::Dispatch { x, y, z });
    }

    /// Dispatches work groups with counts read from the indirect buffer.
    pub fn dispatch_indirect(&mut self, indirect_buffer: BufferRange<'_, Unbounded>)
        ensures
            final(self).spec_recorded(
                *old(self),
                (ComputeCommand::DispatchIndirect {
                    buffer: indirect_buffer.spec_buffer().spec_id(),
                    offset: indirect_buffer.spec_offset(),
                }),
            ),
    {
        self.commands.push(
            ComputeCommand::DispatchIndirect {
                buffer: indirect_buffer.buffer.id(),
                offset: indirect_buffer.offset(),
            },
        );
    }
}

} // verus!
