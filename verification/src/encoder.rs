//! Command encoding: the recorder of GPU operations and its state machine.
//!
//! An encoder moves through three states. While `Recording` it accepts copy
//! commands and can begin a pass or finish; while a pass is open
//! (`PassActive`) everything but ending that pass is rejected; once finished
//! (`Finished`) the encoder is spent and every further operation is rejected.
//! Finishing yields a [`CommandBuffer`] holding the recorded commands in
//! recording order.

use vstd::prelude::*;

use crate::buffer::Bounded;
use crate::buffer::BufferRange;
use crate::buffer::Unbounded;
use crate::id::ResourceId;
use crate::pass::ColorAttachmentTarget;
use crate::pass::Color;
use crate::pass::ComputeCommand;
use crate::pass::ComputePass;
use crate::pass::DepthStencilTarget;
use crate::pass::RenderCommand;
use crate::pass::RenderPass;
use crate::pass::RenderPassDescriptor;
use crate::pass::map_pass_channel;
use crate::pass::spec_flatten_color;
use crate::pass::spec_flatten_depth_stencil;
use crate::pass::spec_default_color;
use crate::texture::Extent3d;
use crate::texture::Origin3d;
use crate::texture::Texture;
use crate::texture::mip_dimension;
use crate::texture::spec_texture_copy_fits;

verus! {

/// Buffer copy offsets and sizes must be multiples of this.
pub const COPY_BUFFER_ALIGNMENT: u64 = 4;

/// The stride of buffer rows in a buffer-texture copy must be a multiple of
/// this.
pub const COPY_BYTES_PER_ROW_ALIGNMENT: u32 = 256;

/// Where a command encoder is in its life.
#[derive(Clone, Copy, Debug, PartialEq, Eq, Structural)]
pub enum EncoderState {
    /// Accepting copy commands, new passes and `finish`.
    Recording,
    /// A pass is open; only ending that pass is accepted.
    PassActive,
    /// `finish` was called; the encoder is spent.
    Finished,
}

/// Why the encoder rejected an operation.
#[derive(Clone, Copy, Debug, PartialEq, Eq, Structural)]
pub enum EncoderError {
    /// The operation needs the encoder to be recording, but it is not.
    NotRecording,
    /// A pass is already open on this encoder.
    PassAlreadyActive,
    /// No pass is open on this encoder.
    NoPassActive,
    /// The pass being ended belongs to a different encoder.
    ForeignPass,
    /// A copy endpoint's buffer does not carry the needed usage flag.
    UsageMismatch,
    /// A copy offset or size is not aligned as required.
    Misaligned,
    /// The copy does not fit inside the destination.
    RangeOutOfBounds,
}

/// The source or destination of a copy touching a buffer, in flat form.
#[derive(Clone, Copy, Debug, PartialEq, Eq, Structural)]
pub struct BufferCopyLocation {
    pub buffer: ResourceId,
    pub offset: u64,
    pub bytes_per_row: u32,
    pub rows_per_image: u32,
}

/// The source or destination of a copy touching a texture, in flat form.
#[derive(Clone, Copy, Debug, PartialEq, Eq, Structural)]
pub struct TextureCopyLocation {
    pub texture: ResourceId,
    pub mip_level: u32,
    pub array_layer: u32,
    pub origin: Origin3d,
}

/// A view of a buffer used as one side of a buffer-texture copy.
#[derive(Clone, Copy)]
pub struct BufferCopyView<'a> {
    /// The buffer copied to or from.
    pub buffer: BufferRange<'a, Unbounded>,
    /// The byte stride between rows of the imaginary texture laid over the
    /// buffer; must be a multiple of [`COPY_BYTES_PER_ROW_ALIGNMENT`].
    pub bytes_per_row: u32,
    /// The height in texels of that imaginary texture.
    pub rows_per_image: u32,
}

impl<'a> BufferCopyView<'a> {
    /// The flat form of this view.
    pub open spec fn spec_flat(self) -> BufferCopyLocation {
        BufferCopyLocation {
            buffer: self.buffer.spec_buffer().spec_id(),
            offset: self.buffer.spec_offset(),
            bytes_per_row: self.bytes_per_row,
            rows_per_image: self.rows_per_image,
        }
    }

    fn flat(&self) -> (r: BufferCopyLocation)
        ensures
            r == self.spec_flat(),
    {
        BufferCopyLocation {
            buffer: self.buffer.buffer.id(),
            offset: self.buffer.offset,
            bytes_per_row: self.bytes_per_row,
            rows_per_image: self.rows_per_image,
        }
    }
}

/// A view of a texture used as one side of a copy.
#[derive(Clone, Copy)]
pub struct TextureCopyView<'a> {
    /// The texture copied to or from.
    pub texture: &'a Texture,
    /// The mip level touched.
    pub mip_level: u32,
    /// The array layer touched.
    pub array_layer: u32,
    /// The base texel of the copy at that level.
    pub origin: Origin3d,
}

impl<'a> TextureCopyView<'a> {
    /// The flat form of this view.
    pub open spec fn spec_flat(self) -> TextureCopyLocation {
        TextureCopyLocation {
            texture: self.texture.spec_id(),
            mip_level: self.mip_level,
            array_layer: self.array_layer,
            origin: self.origin,
        }
    }

    fn flat(&self) -> (r: TextureCopyLocation)
        ensures
            r == self.spec_flat(),
    {
        TextureCopyLocation {
            texture: self.texture.id(),
            mip_level: self.mip_level,
            array_layer: self.array_layer,
            origin: self.origin,
        }
    }
}

/// One recorded encoder command.
#[derive(Clone, Debug)]
pub enum Command {
    CopyBufferToBuffer {
        src: ResourceId,
        src_offset: u64,
        dst: ResourceId,
        dst_offset: u64,
        size: u64,
    },
    CopyBufferToTexture {
        source: BufferCopyLocation,
        destination: TextureCopyLocation,
        size: Extent3d,
    },
    CopyTextureToBuffer {
        source: TextureCopyLocation,
        destination: BufferCopyLocation,
        size: Extent3d,
    },
    CopyTextureToTexture {
        source: TextureCopyLocation,
        destination: TextureCopyLocation,
        size: Extent3d,
    },
    RunRenderPass {
        color_targets: Vec<ColorAttachmentTarget>,
        depth_stencil_target: Option<DepthStencilTarget>,
        commands: Vec<RenderCommand>,
    },
    RunComputePass { commands: Vec<ComputeCommand> },
}

impl<'a> BufferCopyView<'a> {
    /// Whether the buffer can hold the copy's padded footprint: full rows of
    /// `bytes_per_row` bytes, `rows_per_image` rows per layer (or the copy
    /// height where that is zero), one image per depth layer, all starting
    /// at the view's offset.
    pub open spec fn spec_footprint_fits(self, copy_size: Extent3d) -> bool {
        let rows: int = if self.rows_per_image == 0 {
            copy_size.height as int
        } else {
            self.rows_per_image as int
        };
        self.buffer.spec_offset() + self.bytes_per_row * rows * copy_size.depth
            <= self.buffer.spec_buffer().spec_size()
    }

    /// Whether the buffer can hold the copy's padded footprint.
    fn footprint_fits(&self, copy_size: Extent3d) -> (r: bool)
        ensures
            r == self.spec_footprint_fits(copy_size),
    {
        let rows: u64 = if self.rows_per_image == 0 {
            copy_size.height as u64
        } else {
            self.rows_per_image as u64
        };
        let bpr: u64 = self.bytes_per_row as u64;
        proof {
            assert(bpr * rows <= 0xFFFF_FFFFu64 * 0xFFFF_FFFFu64) by (nonlinear_arith)
                requires
                    bpr <= 0xFFFF_FFFFu64,
                    rows <= 0xFFFF_FFFFu64,
            ;
        }
        let row_bytes: u64 = bpr * rows;
        proof {
            assert((row_bytes as u128) * (copy_size.depth as u128) <= 0xFFFF_FFFF_FFFF_FFFFu128
                * 0xFFFF_FFFFu128) by (nonlinear_arith)
                requires
                    (row_bytes as u128) <= 0xFFFF_FFFF_FFFF_FFFFu128,
                    (copy_size.depth as u128) <= 0xFFFF_FFFFu128,
            ;
        }
        let footprint: u128 = (row_bytes as u128) * (copy_size.depth as u128);
        let offset: u128 = self.buffer.offset as u128;
        let cap: u128 = self.buffer.buffer.size() as u128;
        offset + footprint <= cap
    }
}

impl<'a> TextureCopyView<'a> {
    /// Whether the copied block lies inside the texture: the mip level
    /// exists and the block stays inside the level's extent on every axis.
    pub open spec fn spec_fits(self, copy_size: Extent3d) -> bool {
        spec_texture_copy_fits(self.texture.spec_desc(), self.mip_level, self.origin, copy_size)
    }

    /// Whether the copied block lies inside the texture.
    fn fits(&self, copy_size: Extent3d) -> (r: bool)
        ensures
            r == self.spec_fits(copy_size),
    {
        let desc = self.texture.desc();
        let w = mip_dimension(desc.size.width, self.mip_level) as u64;
        let h = mip_dimension(desc.size.height, self.mip_level) as u64;
        let d = mip_dimension(desc.size.depth, self.mip_level) as u64;
        self.mip_level < desc.mip_level_count && self.origin.x as u64 + copy_size.width as u64
            <= w && self.origin.y as u64 + copy_size.height as u64 <= h && self.origin.z as u64
            + copy_size.depth as u64 <= d
    }
}

/// What beginning a pass does to the encoder state: allowed only while
/// recording.
pub open spec fn spec_begin_pass(s: EncoderState) -> (EncoderState, Result<(), EncoderError>) {
    match s {
        EncoderState::Recording => (EncoderState::PassActive, Ok(())),
        EncoderState::PassActive => (s, Err(EncoderError::PassAlreadyActive)),
        EncoderState::Finished => (s, Err(EncoderError::NotRecording)),
    }
}

/// What finishing does to the encoder state: allowed only while recording,
/// and never reversible.
pub open spec fn spec_finish(s: EncoderState) -> (EncoderState, Result<(), EncoderError>) {
    match s {
        EncoderState::Recording => (EncoderState::Finished, Ok(())),
        EncoderState::PassActive => (s, Err(EncoderError::PassAlreadyActive)),
        EncoderState::Finished => (s, Err(EncoderError::NotRecording)),
    }
}

/// Whether a recording-only command is accepted in state `s`.
pub open spec fn spec_can_record(s: EncoderState) -> Result<(), EncoderError> {
    match s {
        EncoderState::Recording => Ok(()),
        _ => Err(EncoderError::NotRecording),
    }
}

/// The decision a buffer-to-buffer copy makes, in order: the encoder must be
/// recording; the source must allow copies out and the destination copies in;
/// offsets and size must be aligned; and the copy must fit in the
/// destination. The source range fits its buffer by construction.
pub open spec fn spec_copy_b2b_decision<'a, 'b>(
    s: EncoderState,
    source: BufferRange<'a, Bounded>,
    destination: BufferRange<'b, Unbounded>,
) -> Result<Command, EncoderError> {
    let size = source.spec_size()->Some_0;
    if !(spec_can_record(s) is Ok) {
        Err(EncoderError::NotRecording)
    } else if !source.spec_buffer().spec_usage().copy_src {
        Err(EncoderError::UsageMismatch)
    } else if !destination.spec_buffer().spec_usage().copy_dst {
        Err(EncoderError::UsageMismatch)
    } else if !(source.spec_offset() % COPY_BUFFER_ALIGNMENT == 0
        && destination.spec_offset() % COPY_BUFFER_ALIGNMENT == 0 && size % COPY_BUFFER_ALIGNMENT
        == 0) {
        Err(EncoderError::Misaligned)
    } else if destination.spec_offset() + size > destination.spec_buffer().spec_size() {
        Err(EncoderError::RangeOutOfBounds)
    } else {
        Ok(
            Command::CopyBufferToBuffer {
                src: source.spec_buffer().spec_id(),
                src_offset: source.spec_offset(),
                dst: destination.spec_buffer().spec_id(),
                dst_offset: destination.spec_offset(),
                size,
            },
        )
    }
}

/// The decision a buffer-to-texture copy makes, in order: the encoder must
/// be recording, the buffer's row stride must be aligned, the copied block
/// must lie inside the texture, and the buffer must hold the copy's padded
/// footprint.
pub open spec fn spec_copy_b2t_decision<'a, 'b>(
    s: EncoderState,
    source: BufferCopyView<'a>,
    destination: TextureCopyView<'b>,
    copy_size: Extent3d,
) -> Result<Command, EncoderError> {
    if !(spec_can_record(s) is Ok) {
        Err(EncoderError::NotRecording)
    } else if source.bytes_per_row % COPY_BYTES_PER_ROW_ALIGNMENT != 0 {
        Err(EncoderError::Misaligned)
    } else if !destination.spec_fits(copy_size) {
        Err(EncoderError::RangeOutOfBounds)
    } else if !source.spec_footprint_fits(copy_size) {
        Err(EncoderError::RangeOutOfBounds)
    } else {
        Ok(
            Command::CopyBufferToTexture {
                source: source.spec_flat(),
                destination: destination.spec_flat(),
                size: copy_size,
            },
        )
    }
}

/// The decision a texture-to-buffer copy makes; the same checks as
/// [`spec_copy_b2t_decision`] with the roles swapped.
pub open spec fn spec_copy_t2b_decision<'a, 'b>(
    s: EncoderState,
    source: TextureCopyView<'a>,
    destination: BufferCopyView<'b>,
    copy_size: Extent3d,
) -> Result<Command, EncoderError> {
    if !(spec_can_record(s) is Ok) {
        Err(EncoderError::NotRecording)
    } else if destination.bytes_per_row % COPY_BYTES_PER_ROW_ALIGNMENT != 0 {
        Err(EncoderError::Misaligned)
    } else if !source.spec_fits(copy_size) {
        Err(EncoderError::RangeOutOfBounds)
    } else if !destination.spec_footprint_fits(copy_size) {
        Err(EncoderError::RangeOutOfBounds)
    } else {
        Ok(
            Command::CopyTextureToBuffer {
                source: source.spec_flat(),
                destination: destination.spec_flat(),
                size: copy_size,
            },
        )
    }
}

/// The decision a texture-to-texture copy makes: the encoder must be
/// recording and the copied block must lie inside both textures.
pub open spec fn spec_copy_t2t_decision<'a, 'b>(
    s: EncoderState,
    source: TextureCopyView<'a>,
    destination: TextureCopyView<'b>,
    copy_size: Extent3d,
) -> Result<Command, EncoderError> {
    if !(spec_can_record(s) is Ok) {
        Err(EncoderError::NotRecording)
    } else if !source.spec_fits(copy_size) {
        Err(EncoderError::RangeOutOfBounds)
    } else if !destination.spec_fits(copy_size) {
        Err(EncoderError::RangeOutOfBounds)
    } else {
        Ok(
            Command::CopyTextureToTexture {
                source: source.spec_flat(),
                destination: destination.spec_flat(),
                size: copy_size,
            },
        )
    }
}

/// An object that encodes GPU operations.
pub struct CommandEncoder {
    pub(crate) id: ResourceId,
    pub(crate) device_id: ResourceId,
    pub(crate) state: EncoderState,
    pub(crate) commands: Vec<Command>,
}

/// An opaque handle to a finished, immutable sequence of commands, ready to
/// be submitted to a queue.
pub struct CommandBuffer {
    pub(crate) encoder_id: ResourceId,
    pub(crate) commands: Vec<Command>,
}

impl CommandBuffer {
    /// The encoder this command buffer was recorded on.
    pub open(crate) spec fn spec_encoder_id(self) -> ResourceId {
        self.encoder_id
    }

    /// The recorded commands, in recording order.
    pub open(crate) spec fn spec_commands(self) -> Seq<Command> {
        self.commands@
    }
}

impl CommandEncoder {
    /// The identifier the registry issued for this encoder.
    pub open(crate) spec fn spec_id(self) -> ResourceId {
        self.id
    }

    /// The identifier of the owning device.
    pub open(crate) spec fn spec_device_id(self) -> ResourceId {
        self.device_id
    }

    /// The encoder's state.
    pub open(crate) spec fn spec_state(self) -> EncoderState {
        self.state
    }

    /// The commands recorded so far, in recording order.
    pub open(crate) spec fn spec_commands(self) -> Seq<Command> {
        self.commands@
    }

    /// A fresh encoder, recording and empty.
    pub(crate) fn new(id: ResourceId, device_id: ResourceId) -> (r: CommandEncoder)
        ensures
            r.spec_id() == id,
            r.spec_device_id() == device_id,
            r.spec_state() is Recording,
            r.spec_commands() == Seq::<Command>::empty(),
    {
        CommandEncoder { id, device_id, state: EncoderState::Recording, commands: Vec::new() }
    }

    /// The identifier the registry issued for this encoder.
    pub fn id(&self) -> (r: ResourceId)
        ensures
            r == self.spec_id(),
    {
        self.id
    }

    /// Whether the encoder currently accepts copy commands.
    pub fn is_recording(&self) -> (r: bool)
        ensures
            r == (self.spec_state() is Recording),
    {
        match self.state {
            EncoderState::Recording => true,
            _ => false,
        }
    }

    /// Nothing about the encoder changed.
    pub open spec fn spec_unchanged(self, pre: CommandEncoder) -> bool {
        self == pre
    }

    /// The identifiers and state are as given, and the command stream is
    /// unchanged.
    pub open spec fn spec_same_stream(self, pre: CommandEncoder, state: EncoderState) -> bool {
        &&& self.spec_id() == pre.spec_id()
        &&& self.spec_device_id() == pre.spec_device_id()
        &&& self.spec_state() == state
        &&& self.spec_commands() == pre.spec_commands()
    }

    /// The identifiers are as before, the state is as given, and the command
    /// stream grew by exactly `cmd`.
    pub open spec fn spec_recorded(self, pre: CommandEncoder, state: EncoderState, cmd: Command) -> bool {
        &&& self.spec_id() == pre.spec_id()
        &&& self.spec_device_id() == pre.spec_device_id()
        &&& self.spec_state() == state
        &&& self.spec_commands() == pre.spec_commands().push(cmd)
    }

    /// Begins recording of a render pass.
    ///
    /// Allowed only while recording; in particular, beginning a second pass
    /// while one is open is rejected. The new pass carries the descriptor's
    /// attachments in flattened form and no commands yet.
    pub fn begin_render_pass(&mut self, desc: &RenderPassDescriptor) -> (r: Result<
        RenderPass,
        EncoderError,
    >)
        ensures
            final(self).spec_same_stream(*old(self), spec_begin_pass(old(self).spec_state()).0),
            r is Ok <==> spec_begin_pass(old(self).spec_state()).1 is Ok,
            r matches Err(e) ==> spec_begin_pass(old(self).spec_state()).1 == Result::<
                (),
                EncoderError,
            >::Err(e),
            r matches Ok(p) ==> {
                &&& p.spec_parent() == old(self).spec_id()
                &&& p.spec_commands() == Seq::<RenderCommand>::empty()
                &&& p.spec_color_targets() == spec_flatten_colors(desc.color_attachments@)
                &&& p.spec_depth_stencil_target() == (match desc.depth_stencil_attachment {
                    Some(dsa) => Some(spec_flatten_depth_stencil(dsa)),
                    None => None,
                })
            },
    {
        match self.state {
            EncoderState::Recording => {
                let mut color_targets: Vec<ColorAttachmentTarget> = Vec::new();
                let mut i: usize = 0;
                while i < desc.color_attachments.len()
                    invariant
                        i <= desc.color_attachments.len(),
                        color_targets@ == spec_flatten_colors(
                            desc.color_attachments@.subrange(0, i as int),
                        ),
                    decreases desc.color_attachments.len() - i,
                {
                    let ca = desc.color_attachments[i];
                    let channel = map_pass_channel(Some(ca.ops), Color::zero());
                    color_targets.push(
                        ColorAttachmentTarget {
                            attachment: ca.attachment,
                            resolve_target: ca.resolve_target,
                            channel,
                        },
                    );
                    i = i + 1;
                    proof {
                        assert(desc.color_attachments@.subrange(0, i as int).map_values(
                            |c: crate::pass::RenderPassColorAttachment| spec_flatten_color(c),
                        ) =~= desc.color_attachments@.subrange(0, i as int - 1).map_values(
                            |c: crate::pass::RenderPassColorAttachment| spec_flatten_color(c),
                        ).push(spec_flatten_color(desc.color_attachments@[i as int - 1])));
                    }
                }
                proof {
                    assert(desc.color_attachments@.subrange(
                        0,
                        desc.color_attachments@.len() as int,
                    ) =~= desc.color_attachments@);
                }
                let depth_stencil_target = match &desc.depth_stencil_attachment {
                    Some(dsa) => Some(
                        DepthStencilTarget {
                            attachment: dsa.attachment,
                            depth: map_pass_channel(dsa.depth_ops, 0),
                            stencil: map_pass_channel(dsa.stencil_ops, 0),
                        },
                    ),
                    None => None,
                };
                self.state = EncoderState::PassActive;
                Ok(
                    RenderPass {
                        parent: self.id,
                        color_targets,
                        depth_stencil_target,
                        commands: Vec::new(),
                    },
                )
            },
            EncoderState::PassActive => Err(EncoderError::PassAlreadyActive),
            EncoderState::Finished => Err(EncoderError::NotRecording),
        }
    }

    /// Begins recording of a compute pass. Allowed only while recording.
    pub fn begin_compute_pass(&mut self) -> (r: Result<ComputePass, EncoderError>)
        ensures
            final(self).spec_same_stream(*old(self), spec_begin_pass(old(self).spec_state()).0),
            r is Ok <==> spec_begin_pass(old(self).spec_state()).1 is Ok,
            r matches Err(e) ==> spec_begin_pass(old(self).spec_state()).1 == Result::<
                (),
                EncoderError,
            >::Err(e),
            r matches Ok(p) ==> p.spec_parent() == old(self).spec_id() && p.spec_commands()
                == Seq::<ComputeCommand>::empty(),
    {
        match self.state {
            EncoderState::Recording => {
                self.state = EncoderState::PassActive;
                Ok(ComputePass { parent: self.id, commands: Vec::new() })
            },
            EncoderState::PassActive => Err(EncoderError::PassAlreadyActive),
            EncoderState::Finished => Err(EncoderError::NotRecording),
        }
    }

    /// Ends a render pass begun on this encoder, flushing its commands into
    /// the encoder's stream and returning the encoder to recording.
    pub fn end_render_pass(&mut self, pass: RenderPass) -> (r: Result<(), EncoderError>)
        ensures
            r is Ok <==> (old(self).spec_state() is PassActive && pass.spec_parent() == old(
                self,
            ).spec_id()),
            r is Ok ==> {
                &&& final(self).spec_id() == old(self).spec_id()
                &&& final(self).spec_device_id() == old(self).spec_device_id()
                &&& final(self).spec_state() is Recording
                &&& final(self).spec_commands().drop_last() == old(self).spec_commands()
                &&& final(self).spec_commands().len() == old(self).spec_commands().len() + 1
                &&& spec_is_render_flush(final(self).spec_commands().last(), pass)
            },
            r matches Err(e) ==> final(self).spec_unchanged(*old(self)) && (e
                == EncoderError::NoPassActive || e == EncoderError::ForeignPass),
            r matches Err(e) ==> (e == EncoderError::ForeignPass <==> (old(
                self,
            ).spec_state() is PassActive && pass.spec_parent() != old(self).spec_id())),
    {
        match self.state {
            EncoderState::PassActive => {
                if pass.parent == self.id {
                    let RenderPass { parent, color_targets, depth_stencil_target, commands } = pass;
                    let ghost pre = self.commands@;
                    self.commands.push(
                        Command::RunRenderPass { color_targets, depth_stencil_target, commands },
                    );
                    self.state = EncoderState::Recording;
                    proof {
                        assert(self.commands@.drop_last() =~= pre);
                    }
                    Ok(())
                } else {
                    Err(EncoderError::ForeignPass)
                }
            },
            _ => Err(EncoderError::NoPassActive),
        }
    }

    /// Ends a compute pass begun on this encoder, flushing its commands into
    /// the encoder's stream and returning the encoder to recording.
    pub fn end_compute_pass(&mut self, pass: ComputePass) -> (r: Result<(), EncoderError>)
        ensures
            r is Ok <==> (old(self).spec_state() is PassActive && pass.spec_parent() == old(
                self,
            ).spec_id()),
            r is Ok ==> {
                &&& final(self).spec_id() == old(self).spec_id()
                &&& final(self).spec_device_id() == old(self).spec_device_id()
                &&& final(self).spec_state() is Recording
                &&& final(self).spec_commands().drop_last() == old(self).spec_commands()
                &&& final(self).spec_commands().len() == old(self).spec_commands().len() + 1
                &&& spec_is_compute_flush(final(self).spec_commands().last(), pass)
            },
            r matches Err(e) ==> final(self).spec_unchanged(*old(self)) && (e
                == EncoderError::NoPassActive || e == EncoderError::ForeignPass),
            r matches Err(e) ==> (e == EncoderError::ForeignPass <==> (old(
                self,
            ).spec_state() is PassActive && pass.spec_parent() != old(self).spec_id())),
    {
        match self.state {
            EncoderState::PassActive => {
                if pass.parent == self.id {
                    let ComputePass { parent, commands } = pass;
                    let ghost pre = self.commands@;
                    self.commands.push(Command::RunComputePass { commands });
                    self.state = EncoderState::Recording;
                    proof {
                        assert(self.commands@.drop_last() =~= pre);
                    }
                    Ok(())
                } else {
                    Err(EncoderError::ForeignPass)
                }
            },
            _ => Err(EncoderError::NoPassActive),
        }
    }

    /// Copies `source` into `destination`'s buffer at `destination`'s offset.
    ///
    /// Accepted exactly when the encoder is recording, the source buffer
    /// allows copies out and the destination buffer copies in, offsets and
    /// size are aligned to [`COPY_BUFFER_ALIGNMENT`], and the copy fits in
    /// the destination buffer; the decision is spelled out by
    /// [`spec_copy_b2b_decision`].
    pub fn copy_buffer_to_buffer<'a, 'b>(
        &mut self,
        source: BufferRange<'a, Bounded>,
        destination: BufferRange<'b, Unbounded>,
    ) -> (r: Result<(), EncoderError>)
        requires
            source.wf(),
            destination.wf(),
        ensures
            match spec_copy_b2b_decision(old(self).spec_state(), source, destination) {
                Ok(cmd) => r is Ok && final(self).spec_recorded(
                    *old(self),
                    old(self).spec_state(),
                    cmd,
                ),
                Err(e) => r == Result::<(), EncoderError>::Err(e) && final(self).spec_unchanged(
                    *old(self),
                ),
            },
    {
        if !self.is_recording() {
            return Err(EncoderError::NotRecording);
        }
        let size = source.size;
        if !source.buffer.usage().copy_src {
            return Err(EncoderError::UsageMismatch);
        }
        if !destination.buffer.usage().copy_dst {
            return Err(EncoderError::UsageMismatch);
        }
        if !(source.offset % COPY_BUFFER_ALIGNMENT == 0 && destination.offset
            % COPY_BUFFER_ALIGNMENT == 0 && size % COPY_BUFFER_ALIGNMENT == 0) {
            return Err(EncoderError::Misaligned);
        }
        let dst_size = destination.buffer.size();
        if size > dst_size || destination.offset > dst_size - size {
            return Err(EncoderError::RangeOutOfBounds);
        }
        self.commands.push(
            Command::CopyBufferToBuffer {
                src: source.buffer.id(),
                src_offset: source.offset,
                dst: destination.buffer.id(),
                dst_offset: destination.offset,
                size,
            },
        );
        Ok(())
    }

    /// Records a copy from a buffer into a texture.
    ///
    /// Accepted exactly when the encoder is recording, the buffer's row
    /// stride is a multiple of [`COPY_BYTES_PER_ROW_ALIGNMENT`], the copied
    /// block lies inside the destination texture's mip level, and the
    /// buffer holds the copy's padded footprint; the decision is spelled out
    /// by [`spec_copy_b2t_decision`].
    pub fn copy_buffer_to_texture<'a, 'b>(
        &mut self,
        source: BufferCopyView<'a>,
        destination: TextureCopyView<'b>,
        copy_size: Extent3d,
    ) -> (r: Result<(), EncoderError>)
        ensures
            match spec_copy_b2t_decision(old(self).spec_state(), source, destination, copy_size) {
                Ok(cmd) => r is Ok && final(self).spec_recorded(
                    *old(self),
                    old(self).spec_state(),
                    cmd,
                ),
                Err(e) => r == Result::<(), EncoderError>::Err(e) && final(self).spec_unchanged(
                    *old(self),
                ),
            },
    {
        if !self.is_recording() {
            return Err(EncoderError::NotRecording);
        }
        if source.bytes_per_row % COPY_BYTES_PER_ROW_ALIGNMENT != 0 {
            return Err(EncoderError::Misaligned);
        }
        if !destination.fits(copy_size) {
            return Err(EncoderError::RangeOutOfBounds);
        }
        if !source.footprint_fits(copy_size) {
            return Err(EncoderError::RangeOutOfBounds);
        }
        self.commands.push(
            Command::CopyBufferToTexture {
                source: source.flat(),
                destination: destination.flat(),
                size: copy_size,
            },
        );
        Ok(())
    }

    /// Records a copy from a texture into a buffer.
    ///
    /// Accepted under the mirrored conditions of
    /// [`CommandEncoder::copy_buffer_to_texture`], spelled out by
    /// [`spec_copy_t2b_decision`].
    pub fn copy_texture_to_buffer<'a, 'b>(
        &mut self,
        source: TextureCopyView<'a>,
        destination: BufferCopyView<'b>,
        copy_size: Extent3d,
    ) -> (r: Result<(), EncoderError>)
        ensures
            match spec_copy_t2b_decision(old(self).spec_state(), source, destination, copy_size) {
                Ok(cmd) => r is Ok && final(self).spec_recorded(
                    *old(self),
                    old(self).spec_state(),
                    cmd,
                ),
                Err(e) => r == Result::<(), EncoderError>::Err(e) && final(self).spec_unchanged(
                    *old(self),
                ),
            },
    {
        if !self.is_recording() {
            return Err(EncoderError::NotRecording);
        }
        if destination.bytes_per_row % COPY_BYTES_PER_ROW_ALIGNMENT != 0 {
            return Err(EncoderError::Misaligned);
        }
        if !source.fits(copy_size) {
            return Err(EncoderError::RangeOutOfBounds);
        }
        if !destination.footprint_fits(copy_size) {
            return Err(EncoderError::RangeOutOfBounds);
        }
        self.commands.push(
            Command::CopyTextureToBuffer {
                source: source.flat(),
                destination: destination.flat(),
                size: copy_size,
            },
        );
        Ok(())
    }

    /// Records a copy from one texture to another.
    ///
    /// Accepted exactly when the encoder is recording and the copied block
    /// lies inside both textures' mip levels, as
    /// [`spec_copy_t2t_decision`] spells out.
    pub fn copy_texture_to_texture<'a, 'b>(
        &mut self,
        source: TextureCopyView<'a>,
        destination: TextureCopyView<'b>,
        copy_size: Extent3d,
    ) -> (r: Result<(), EncoderError>)
        ensures
            match spec_copy_t2t_decision(old(self).spec_state(), source, destination, copy_size) {
                Ok(cmd) => r is Ok && final(self).spec_recorded(
                    *old(self),
                    old(self).spec_state(),
                    cmd,
                ),
                Err(e) => r == Result::<(), EncoderError>::Err(e) && final(self).spec_unchanged(
                    *old(self),
                ),
            },
    {
        if !self.is_recording() {
            return Err(EncoderError::NotRecording);
        }
        if !source.fits(copy_size) {
            return Err(EncoderError::RangeOutOfBounds);
        }
        if !destination.fits(copy_size) {
            return Err(EncoderError::RangeOutOfBounds);
        }
        self.commands.push(
            Command::CopyTextureToTexture {
                source: source.flat(),
                destination: destination.flat(),
                size: copy_size,
            },
        );
        Ok(())
    }

    /// Finishes recording, yielding the recorded commands as an immutable
    /// command buffer.
    ///
    /// Allowed only while recording; the encoder is spent afterwards, and
    /// every later operation on it — another pass, a copy, a second finish —
    /// is rejected.
    pub fn finish(&mut self) -> (r: Result<CommandBuffer, EncoderError>)
        ensures
            final(self).spec_id() == old(self).spec_id(),
            final(self).spec_device_id() == old(self).spec_device_id(),
            final(self).spec_state() == spec_finish(old(self).spec_state()).0,
            r is Ok <==> spec_finish(old(self).spec_state()).1 is Ok,
            r matches Err(e) ==> spec_finish(old(self).spec_state()).1 == Result::<
                (),
                EncoderError,
            >::Err(e) && final(self).spec_commands() == old(self).spec_commands(),
            r matches Ok(cb) ==> cb.spec_encoder_id() == old(self).spec_id() && cb.spec_commands()
                == old(self).spec_commands() && final(self).spec_commands() == Seq::<
                Command,
            >::empty(),
    {
        match self.state {
            EncoderState::Recording => {
                let mut commands: Vec<Command> = Vec::new();
                core::mem::swap(&mut self.commands, &mut commands);
                self.state = EncoderState::Finished;
                Ok(CommandBuffer { encoder_id: self.id, commands })
            },
            EncoderState::PassActive => Err(EncoderError::PassAlreadyActive),
            EncoderState::Finished => Err(EncoderError::NotRecording),
        }
    }
}

/// The flattened color attachments of a whole descriptor.
pub open spec fn spec_flatten_colors(cas: Seq<crate::pass::RenderPassColorAttachment>) -> Seq<
    ColorAttachmentTarget,
> {
    cas.map_values(|c: crate::pass::RenderPassColorAttachment| spec_flatten_color(c))
}

/// Whether `cmd` is the flush of render pass `pass`: the same attachments
/// and the same commands in the same order.
pub open spec fn spec_is_render_flush(cmd: Command, pass: RenderPass) -> bool {
    cmd matches Command::RunRenderPass { color_targets, depth_stencil_target, commands }
        && color_targets@ == pass.spec_color_targets() && depth_stencil_target
        == pass.spec_depth_stencil_target() && commands@ == pass.spec_commands()
}

/// Whether `cmd` is the flush of compute pass `pass`: the same commands in
/// the same order.
pub open spec fn spec_is_compute_flush(cmd: Command, pass: ComputePass) -> bool {
    cmd matches Command::RunComputePass { commands } && commands@ == pass.spec_commands()
}

/// Beginning a pass while one is already open is rejected and changes
/// nothing; this holds of every state a second begin can see.
pub proof fn lemma_second_pass_rejected(s: EncoderState)
    requires
        spec_begin_pass(s).1 is Ok,
    ensures
        spec_begin_pass(spec_begin_pass(s).0).1 == Result::<(), EncoderError>::Err(
            EncoderError::PassAlreadyActive,
        ),
        spec_begin_pass(spec_begin_pass(s).0).0 == spec_begin_pass(s).0,
{
}

/// After a successful `finish`, every further operation on the encoder is
/// rejected: recording a copy, beginning a pass, and finishing again all
/// fail, and none of them moves the encoder out of its finished state.
pub proof fn lemma_use_after_finish_rejected(s: EncoderState)
    requires
        spec_finish(s).1 is Ok,
    ensures
        spec_can_record(spec_finish(s).0) == Result::<(), EncoderError>::Err(
            EncoderError::NotRecording,
        ),
        spec_begin_pass(spec_finish(s).0).1 == Result::<(), EncoderError>::Err(
            EncoderError::NotRecording,
        ),
        spec_finish(spec_finish(s).0).1 == Result::<(), EncoderError>::Err(
            EncoderError::NotRecording,
        ),
        spec_begin_pass(spec_finish(s).0).0 == spec_finish(s).0,
        spec_finish(spec_finish(s).0).0 == spec_finish(s).0,
{
}

} // verus!
