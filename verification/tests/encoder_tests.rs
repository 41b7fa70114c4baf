//! The command encoder state machine and the pass-channel flattening.

use wgpu::binding::BindGroupLayoutEntry;
use wgpu::binding::BindingType;
use wgpu::binding::FlatBindingType;
use wgpu::binding::ShaderStage;
use wgpu::binding::flatten_layout_entry;
use wgpu::buffer::Buffer;
use wgpu::buffer::BufferDescriptor;
use wgpu::buffer::BufferUsage;
use wgpu::buffer::RangedBuffer;
use wgpu::buffer::ToEnd;
use wgpu::context::Context;
use wgpu::device::BackendBit;
use wgpu::device::Device;
use wgpu::device::DeviceDescriptor;
use wgpu::device::Limits;
use wgpu::device::PowerPreference;
use wgpu::device::Queue;
use wgpu::device::RequestAdapterOptions;
use wgpu::encoder::EncoderError;
use wgpu::pass::Color;
use wgpu::pass::LoadOp;
use wgpu::pass::Operations;
use wgpu::pass::PassLoadOp;
use wgpu::pass::PassStoreOp;
use wgpu::pass::RenderPassDescriptor;
use wgpu::pass::map_pass_channel;
use wgpu::texture::TextureViewDimension;

fn setup() -> (Context, Device, Queue) {
    let mut ctx = Context::init(BackendBit::all());
    let adapter = ctx
        .request_adapter(&RequestAdapterOptions { power_preference: PowerPreference::Default })
        .unwrap();
    let (device, queue) = ctx
        .adapter_request_device(&adapter, &DeviceDescriptor { limits: Limits::standard() })
        .unwrap();
    (ctx, device, queue)
}

fn copy_buffer(ctx: &mut Context, device: &Device, size: u64) -> Buffer {
    let usage = BufferUsage { copy_src: true, copy_dst: true, ..BufferUsage::empty() };
    ctx.device_create_buffer(device, &BufferDescriptor { size, usage })
}

#[test]
fn a_second_pass_while_one_is_open_is_rejected() {
    let (mut ctx, device, _queue) = setup();
    let mut enc = ctx.device_create_command_encoder(&device);
    let pass = enc.begin_compute_pass().unwrap();
    assert_eq!(enc.begin_compute_pass().err(), Some(EncoderError::PassAlreadyActive));
    let desc = RenderPassDescriptor { color_attachments: vec![], depth_stencil_attachment: None };
    assert_eq!(enc.begin_render_pass(&desc).err(), Some(EncoderError::PassAlreadyActive));
    assert_eq!(enc.end_compute_pass(pass), Ok(()));
    // With the pass ended, a new one may begin.
    let second = enc.begin_compute_pass();
    assert!(second.is_ok());
}

#[test]
fn recording_after_finish_is_rejected() {
    let (mut ctx, device, _queue) = setup();
    let src = copy_buffer(&mut ctx, &device, 16);
    let dst = copy_buffer(&mut ctx, &device, 16);
    let mut enc = ctx.device_create_command_encoder(&device);
    assert!(enc.finish().is_ok());
    let source = src.range(0, 16u64).unwrap();
    let destination = dst.range(0, ToEnd).unwrap();
    assert_eq!(
        enc.copy_buffer_to_buffer(source, destination),
        Err(EncoderError::NotRecording)
    );
    assert_eq!(enc.begin_compute_pass().err(), Some(EncoderError::NotRecording));
    assert_eq!(enc.finish().err(), Some(EncoderError::NotRecording));
}

#[test]
fn finishing_with_an_open_pass_is_rejected() {
    let (mut ctx, device, _queue) = setup();
    let mut enc = ctx.device_create_command_encoder(&device);
    let pass = enc.begin_compute_pass().unwrap();
    assert_eq!(enc.finish().err(), Some(EncoderError::PassAlreadyActive));
    assert_eq!(enc.end_compute_pass(pass), Ok(()));
}

#[test]
fn ending_a_pass_when_none_is_open_is_rejected() {
    let (mut ctx, device, _queue) = setup();
    let mut enc1 = ctx.device_create_command_encoder(&device);
    let mut enc2 = ctx.device_create_command_encoder(&device);
    let pass = enc1.begin_compute_pass().unwrap();
    // No pass is open on the second encoder.
    assert_eq!(enc2.end_compute_pass(pass), Err(EncoderError::NoPassActive));
}

#[test]
fn a_pass_from_another_encoder_is_rejected() {
    let (mut ctx, device, _queue) = setup();
    let mut enc1 = ctx.device_create_command_encoder(&device);
    let mut enc2 = ctx.device_create_command_encoder(&device);
    let foreign = enc1.begin_compute_pass().unwrap();
    let own = enc2.begin_compute_pass().unwrap();
    let result = enc2.end_compute_pass(foreign);
    assert_eq!(result, Err(EncoderError::ForeignPass));
    assert_eq!(enc2.end_compute_pass(own), Ok(()));
}

#[test]
fn copies_validate_usage_alignment_and_bounds() {
    let (mut ctx, device, _queue) = setup();
    let src = copy_buffer(&mut ctx, &device, 16);
    let dst = copy_buffer(&mut ctx, &device, 8);
    let sealed = ctx.device_create_buffer(
        &device,
        &BufferDescriptor { size: 16, usage: BufferUsage::empty() },
    );
    let mut enc = ctx.device_create_command_encoder(&device);
    // A buffer without the copy usages is refused.
    assert_eq!(
        enc.copy_buffer_to_buffer(
            sealed.range(0, 16u64).unwrap(),
            dst.range(0, ToEnd).unwrap(),
        ),
        Err(EncoderError::UsageMismatch)
    );
    // Misaligned sizes are refused.
    assert_eq!(
        enc.copy_buffer_to_buffer(src.range(0, 3u64).unwrap(), dst.range(0, ToEnd).unwrap()),
        Err(EncoderError::Misaligned)
    );
    // A copy reaching past the destination is refused.
    assert_eq!(
        enc.copy_buffer_to_buffer(src.range(0, 16u64).unwrap(), dst.range(0, ToEnd).unwrap()),
        Err(EncoderError::RangeOutOfBounds)
    );
    // A fitting, aligned copy between copy-capable buffers is recorded.
    assert_eq!(
        enc.copy_buffer_to_buffer(src.range(0, 8u64).unwrap(), dst.range(0, ToEnd).unwrap()),
        Ok(())
    );
}

#[test]
fn render_passes_record_and_flush_into_the_encoder() {
    let (mut ctx, device, queue) = setup();
    let tex_desc = wgpu::texture::TextureDescriptor {
        size: wgpu::texture::Extent3d { width: 4, height: 4, depth: 1 },
        mip_level_count: 1,
        sample_count: 1,
        dimension: wgpu::texture::TextureDimension::D2,
        format: wgpu::texture::TextureFormat::Rgba8Unorm,
        usage: wgpu::texture::TextureUsage {
            output_attachment: true,
            ..wgpu::texture::TextureUsage::empty()
        },
    };
    let texture = ctx.device_create_texture(&device, &tex_desc);
    let view = ctx.texture_create_view(&texture, None);
    let vertex_buffer = copy_buffer(&mut ctx, &device, 64);
    let mut enc = ctx.device_create_command_encoder(&device);
    let desc = RenderPassDescriptor {
        color_attachments: vec![wgpu::pass::RenderPassColorAttachment {
            attachment: view.id(),
            resolve_target: None,
            ops: Operations { load: LoadOp::Clear(Color::zero()), store: true },
        }],
        depth_stencil_attachment: None,
    };
    let mut pass = enc.begin_render_pass(&desc).unwrap();
    pass.set_scissor_rect(0, 0, 4, 4);
    pass.set_vertex_buffer(0, vertex_buffer.range(0, None::<u64>).unwrap());
    pass.draw(0..3, 0..1);
    enc.end_render_pass(pass).unwrap();
    let cb = enc.finish().unwrap();
    // The recorded pass travels through submission; it has no effect on the
    // model's buffer bytes.
    ctx.queue_submit(&queue, vec![cb]).unwrap();
}

fn buffer_view(b: &wgpu::buffer::Buffer) -> wgpu::encoder::BufferCopyView<'_> {
    wgpu::encoder::BufferCopyView {
        buffer: b.range(0, wgpu::buffer::ToEnd).unwrap(),
        bytes_per_row: 256,
        rows_per_image: 0,
    }
}

#[test]
fn texture_copies_validate_extents_and_footprints() {
    let (mut ctx, device, _queue) = setup();
    let tex_desc = wgpu::texture::TextureDescriptor {
        size: wgpu::texture::Extent3d { width: 8, height: 8, depth: 1 },
        mip_level_count: 2,
        sample_count: 1,
        dimension: wgpu::texture::TextureDimension::D2,
        format: wgpu::texture::TextureFormat::Rgba8Unorm,
        usage: wgpu::texture::TextureUsage {
            copy_dst: true,
            copy_src: true,
            ..wgpu::texture::TextureUsage::empty()
        },
    };
    let texture = ctx.device_create_texture(&device, &tex_desc);
    // 8 rows of 256 padded bytes fit a 2048-byte buffer exactly.
    let buf = copy_buffer(&mut ctx, &device, 2048);
    let mut enc = ctx.device_create_command_encoder(&device);
    let whole = wgpu::texture::Extent3d { width: 8, height: 8, depth: 1 };
    let dst = wgpu::encoder::TextureCopyView {
        texture: &texture,
        mip_level: 0,
        array_layer: 0,
        origin: wgpu::texture::Origin3d::zero(),
    };
    assert_eq!(enc.copy_buffer_to_texture(buffer_view(&buf), dst, whole), Ok(()));
    // A block past the texture's extent is rejected.
    let shifted = wgpu::encoder::TextureCopyView {
        texture: &texture,
        mip_level: 0,
        array_layer: 0,
        origin: wgpu::texture::Origin3d { x: 4, y: 0, z: 0 },
    };
    assert_eq!(
        enc.copy_buffer_to_texture(buffer_view(&buf), shifted, whole),
        Err(EncoderError::RangeOutOfBounds)
    );
    // The second mip level is 4 by 4: the whole-texture block no longer fits,
    // a 4 by 4 one does.
    let mip1 = wgpu::encoder::TextureCopyView {
        texture: &texture,
        mip_level: 1,
        array_layer: 0,
        origin: wgpu::texture::Origin3d::zero(),
    };
    assert_eq!(
        enc.copy_buffer_to_texture(buffer_view(&buf), mip1, whole),
        Err(EncoderError::RangeOutOfBounds)
    );
    let quarter = wgpu::texture::Extent3d { width: 4, height: 4, depth: 1 };
    assert_eq!(enc.copy_buffer_to_texture(buffer_view(&buf), mip1, quarter), Ok(()));
    // A missing mip level is rejected.
    let mip9 = wgpu::encoder::TextureCopyView {
        texture: &texture,
        mip_level: 9,
        array_layer: 0,
        origin: wgpu::texture::Origin3d::zero(),
    };
    assert_eq!(
        enc.copy_texture_to_buffer(mip9, buffer_view(&buf), quarter),
        Err(EncoderError::RangeOutOfBounds)
    );
    // A buffer too small for the padded footprint is rejected.
    let small = copy_buffer(&mut ctx, &device, 1024);
    assert_eq!(
        enc.copy_buffer_to_texture(buffer_view(&small), dst, whole),
        Err(EncoderError::RangeOutOfBounds)
    );
    // An unaligned row stride is rejected before the bounds are looked at.
    let ragged = wgpu::encoder::BufferCopyView {
        buffer: buf.range(0, wgpu::buffer::ToEnd).unwrap(),
        bytes_per_row: 100,
        rows_per_image: 0,
    };
    assert_eq!(
        enc.copy_buffer_to_texture(ragged, dst, whole),
        Err(EncoderError::Misaligned)
    );
    // Texture-to-texture copies check both sides.
    assert_eq!(enc.copy_texture_to_texture(dst, mip1, quarter), Ok(()));
    assert_eq!(
        enc.copy_texture_to_texture(shifted, mip1, whole),
        Err(EncoderError::RangeOutOfBounds)
    );
}

#[test]
fn pass_channels_flatten_as_documented() {
    // A clearing, storing operation.
    let cleared = map_pass_channel(
        Some(Operations { load: LoadOp::Clear(7u32), store: true }),
        0u32,
    );
    assert_eq!(cleared.load_op, PassLoadOp::Clear);
    assert_eq!(cleared.store_op, PassStoreOp::Store);
    assert_eq!(cleared.clear_value, 7);
    assert!(!cleared.read_only);
    // A loading, discarding operation takes the default clear value.
    let loaded = map_pass_channel(Some(Operations { load: LoadOp::Load, store: false }), 9u32);
    assert_eq!(loaded.load_op, PassLoadOp::Load);
    assert_eq!(loaded.store_op, PassStoreOp::Clear);
    assert_eq!(loaded.clear_value, 9);
    assert!(!loaded.read_only);
    // An absent operation is read-only, loaded and stored.
    let absent = map_pass_channel(None::<Operations<Color>>, Color::zero());
    assert_eq!(absent.load_op, PassLoadOp::Load);
    assert_eq!(absent.store_op, PassStoreOp::Store);
    assert!(absent.read_only);
}

#[test]
fn layout_entries_flatten_as_documented() {
    let visibility = ShaderStage { vertex: false, fragment: false, compute: true };
    let dynamic_storage = flatten_layout_entry(&BindGroupLayoutEntry {
        binding: 0,
        visibility,
        ty: BindingType::StorageBuffer { dynamic: true, readonly: false },
    });
    assert_eq!(dynamic_storage.ty, FlatBindingType::StorageBuffer);
    assert!(dynamic_storage.has_dynamic_offset);
    assert!(!dynamic_storage.multisampled);
    assert_eq!(dynamic_storage.view_dimension, TextureViewDimension::D2);

    let readonly_storage = flatten_layout_entry(&BindGroupLayoutEntry {
        binding: 1,
        visibility,
        ty: BindingType::StorageBuffer { dynamic: false, readonly: true },
    });
    assert_eq!(readonly_storage.ty, FlatBindingType::ReadonlyStorageBuffer);
    assert!(!readonly_storage.has_dynamic_offset);

    let comparison = flatten_layout_entry(&BindGroupLayoutEntry {
        binding: 2,
        visibility,
        ty: BindingType::Sampler { comparison: true },
    });
    assert_eq!(comparison.ty, FlatBindingType::ComparisonSampler);

    let sampled = flatten_layout_entry(&BindGroupLayoutEntry {
        binding: 3,
        visibility,
        ty: BindingType::SampledTexture {
            dimension: TextureViewDimension::Cube,
            multisampled: true,
        },
    });
    assert_eq!(sampled.ty, FlatBindingType::SampledTexture);
    assert!(sampled.multisampled);
    assert_eq!(sampled.view_dimension, TextureViewDimension::Cube);
}
