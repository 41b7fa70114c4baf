//! Adapters, devices, the error sink, and the dispatcher.

use wgpu::binding::BindGroupLayoutDescriptor;
use wgpu::binding::PipelineLayoutDescriptor;
use wgpu::buffer::BufferDescriptor;
use wgpu::buffer::BufferUsage;
use wgpu::context::Context;
use wgpu::context::MAX_BUFFER_SIZE;
use wgpu::device::AdapterInfo;
use wgpu::device::BackendBit;
use wgpu::device::Device;
use wgpu::device::DeviceDescriptor;
use wgpu::device::DeviceType;
use wgpu::device::Limits;
use wgpu::device::PowerPreference;
use wgpu::device::Queue;
use wgpu::device::RequestAdapterOptions;
use wgpu::device::RequestDeviceError;
use wgpu::error::Error;
use wgpu::error::UnsupportedBackendError;
use wgpu::error::ValidationCause;
use wgpu::id::Backend;
use wgpu::id::ResourceId;
use wgpu::sink::ErrorHandling;

fn setup() -> (Context, Device, Queue) {
    let mut ctx = Context::init(BackendBit::all());
    let adapter = ctx
        .request_adapter(&RequestAdapterOptions { power_preference: PowerPreference::Default })
        .unwrap();
    let (device, queue) = ctx
        .adapter_request_device(&adapter, &DeviceDescriptor { limits: Limits::standard() })
        .unwrap();
    (ctx, device, queue)
}

#[test]
fn an_empty_backend_set_offers_no_adapters() {
    let none = BackendBit { vulkan: false, metal: false, dx12: false, dx11: false };
    let mut ctx = Context::init(none);
    let options = RequestAdapterOptions { power_preference: PowerPreference::Default };
    assert!(ctx.request_adapter(&options).is_none());
    assert!(ctx.enumerate_adapters().is_empty());
}

#[test]
fn adapter_info_reflects_the_selected_backend() {
    let mut ctx = Context::init(BackendBit::all());
    let options = RequestAdapterOptions { power_preference: PowerPreference::HighPerformance };
    let adapter = ctx.request_adapter(&options).unwrap();
    let info = ctx.adapter_get_info(&adapter).unwrap();
    assert_eq!(
        info,
        AdapterInfo { device_type: DeviceType::DiscreteGpu, backend: Backend::Vulkan }
    );
}

#[test]
fn requesting_a_device_needs_a_live_adapter() {
    let mut ctx = Context::init(BackendBit::all());
    let options = RequestAdapterOptions { power_preference: PowerPreference::Default };
    let adapter = ctx.request_adapter(&options).unwrap();
    let desc = DeviceDescriptor { limits: Limits::standard() };
    assert!(ctx.adapter_request_device(&adapter, &desc).is_ok());
    // An adapter issued by a different context is unknown here.
    let mut other = Context::init(BackendBit::all());
    let missing = other.adapter_request_device(&adapter, &desc);
    assert_eq!(missing.err(), Some(RequestDeviceError));
}

#[test]
fn dispatch_is_pure_backend_selection() {
    let (ctx, _device, queue) = setup();
    assert!(ctx.dispatch(queue.id()).is_ok());
    let foreign = ResourceId::new(queue.id().index, queue.id().generation, Backend::Metal);
    assert_eq!(ctx.dispatch(foreign), Err(UnsupportedBackendError));
}

#[test]
fn oversized_buffers_report_out_of_memory_to_the_sink() {
    let (mut ctx, device, _queue) = setup();
    // The default handler treats errors as fatal; install a recording one.
    ctx.device_on_uncaptured_error(&device, ErrorHandling::Record);
    let usage = BufferUsage { copy_dst: true, ..BufferUsage::empty() };
    let huge = ctx.device_create_buffer(
        &device,
        &BufferDescriptor { size: MAX_BUFFER_SIZE + 1, usage },
    );
    assert_eq!(ctx.device_errors(&device), vec![Error::OutOfMemory]);
    assert!(!ctx.device_fatal_observed(&device));
    // The handle's identifier is already dead: every use is stale.
    assert!(ctx.buffer_get_mapped_range(&huge, 0, 1).is_err());
}

#[test]
fn the_default_handler_marks_errors_fatal() {
    let (mut ctx, device, _queue) = setup();
    let usage = BufferUsage { copy_dst: true, ..BufferUsage::empty() };
    let _ = ctx.device_create_buffer(
        &device,
        &BufferDescriptor { size: MAX_BUFFER_SIZE + 1, usage },
    );
    assert_eq!(ctx.device_errors(&device), vec![Error::OutOfMemory]);
    assert!(ctx.device_fatal_observed(&device));
}

#[test]
fn too_many_bind_group_layouts_report_to_the_sink() {
    let (mut ctx, device, _queue) = setup();
    ctx.device_on_uncaptured_error(&device, ErrorHandling::Record);
    let bgl_desc = BindGroupLayoutDescriptor { bindings: vec![] };
    let a = ctx.device_create_bind_group_layout(&device, &bgl_desc);
    let b = ctx.device_create_bind_group_layout(&device, &bgl_desc);
    let c = ctx.device_create_bind_group_layout(&device, &bgl_desc);
    let d = ctx.device_create_bind_group_layout(&device, &bgl_desc);
    let e = ctx.device_create_bind_group_layout(&device, &bgl_desc);
    // The standard limits allow four bind groups; five are refused.
    let desc = PipelineLayoutDescriptor { bind_group_layouts: vec![&a, &b, &c, &d, &e] };
    let _layout = ctx.device_create_pipeline_layout(&device, &desc);
    assert_eq!(
        ctx.device_errors(&device),
        vec![Error::Validation(ValidationCause::TooManyBindGroups)]
    );
    let ok = PipelineLayoutDescriptor { bind_group_layouts: vec![&a, &b, &c, &d] };
    let _layout2 = ctx.device_create_pipeline_layout(&device, &ok);
    assert_eq!(ctx.device_errors(&device).len(), 1);
}

#[test]
fn error_descriptions_are_stable() {
    assert_eq!(Error::OutOfMemory.describe(), "out of memory");
    assert_eq!(
        Error::Validation(ValidationCause::MapStateMismatch).describe(),
        "bad mapping state"
    );
}

#[test]
fn pipelines_reflect_their_bind_group_layouts() {
    let (mut ctx, device, _queue) = setup();
    let bgl_desc = BindGroupLayoutDescriptor { bindings: vec![] };
    let a = ctx.device_create_bind_group_layout(&device, &bgl_desc);
    let b = ctx.device_create_bind_group_layout(&device, &bgl_desc);
    let layout_desc = PipelineLayoutDescriptor { bind_group_layouts: vec![&a, &b] };
    let layout = ctx.device_create_pipeline_layout(&device, &layout_desc);
    let module = ctx.device_create_shader_module(&device, vec![0x0723_0203, 42]);
    let pipeline_desc = wgpu::pipeline::ComputePipelineDescriptor {
        layout: &layout,
        compute_stage: wgpu::pipeline::ProgrammableStageDescriptor {
            module: &module,
            entry_point: "main",
        },
    };
    let pipeline = ctx.device_create_compute_pipeline(&device, pipeline_desc);
    let reflected = ctx.compute_pipeline_get_bind_group_layout(&pipeline, 1).unwrap();
    assert_eq!(reflected.id(), b.id());
    assert!(ctx.compute_pipeline_get_bind_group_layout(&pipeline, 2).is_none());
}

#[test]
fn dropped_resources_never_resolve_again() {
    let (mut ctx, device, _queue) = setup();
    let module = ctx.device_create_shader_module(&device, vec![1, 2, 3]);
    ctx.shader_module_drop(&module);
    let bgl = ctx.device_create_bind_group_layout(
        &device,
        &BindGroupLayoutDescriptor { bindings: vec![] },
    );
    let layout =
        ctx.device_create_pipeline_layout(&device, &PipelineLayoutDescriptor {
            bind_group_layouts: vec![&bgl],
        });
    ctx.pipeline_layout_drop(&layout);
    ctx.bind_group_layout_drop(&bgl);
    // A pipeline whose layout died no longer reflects bind group layouts.
    let module2 = ctx.device_create_shader_module(&device, vec![4, 5, 6]);
    let bgl2 = ctx.device_create_bind_group_layout(
        &device,
        &BindGroupLayoutDescriptor { bindings: vec![] },
    );
    let layout2 =
        ctx.device_create_pipeline_layout(&device, &PipelineLayoutDescriptor {
            bind_group_layouts: vec![&bgl2],
        });
    let pipeline = ctx.device_create_compute_pipeline(
        &device,
        wgpu::pipeline::ComputePipelineDescriptor {
            layout: &layout2,
            compute_stage: wgpu::pipeline::ProgrammableStageDescriptor {
                module: &module2,
                entry_point: "main",
            },
        },
    );
    assert!(ctx.compute_pipeline_get_bind_group_layout(&pipeline, 0).is_some());
    ctx.pipeline_layout_drop(&layout2);
    assert!(ctx.compute_pipeline_get_bind_group_layout(&pipeline, 0).is_none());
}

#[test]
fn destroying_a_buffer_is_idempotent() {
    let (mut ctx, device, _queue) = setup();
    let usage = BufferUsage { copy_src: true, ..BufferUsage::empty() };
    let mut buf = ctx.device_create_buffer(&device, &BufferDescriptor { size: 8, usage });
    buf.destroy(&mut ctx);
    assert!(ctx.buffer_get_mapped_range(&buf, 0, 1).is_err());
    // A second destroy is a no-op, not a double free.
    buf.destroy(&mut ctx);
}
