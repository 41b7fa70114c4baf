//! End-to-end scenarios: creating resources, copying between buffers,
//! submitting, polling, and mapping results back into host memory.

use wgpu::buffer::Buffer;
use wgpu::buffer::BufferDescriptor;
use wgpu::buffer::BufferUsage;
use wgpu::buffer::RangedBuffer;
use wgpu::buffer::ToEnd;
use wgpu::context::Context;
use wgpu::device::BackendBit;
use wgpu::device::Device;
use wgpu::device::DeviceDescriptor;
use wgpu::device::Limits;
use wgpu::device::PowerPreference;
use wgpu::device::Queue;
use wgpu::device::RequestAdapterOptions;
use wgpu::error::Error;
use wgpu::error::FatalError;
use wgpu::error::ValidationCause;
use wgpu::future::WakerToken;
use wgpu::sink::ErrorHandling;

fn setup() -> (Context, Device, Queue) {
    let mut ctx = Context::init(BackendBit::all());
    let adapter = ctx
        .request_adapter(&RequestAdapterOptions { power_preference: PowerPreference::Default })
        .unwrap();
    let (device, queue) = ctx
        .adapter_request_device(&adapter, &DeviceDescriptor { limits: Limits::standard() })
        .unwrap();
    (ctx, device, queue)
}

fn waker(task: u64) -> WakerToken {
    WakerToken { task }
}

#[test]
fn copied_buffer_contents_round_trip() {
    let (mut ctx, device, queue) = setup();
    // Source: a buffer created with sixteen known bytes.
    let data: Vec<u8> = (0u8..16).collect();
    let src_usage = BufferUsage { storage: true, copy_src: true, ..BufferUsage::empty() };
    let src = ctx.device_create_buffer_with_data(&device, &data, src_usage);
    // Destination: sixteen zero bytes, readable after the copy.
    let dst_usage = BufferUsage { copy_dst: true, map_read: true, ..BufferUsage::empty() };
    let dst = ctx.device_create_buffer(&device, &BufferDescriptor { size: 16, usage: dst_usage });
    // Record and submit the copy of [0, 16).
    let mut enc = ctx.device_create_command_encoder(&device);
    enc.copy_buffer_to_buffer(src.range(0, 16u64).unwrap(), dst.range(0, ToEnd).unwrap())
        .unwrap();
    let cb = enc.finish().unwrap();
    ctx.queue_submit(&queue, vec![cb]).unwrap();
    ctx.device_poll(&device, true).unwrap();
    // Map the destination and compare.
    let token = dst.range(0, 16u64).unwrap().map_read(&mut ctx);
    assert_eq!(ctx.buffer_map_poll(token, waker(1)), Ok(None));
    let wakers = ctx.device_poll(&device, true).unwrap();
    assert_eq!(wakers, vec![waker(1)]);
    assert_eq!(ctx.buffer_map_poll(token, waker(1)), Ok(Some(Ok(()))));
    let mapped = ctx.buffer_get_mapped_range(&dst, 0, 16).unwrap();
    assert_eq!(mapped.as_slice(), &data[..]);
}

#[test]
fn an_unwritten_buffer_maps_to_zero_bytes_and_remaps_after_unmap() {
    let (mut ctx, device, _queue) = setup();
    let usage = BufferUsage { map_read: true, copy_dst: true, ..BufferUsage::empty() };
    let buf = ctx.device_create_buffer(&device, &BufferDescriptor { size: 16, usage });
    // First mapping cycle: the future resolves after a poll, and the mapped
    // window holds sixteen zero bytes.
    let token = buf.range(0, 16u64).unwrap().map_read(&mut ctx);
    assert_eq!(ctx.buffer_map_poll(token, waker(3)), Ok(None));
    ctx.device_poll(&device, true).unwrap();
    assert_eq!(ctx.buffer_map_poll(token, waker(3)), Ok(Some(Ok(()))));
    let mapped = ctx.buffer_get_mapped_range(&buf, 0, 16).unwrap();
    assert_eq!(mapped.as_slice(), &[0u8; 16][..]);
    // Remapping is legal after an unmap.
    buf.unmap(&mut ctx);
    let again = buf.range(0, 16u64).unwrap().map_read(&mut ctx);
    ctx.device_poll(&device, true).unwrap();
    assert_eq!(ctx.buffer_map_poll(again, waker(4)), Ok(Some(Ok(()))));
    let remapped = ctx.buffer_get_mapped_range(&buf, 0, 16).unwrap();
    assert_eq!(remapped.as_slice(), &[0u8; 16][..]);
}

#[test]
fn dropping_an_in_flight_mapping_unmaps_and_late_completion_is_a_noop() {
    let (mut ctx, device, _queue) = setup();
    let usage = BufferUsage { map_read: true, ..BufferUsage::empty() };
    let buf = ctx.device_create_buffer(&device, &BufferDescriptor { size: 16, usage });
    let token = buf.range(0, 16u64).unwrap().map_read(&mut ctx);
    // The consumer polls once, then abandons the future while in flight.
    assert_eq!(ctx.buffer_map_poll(token, waker(5)), Ok(None));
    let unmapped = ctx.buffer_map_cancel(token);
    assert_eq!(unmapped, Some(buf.id()));
    // The backend's completion callback still fires at the next poll; it
    // must be a no-op: no crash, no waker, no resolved mapping.
    let wakers = ctx.device_poll(&device, true).unwrap();
    assert!(wakers.is_empty());
    // The buffer is unmapped, so it can be mapped afresh.
    let again = buf.range(0, 16u64).unwrap().map_read(&mut ctx);
    ctx.device_poll(&device, true).unwrap();
    assert_eq!(ctx.buffer_map_poll(again, waker(6)), Ok(Some(Ok(()))));
}

#[test]
fn mapping_requests_validate_usage_and_state() {
    let (mut ctx, device, _queue) = setup();
    ctx.device_on_uncaptured_error(&device, ErrorHandling::Record);
    let usage = BufferUsage { copy_dst: true, ..BufferUsage::empty() };
    let buf = ctx.device_create_buffer(&device, &BufferDescriptor { size: 16, usage });
    // The buffer does not allow readable mapping: the future resolves to an
    // error and the sink hears why.
    let token = buf.range(0, 16u64).unwrap().map_read(&mut ctx);
    assert_eq!(
        ctx.buffer_map_poll(token, waker(7)),
        Ok(Some(Err(wgpu::error::BufferAsyncError)))
    );
    assert_eq!(
        ctx.device_errors(&device),
        vec![Error::Validation(ValidationCause::UsageMismatch)]
    );
    // Unmapping an unmapped buffer is a validation error too.
    ctx.buffer_unmap(&buf);
    assert_eq!(ctx.device_errors(&device).len(), 2);
    assert_eq!(
        ctx.device_errors(&device)[1],
        Error::Validation(ValidationCause::MapStateMismatch)
    );
}

#[test]
fn submitting_a_copy_from_a_destroyed_buffer_is_fatal() {
    let (mut ctx, device, queue) = setup();
    let usage = BufferUsage { copy_src: true, copy_dst: true, ..BufferUsage::empty() };
    let mut src = ctx.device_create_buffer(&device, &BufferDescriptor { size: 16, usage });
    let dst = ctx.device_create_buffer(&device, &BufferDescriptor { size: 16, usage });
    let mut enc = ctx.device_create_command_encoder(&device);
    enc.copy_buffer_to_buffer(src.range(0, 16u64).unwrap(), dst.range(0, ToEnd).unwrap())
        .unwrap();
    let cb = enc.finish().unwrap();
    // The source dies between recording and submission.
    src.destroy(&mut ctx);
    let result = ctx.queue_submit(&queue, vec![cb]);
    assert_eq!(result, Err(FatalError::InvalidSubmission));
}

#[test]
fn device_drop_waits_out_pending_mappings() {
    let (mut ctx, device, _queue) = setup();
    let usage = BufferUsage { map_read: true, ..BufferUsage::empty() };
    let buf = ctx.device_create_buffer(&device, &BufferDescriptor { size: 16, usage });
    let token = buf.range(0, 16u64).unwrap().map_read(&mut ctx);
    // Dropping the device first resolves the in-flight mapping, then tears
    // the device down.
    ctx.device_drop(&device).unwrap();
    assert_eq!(ctx.buffer_map_poll(token, waker(8)), Ok(Some(Ok(()))));
    // The device is gone afterwards.
    assert!(ctx.device_errors(&device).is_empty());
    assert!(!ctx.device_fatal_observed(&device));
}

#[test]
fn mapped_writes_become_buffer_contents() {
    let (mut ctx, device, queue) = setup();
    let src_usage = BufferUsage { map_write: true, copy_src: true, ..BufferUsage::empty() };
    let src = ctx.device_create_buffer(&device, &BufferDescriptor { size: 8, usage: src_usage });
    let dst_usage = BufferUsage { copy_dst: true, map_read: true, ..BufferUsage::empty() };
    let dst = ctx.device_create_buffer(&device, &BufferDescriptor { size: 8, usage: dst_usage });
    // Map the source for writing and fill it.
    let token = src.range(0, 8u64).unwrap().map_write(&mut ctx);
    ctx.device_poll(&device, true).unwrap();
    assert_eq!(ctx.buffer_map_poll(token, waker(9)), Ok(Some(Ok(()))));
    ctx.buffer_write_mapped_range(&src, 0, &[9, 8, 7, 6, 5, 4, 3, 2]).unwrap();
    ctx.buffer_unmap(&src);
    // Copy and read back.
    let mut enc = ctx.device_create_command_encoder(&device);
    enc.copy_buffer_to_buffer(src.range(0, 8u64).unwrap(), dst.range(0, ToEnd).unwrap())
        .unwrap();
    let cb = enc.finish().unwrap();
    ctx.queue_submit(&queue, vec![cb]).unwrap();
    let token2 = dst.range(0, 8u64).unwrap().map_read(&mut ctx);
    ctx.device_poll(&device, true).unwrap();
    assert_eq!(ctx.buffer_map_poll(token2, waker(10)), Ok(Some(Ok(()))));
    let mapped = ctx.buffer_get_mapped_range(&dst, 0, 8).unwrap();
    assert_eq!(mapped.as_slice(), &[9, 8, 7, 6, 5, 4, 3, 2][..]);
}

#[test]
fn buffers_created_mapped_carry_their_staged_bytes() {
    let (mut ctx, device, _queue) = setup();
    let usage = BufferUsage { map_read: true, copy_src: true, ..BufferUsage::empty() };
    let mut mapped = ctx.device_create_buffer_mapped(&device, 4, usage);
    mapped.data[0] = 10;
    mapped.data[1] = 20;
    mapped.data[2] = 30;
    mapped.data[3] = 40;
    let buf: Buffer = mapped.finish(&mut ctx);
    let token = buf.range(0, 4u64).unwrap().map_read(&mut ctx);
    ctx.device_poll(&device, true).unwrap();
    assert_eq!(ctx.buffer_map_poll(token, waker(11)), Ok(Some(Ok(()))));
    let view = ctx.buffer_get_mapped_range(&buf, 0, 4).unwrap();
    assert_eq!(view.as_slice(), &[10, 20, 30, 40][..]);
}

#[test]
fn polling_a_consumed_mapping_is_reported_as_fatal() {
    let (mut ctx, device, _queue) = setup();
    let usage = BufferUsage { map_read: true, ..BufferUsage::empty() };
    let buf = ctx.device_create_buffer(&device, &BufferDescriptor { size: 4, usage });
    let token = buf.range(0, 4u64).unwrap().map_read(&mut ctx);
    ctx.device_poll(&device, true).unwrap();
    assert_eq!(ctx.buffer_map_poll(token, waker(20)), Ok(Some(Ok(()))));
    // The result was consumed; polling again is the caller's fault.
    assert_eq!(ctx.buffer_map_poll(token, waker(20)), Err(FatalError::PollAfterConsume));
}

#[test]
fn a_queue_of_a_foreign_backend_is_a_build_configuration_error() {
    let (mut ctx, _device, _queue) = setup();
    // A queue issued by a context driving another backend.
    let metal_only = wgpu::device::BackendBit { vulkan: false, metal: true, dx12: false, dx11: false };
    let mut other = Context::init(metal_only);
    let adapter = other
        .request_adapter(&RequestAdapterOptions { power_preference: PowerPreference::Default })
        .unwrap();
    let (_foreign_device, foreign_queue) = other
        .adapter_request_device(&adapter, &DeviceDescriptor { limits: Limits::standard() })
        .unwrap();
    let result = ctx.queue_submit(&foreign_queue, vec![]);
    assert_eq!(result, Err(FatalError::UnsupportedBackend));
}

#[test]
fn mapped_range_access_is_validated() {
    let (mut ctx, device, _queue) = setup();
    let usage = BufferUsage { map_read: true, ..BufferUsage::empty() };
    let buf = ctx.device_create_buffer(&device, &BufferDescriptor { size: 8, usage });
    // Not mapped yet.
    assert_eq!(
        ctx.buffer_get_mapped_range(&buf, 0, 8).err(),
        Some(Error::Validation(ValidationCause::MapStateMismatch))
    );
    // Map only the window [0, 4).
    let token = buf.range(0, 4u64).unwrap().map_read(&mut ctx);
    ctx.device_poll(&device, true).unwrap();
    assert_eq!(ctx.buffer_map_poll(token, waker(21)), Ok(Some(Ok(()))));
    // Reading past the mapped window is rejected.
    assert_eq!(
        ctx.buffer_get_mapped_range(&buf, 2, 4).err(),
        Some(Error::Validation(ValidationCause::RangeOutOfBounds))
    );
    assert!(ctx.buffer_get_mapped_range(&buf, 2, 2).is_ok());
    // A destroyed buffer is stale.
    let mut gone = ctx.device_create_buffer(&device, &BufferDescriptor { size: 8, usage });
    gone.destroy(&mut ctx);
    assert_eq!(
        ctx.buffer_get_mapped_range(&gone, 0, 1).err(),
        Some(Error::Validation(ValidationCause::StaleResource))
    );
}

#[test]
fn queue_writes_land_in_the_buffer() {
    let (mut ctx, device, queue) = setup();
    let usage = BufferUsage { copy_dst: true, map_read: true, ..BufferUsage::empty() };
    let buf = ctx.device_create_buffer(&device, &BufferDescriptor { size: 8, usage });
    ctx.queue_write_buffer(&queue, &buf, 2, &[5, 6, 7]).unwrap();
    // Writing past the end is a fatal fault.
    assert_eq!(
        ctx.queue_write_buffer(&queue, &buf, 6, &[1, 2, 3]),
        Err(FatalError::InvalidSubmission)
    );
    let token = buf.range(0, 8u64).unwrap().map_read(&mut ctx);
    ctx.device_poll(&device, true).unwrap();
    assert_eq!(ctx.buffer_map_poll(token, waker(13)), Ok(Some(Ok(()))));
    let view = ctx.buffer_get_mapped_range(&buf, 0, 8).unwrap();
    assert_eq!(view.as_slice(), &[0, 0, 5, 6, 7, 0, 0, 0][..]);
}

#[test]
fn submission_order_is_execution_order() {
    let (mut ctx, device, queue) = setup();
    let usage = BufferUsage { copy_src: true, copy_dst: true, map_read: true, ..BufferUsage::empty() };
    let a = ctx.device_create_buffer_with_data(&device, &[1, 1, 1, 1], usage);
    let b = ctx.device_create_buffer_with_data(&device, &[2, 2, 2, 2], usage);
    let c = ctx.device_create_buffer(&device, &BufferDescriptor { size: 4, usage });
    // First buffer copies a into c; the second copies b into c. The later
    // submission wins.
    let mut enc1 = ctx.device_create_command_encoder(&device);
    enc1.copy_buffer_to_buffer(a.range(0, 4u64).unwrap(), c.range(0, ToEnd).unwrap()).unwrap();
    let cb1 = enc1.finish().unwrap();
    let mut enc2 = ctx.device_create_command_encoder(&device);
    enc2.copy_buffer_to_buffer(b.range(0, 4u64).unwrap(), c.range(0, ToEnd).unwrap()).unwrap();
    let cb2 = enc2.finish().unwrap();
    ctx.queue_submit(&queue, vec![cb1, cb2]).unwrap();
    let token = c.range(0, 4u64).unwrap().map_read(&mut ctx);
    ctx.device_poll(&device, true).unwrap();
    assert_eq!(ctx.buffer_map_poll(token, waker(12)), Ok(Some(Ok(()))));
    let view = ctx.buffer_get_mapped_range(&c, 0, 4).unwrap();
    assert_eq!(view.as_slice(), &[2, 2, 2, 2][..]);
}
