//! The completion bridge: single completion, exactly-once wakes, and
//! cancel-on-drop.

use wgpu::error::FatalError;
use wgpu::future::GpuFuture;
use wgpu::future::WakerToken;
use wgpu::id::Backend;
use wgpu::id::ResourceId;

fn buffer_id() -> ResourceId {
    ResourceId::new(0, 0, Backend::Vulkan)
}

#[test]
fn complete_before_poll_is_stored_for_the_next_poll() {
    let mut fut: GpuFuture<u32> = GpuFuture::new(buffer_id(), 16);
    assert_eq!(fut.complete(42), Ok(None));
    assert_eq!(fut.poll(WakerToken { task: 1 }), Some(42));
}

#[test]
fn poll_registers_waker_and_completion_wakes_it_exactly_once() {
    let mut fut: GpuFuture<u32> = GpuFuture::new(buffer_id(), 16);
    assert_eq!(fut.poll(WakerToken { task: 7 }), None);
    // A later poll replaces the waker.
    assert_eq!(fut.poll(WakerToken { task: 8 }), None);
    // Completing hands back the latest waker, exactly once.
    assert_eq!(fut.complete(5), Ok(Some(WakerToken { task: 8 })));
    assert_eq!(fut.poll(WakerToken { task: 8 }), Some(5));
}

#[test]
fn completing_twice_is_detected_as_fatal() {
    let mut fut: GpuFuture<u32> = GpuFuture::new(buffer_id(), 16);
    assert_eq!(fut.complete(1), Ok(None));
    assert_eq!(fut.complete(2), Err(FatalError::DoubleComplete));
}

#[test]
fn completing_after_consumption_is_detected_as_fatal() {
    let mut fut: GpuFuture<u32> = GpuFuture::new(buffer_id(), 16);
    assert_eq!(fut.complete(1), Ok(None));
    assert_eq!(fut.poll(WakerToken { task: 1 }), Some(1));
    assert_eq!(fut.complete(2), Err(FatalError::DoubleComplete));
}

#[test]
fn cancelling_an_in_flight_future_yields_the_unmap() {
    let mut fut: GpuFuture<u32> = GpuFuture::new(buffer_id(), 16);
    assert_eq!(fut.poll(WakerToken { task: 1 }), None);
    // Dropped while the operation is in flight: the buffer must be unmapped.
    assert_eq!(fut.cancel(), Some(buffer_id()));
    assert!(fut.is_cancelled());
}

#[test]
fn cancelling_an_unpolled_future_needs_no_unmap() {
    let mut fut: GpuFuture<u32> = GpuFuture::new(buffer_id(), 16);
    assert_eq!(fut.cancel(), None);
}

#[test]
fn completion_after_cancellation_is_a_noop() {
    let mut fut: GpuFuture<u32> = GpuFuture::new(buffer_id(), 16);
    assert_eq!(fut.poll(WakerToken { task: 1 }), None);
    assert_eq!(fut.cancel(), Some(buffer_id()));
    // The late callback neither faults nor wakes anyone.
    assert_eq!(fut.complete(9), Ok(None));
    assert!(fut.is_cancelled());
}

#[test]
fn buffer_info_is_kept() {
    let fut: GpuFuture<u32> = GpuFuture::new(buffer_id(), 32);
    assert_eq!(fut.get_buffer_info(), (buffer_id(), 32));
}
