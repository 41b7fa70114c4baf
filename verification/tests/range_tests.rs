//! Buffer ranges: every combination keeps the child inside the parent's
//! recorded bound, and the child's offset is the parent's offset plus the
//! sub-offset.

use wgpu::buffer::Buffer;
use wgpu::buffer::BufferDescriptor;
use wgpu::buffer::BufferUsage;
use wgpu::buffer::RangeError;
use wgpu::buffer::RangedBuffer;
use wgpu::buffer::ToEnd;
use wgpu::context::Context;
use wgpu::device::BackendBit;
use wgpu::device::Device;
use wgpu::device::DeviceDescriptor;
use wgpu::device::Limits;
use wgpu::device::PowerPreference;
use wgpu::device::Queue;
use wgpu::device::RequestAdapterOptions;

fn setup() -> (Context, Device, Queue) {
    let mut ctx = Context::init(BackendBit::all());
    let adapter = ctx
        .request_adapter(&RequestAdapterOptions { power_preference: PowerPreference::Default })
        .unwrap();
    let (device, queue) = ctx
        .adapter_request_device(&adapter, &DeviceDescriptor { limits: Limits::standard() })
        .unwrap();
    (ctx, device, queue)
}

fn plain_buffer(ctx: &mut Context, device: &Device, size: u64) -> Buffer {
    let usage = BufferUsage { copy_src: true, copy_dst: true, ..BufferUsage::empty() };
    ctx.device_create_buffer(device, &BufferDescriptor { size, usage })
}

#[test]
fn whole_buffer_range_is_accepted() {
    let (mut ctx, device, _queue) = setup();
    let buf = plain_buffer(&mut ctx, &device, 10);
    let r = buf.range(0, 10u64).unwrap();
    assert_eq!(r.offset(), 0);
    assert_eq!(r.size(), Some(10));
}

#[test]
fn range_past_the_buffer_end_is_rejected() {
    let (mut ctx, device, _queue) = setup();
    let buf = plain_buffer(&mut ctx, &device, 10);
    assert!(matches!(buf.range(4, 10u64), Err(RangeError)));
    assert!(matches!(buf.range(11, ToEnd), Err(RangeError)));
}

#[test]
fn sub_range_past_the_parent_bound_is_rejected() {
    let (mut ctx, device, _queue) = setup();
    let buf = plain_buffer(&mut ctx, &device, 32);
    // A 10-unit region, sub-ranged at offset 4 with a further size of 10:
    // 4 + 10 reaches past the region's bound and must be rejected.
    let region = buf.range(0, 10u64).unwrap();
    assert!(matches!(region.range(4, 10u64), Err(RangeError)));
}

#[test]
fn sub_range_offsets_accumulate() {
    let (mut ctx, device, _queue) = setup();
    let buf = plain_buffer(&mut ctx, &device, 16);
    let parent = buf.range(2, 8u64).unwrap();
    let child = parent.range(1, 3u64).unwrap();
    assert_eq!(child.offset(), 3);
    assert_eq!(child.size(), Some(3));
}

#[test]
fn to_end_of_a_bounded_range_keeps_the_parent_end() {
    let (mut ctx, device, _queue) = setup();
    let buf = plain_buffer(&mut ctx, &device, 16);
    let parent = buf.range(2, 8u64).unwrap();
    let child = parent.range(3, ToEnd).unwrap();
    assert_eq!(child.offset(), 5);
    // The child runs to the parent's end at offset 10.
    assert_eq!(child.size(), Some(5));
}

#[test]
fn unbounded_ranges_check_against_the_buffer_end() {
    let (mut ctx, device, _queue) = setup();
    let buf = plain_buffer(&mut ctx, &device, 16);
    let rest = buf.range(4, ToEnd).unwrap();
    assert_eq!(rest.size(), None);
    let child = rest.range(2, 6u64).unwrap();
    assert_eq!(child.offset(), 6);
    assert_eq!(child.size(), Some(6));
    assert!(matches!(rest.range(2, 20u64), Err(RangeError)));
}

#[test]
fn unsure_ranges_combine_known_and_unknown_sizes() {
    let (mut ctx, device, _queue) = setup();
    let buf = plain_buffer(&mut ctx, &device, 16);
    let known = buf.range(0, Some(8u64)).unwrap();
    let tighter = known.range(2, Some(6u64)).unwrap();
    assert_eq!(tighter.offset(), 2);
    assert_eq!(tighter.size(), Some(6));
    assert!(matches!(known.range(4, Some(10u64)), Err(RangeError)));
    // A to-end sub-range of a known region keeps the region's end.
    let rest = known.range(3, ToEnd).unwrap();
    assert_eq!(rest.offset(), 3);
    assert_eq!(rest.size(), Some(5));
    // A fully unknown chain stays unknown.
    let unknown = buf.range(0, None::<u64>).unwrap();
    let shifted = unknown.range(5, None::<u64>).unwrap();
    assert_eq!(shifted.offset(), 5);
    assert_eq!(shifted.size(), None);
}
