//! The identity registry: identifiers resolve exactly until their resource
//! is freed, and never again, even when the slot is reused.

use wgpu::error::StaleIdError;
use wgpu::id::Backend;
use wgpu::registry::Registry;

#[test]
fn resolve_succeeds_while_live() {
    let mut reg: Registry<u32> = Registry::new(Backend::Vulkan);
    let id = reg.allocate(7);
    assert!(reg.is_live(id));
    assert_eq!(reg.resolve(id), Ok(&7));
}

#[test]
fn resolve_fails_after_free() {
    let mut reg: Registry<u32> = Registry::new(Backend::Vulkan);
    let id = reg.allocate(7);
    assert_eq!(reg.free(id), Ok(7));
    assert!(!reg.is_live(id));
    assert_eq!(reg.resolve(id), Err(StaleIdError));
}

#[test]
fn stale_id_stays_stale_after_slot_reuse() {
    let mut reg: Registry<u32> = Registry::new(Backend::Metal);
    let first = reg.allocate(1);
    assert_eq!(reg.free(first), Ok(1));
    let second = reg.allocate(2);
    // The slot is recycled under a strictly higher generation.
    assert_eq!(second.index, first.index);
    assert!(second.generation > first.generation);
    // The new resource resolves; the old identifier never does again.
    assert_eq!(reg.resolve(second), Ok(&2));
    assert_eq!(reg.resolve(first), Err(StaleIdError));
}

#[test]
fn free_is_rejected_for_stale_id() {
    let mut reg: Registry<u32> = Registry::new(Backend::Dx12);
    let id = reg.allocate(3);
    assert_eq!(reg.free(id), Ok(3));
    assert_eq!(reg.free(id), Err(StaleIdError));
}

#[test]
fn foreign_backend_id_does_not_resolve() {
    let mut vulkan: Registry<u32> = Registry::new(Backend::Vulkan);
    let mut metal: Registry<u32> = Registry::new(Backend::Metal);
    let id = vulkan.allocate(5);
    let _ = metal.allocate(6);
    // Same slot and generation, wrong backend tag.
    assert_eq!(metal.resolve(id), Err(StaleIdError));
}

#[test]
fn identifiers_are_equal_only_when_all_parts_match() {
    let mut reg: Registry<u32> = Registry::new(Backend::Vulkan);
    let a = reg.allocate(1);
    let b = reg.allocate(2);
    assert_ne!(a, b);
    let copy = a;
    assert_eq!(a, copy);
}
